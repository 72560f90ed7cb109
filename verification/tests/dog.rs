use celebrity_dogs::dog::{Attribute, Dog};
use std::cmp::Ordering;

fn annie() -> Dog {
    Dog::new("Annie the Afghan Hound".to_string(), 4, 15, 6, 1)
}

fn bertie() -> Dog {
    Dog::new("Bertie the Boxer".to_string(), 5, 60, 9, 3)
}

#[test]
fn dog_keeps_its_name() {
    assert_eq!(annie().name(), "Annie the Afghan Hound");
    assert_eq!(bertie().name(), "Bertie the Boxer");
}

#[test]
fn get_attr_reads_each_field() {
    let dog = annie();
    assert_eq!(dog.get_attr(Attribute::Exercise), 4);
    assert_eq!(dog.get_attr(Attribute::Intelligence), 15);
    assert_eq!(dog.get_attr(Attribute::Friendliness), 6);
    assert_eq!(dog.get_attr(Attribute::Drool), 1);
}

#[test]
fn higher_value_wins_on_plain_attributes() {
    let (a, b) = (annie(), bertie());
    for attr in [Attribute::Exercise, Attribute::Intelligence, Attribute::Friendliness] {
        assert_eq!(a.cmp_attr(&b, attr), Ordering::Less);
        assert_eq!(b.cmp_attr(&a, attr), Ordering::Greater);
        assert_eq!(a.cmp_attr(&a, attr), Ordering::Equal);
        assert!(!a.cmp_attr(&b, attr).is_ge());
        assert!(b.cmp_attr(&a, attr).is_ge());
    }
}

#[test]
fn lower_value_wins_on_drool() {
    let (a, b) = (annie(), bertie());
    assert_eq!(a.cmp_attr(&b, Attribute::Drool), Ordering::Greater);
    assert_eq!(b.cmp_attr(&a, Attribute::Drool), Ordering::Less);
    assert_eq!(b.cmp_attr(&b, Attribute::Drool), Ordering::Equal);
    assert!(a.cmp_attr(&b, Attribute::Drool).is_ge());
    assert!(!b.cmp_attr(&a, Attribute::Drool).is_ge());
}

#[test]
fn comparison_wins_exactly_when_value_is_no_worse() {
    let values = [0u8, 1, 2, 98, 99, 255];
    for &x in &values {
        for &y in &values {
            let a = Dog::new("a".to_string(), x, x, x, x);
            let b = Dog::new("b".to_string(), y, y, y, y);
            for attr in Attribute::all() {
                let wins = a.cmp_attr(&b, attr).is_ge();
                if attr == Attribute::Drool {
                    assert_eq!(wins, x <= y);
                } else {
                    assert_eq!(wins, x >= y);
                }
            }
        }
    }
}

#[test]
fn comparison_looks_at_the_chosen_attribute_only() {
    let a = Dog::new("a".to_string(), 9, 1, 9, 1);
    let b = Dog::new("b".to_string(), 1, 9, 1, 9);
    assert_eq!(a.cmp_attr(&b, Attribute::Exercise), Ordering::Greater);
    assert_eq!(a.cmp_attr(&b, Attribute::Intelligence), Ordering::Less);
    assert_eq!(a.cmp_attr(&b, Attribute::Friendliness), Ordering::Greater);
    assert_eq!(a.cmp_attr(&b, Attribute::Drool), Ordering::Greater);
}

#[test]
fn attributes_come_in_declared_order() {
    assert_eq!(
        Attribute::all(),
        vec![
            Attribute::Exercise,
            Attribute::Intelligence,
            Attribute::Friendliness,
            Attribute::Drool
        ]
    );
}

#[test]
fn only_drool_is_reversed() {
    assert!(!Attribute::Exercise.reversed());
    assert!(!Attribute::Intelligence.reversed());
    assert!(!Attribute::Friendliness.reversed());
    assert!(Attribute::Drool.reversed());
}

#[test]
fn attribute_names() {
    assert_eq!(Attribute::Exercise.name(), "Exercise");
    assert_eq!(Attribute::Intelligence.name(), "Intelligence");
    assert_eq!(Attribute::Friendliness.name(), "Friendliness");
    assert_eq!(Attribute::Drool.name(), "Drool");
}

#[test]
fn dogs_are_equal_by_name_and_values() {
    assert_eq!(annie(), annie());
    assert_ne!(annie(), bertie());
    assert_ne!(annie(), Dog::new("Annie".to_string(), 4, 15, 6, 1));
    assert_ne!(annie(), Dog::new("Annie the Afghan Hound".to_string(), 4, 15, 6, 2));
    assert_eq!(annie().clone(), annie());
}
