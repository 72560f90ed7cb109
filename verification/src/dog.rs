//! Cards and the attributes they are compared on.

use std::cmp::Ordering;
use vstd::prelude::*;

verus! {

/// One of the four numeric attributes of a card.
#[derive(Clone, Copy, PartialEq, Eq, Debug, Structural)]
pub enum Attribute {
    Exercise,
    Intelligence,
    Friendliness,
    Drool,
}

impl Attribute {
    /// The attributes in their declared order.
    pub open spec fn all_spec() -> Seq<Attribute> {
        seq![
            Attribute::Exercise,
            Attribute::Intelligence,
            Attribute::Friendliness,
            Attribute::Drool,
        ]
    }

    /// Whether the lower value wins on this attribute.
    pub open spec fn is_reversed(self) -> bool {
        self == Attribute::Drool
    }

    /// The attribute's display name.
    pub open spec fn name_spec(self) -> Seq<char> {
        match self {
            Attribute::Exercise => "Exercise"@,
            Attribute::Intelligence => "Intelligence"@,
            Attribute::Friendliness => "Friendliness"@,
            Attribute::Drool => "Drool"@,
        }
    }

    /// The attribute's name as it stands inside a sentence.
    pub open spec fn lower_name_spec(self) -> Seq<char> {
        match self {
            Attribute::Exercise => "exercise"@,
            Attribute::Intelligence => "intelligence"@,
            Attribute::Friendliness => "friendliness"@,
            Attribute::Drool => "drool"@,
        }
    }

    /// Every attribute, in declared order.
    pub fn all() -> (attrs: Vec<Attribute>)
        ensures
            attrs@ == Self::all_spec(),
    {
        let mut attrs: Vec<Attribute> = Vec::new();
        attrs.push(Attribute::Exercise);
        attrs.push(Attribute::Intelligence);
        attrs.push(Attribute::Friendliness);
        attrs.push(Attribute::Drool);
        attrs
    }

    /// Whether the lower value wins on this attribute: true of `Drool` only.
    pub fn reversed(self) -> (r: bool)
        ensures
            r == self.is_reversed(),
    {
        match self {
            Attribute::Drool => true,
            _ => false,
        }
    }

    /// The attribute's display name.
    pub fn name(self) -> (s: &'static str)
        ensures
            s@ == self.name_spec(),
    {
        match self {
            Attribute::Exercise => "Exercise",
            Attribute::Intelligence => "Intelligence",
            Attribute::Friendliness => "Friendliness",
            Attribute::Drool => "Drool",
        }
    }
}

/// What a card is, as a mathematical value.
pub struct DogView {
    pub name: Seq<char>,
    pub exercise: u8,
    pub intelligence: u8,
    pub friendliness: u8,
    pub drool: u8,
}

impl Attribute {
    /// The attribute's name as it stands inside a sentence: in lower case.
    pub fn lower_name(self) -> (s: &'static str)
        ensures
            s@ == self.lower_name_spec(),
    {
        match self {
            Attribute::Exercise => "exercise",
            Attribute::Intelligence => "intelligence",
            Attribute::Friendliness => "friendliness",
            Attribute::Drool => "drool",
        }
    }
}

impl DogView {
    /// The value of the attribute `attr`.
    pub open spec fn attr(self, attr: Attribute) -> u8 {
        match attr {
            Attribute::Exercise => self.exercise,
            Attribute::Intelligence => self.intelligence,
            Attribute::Friendliness => self.friendliness,
            Attribute::Drool => self.drool,
        }
    }

    /// Whether this card is at least as good as `other` on `attr`: its value
    /// is no lower or, on a reversed attribute, no higher.
    pub open spec fn beats(self, other: DogView, attr: Attribute) -> bool {
        if attr.is_reversed() {
            self.attr(attr) <= other.attr(attr)
        } else {
            self.attr(attr) >= other.attr(attr)
        }
    }

    /// How this card compares with `other` on `attr`. `Greater` means that
    /// this card is the better one: on a reversed attribute, the one with the
    /// lower value.
    pub open spec fn ordering_on(self, other: DogView, attr: Attribute) -> Ordering {
        let mine = self.attr(attr);
        let theirs = other.attr(attr);
        if mine == theirs {
            Ordering::Equal
        } else if (mine < theirs) == attr.is_reversed() {
            Ordering::Greater
        } else {
            Ordering::Less
        }
    }
}

/// A card: a named dog with four numeric attributes. A card is never changed
/// once it is made.
#[derive(Debug)]
pub struct Dog {
    name: String,
    exercise: u8,
    intelligence: u8,
    friendliness: u8,
    drool: u8,
}

impl View for Dog {
    type V = DogView;

    closed spec fn view(&self) -> DogView {
        DogView {
            name: self.name@,
            exercise: self.exercise,
            intelligence: self.intelligence,
            friendliness: self.friendliness,
            drool: self.drool,
        }
    }
}

impl Clone for Dog {
    /// A card with the same name and the same values.
    fn clone(&self) -> (copy: Dog)
        ensures
            copy@ == self@,
    {
        Dog {
            name: self.name.clone(),
            exercise: self.exercise,
            intelligence: self.intelligence,
            friendliness: self.friendliness,
            drool: self.drool,
        }
    }
}

impl PartialEq for Dog {
    fn eq(&self, other: &Dog) -> (r: bool) {
        self.name == other.name && self.exercise == other.exercise && self.intelligence
            == other.intelligence && self.friendliness == other.friendliness && self.drool
            == other.drool
    }
}

impl vstd::std_specs::cmp::PartialEqSpecImpl for Dog {
    open spec fn obeys_eq_spec() -> bool {
        true
    }

    /// Two cards are equal when they have the same name and the same values.
    open spec fn eq_spec(&self, other: &Dog) -> bool {
        self@ == other@
    }
}

impl Dog {
    /// Makes a card.
    pub fn new(name: String, exercise: u8, intelligence: u8, friendliness: u8, drool: u8) -> (dog:
        Dog)
        ensures
            dog@ == (DogView { name: name@, exercise, intelligence, friendliness, drool }),
    {
        Dog { name, exercise, intelligence, friendliness, drool }
    }

    /// The card's name.
    pub fn name(&self) -> (name: &str)
        ensures
            name@ == self@.name,
    {
        self.name.as_str()
    }

    /// The value of the attribute `attr`.
    pub fn get_attr(&self, attr: Attribute) -> (value: u8)
        ensures
            value == self@.attr(attr),
    {
        match attr {
            Attribute::Exercise => self.exercise,
            Attribute::Intelligence => self.intelligence,
            Attribute::Friendliness => self.friendliness,
            Attribute::Drool => self.drool,
        }
    }

    /// Compares this card with `other` on `attr`. The result is `Greater`
    /// where this card is the better one and `Less` where `other` is; on
    /// `Drool` the lower value is the better one. This card wins the
    /// comparison, that is the result is `Greater` or `Equal`, exactly when
    /// its value is no lower than the other's or, on `Drool`, no higher.
    pub fn cmp_attr(&self, other: &Dog, attr: Attribute) -> (ord: Ordering)
        ensures
            ord == self@.ordering_on(other@, attr),
            (ord != Ordering::Less) <==> self@.beats(other@, attr),
    {
        if attr.reversed() {
            // the lower value wins
            match self.get_attr(attr).cmp(&other.get_attr(attr)) {
                Ordering::Less => Ordering::Greater,
                Ordering::Equal => Ordering::Equal,
                Ordering::Greater => Ordering::Less,
            }
        } else {
            self.get_attr(attr).cmp(&other.get_attr(attr))
        }
    }
}

/// The better value wins. On every attribute but `Drool` a card wins the
/// comparison with another, that is compares as `Greater` or `Equal`,
/// exactly when its value is no lower than the other's; on `Drool`, exactly
/// when its value is no higher.
pub proof fn lemma_better_value_wins(a: DogView, b: DogView, attr: Attribute)
    ensures
        attr != Attribute::Drool ==> (a.ordering_on(b, attr) != Ordering::Less <==> a.attr(attr)
            >= b.attr(attr)),
        attr == Attribute::Drool ==> (a.ordering_on(b, attr) != Ordering::Less <==> a.drool
            <= b.drool),
        a.beats(b, attr) <==> a.ordering_on(b, attr) != Ordering::Less,
{
}

} // verus!
