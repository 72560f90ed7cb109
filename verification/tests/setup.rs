use celebrity_dogs::dog::Dog;
use celebrity_dogs::setup::{parse_deck_size, Action, Deck, Error, Message, Setup};

fn deck(n: u8) -> Vec<Dog> {
    (0..n).map(|i| Dog::new(format!("D{i}"), i, i, i, i)).collect()
}

fn names(dogs: &[Dog]) -> Vec<String> {
    dogs.iter().map(|d| d.name().to_string()).collect()
}

fn loaded(n: u8, input: &str) -> Setup {
    let mut setup = Setup::new();
    setup.update(Message::DeckLoaded(Ok(Deck { dogs: deck(n) })));
    setup.update(Message::InputChanged(input.to_string()));
    setup
}

#[test]
fn deck_size_is_read_as_a_decimal_number() {
    assert_eq!(parse_deck_size("6"), Some(6));
    assert_eq!(parse_deck_size("0"), Some(0));
    assert_eq!(parse_deck_size("30"), Some(30));
    assert_eq!(parse_deck_size("+6"), Some(6));
    assert_eq!(parse_deck_size("007"), Some(7));
    assert_eq!(parse_deck_size("1234567"), Some(1234567));
}

#[test]
fn deck_size_rejects_other_text() {
    for text in ["", "+", "-", "-1", "+-1", "++1", "6a", "a6", " 6", "6 ", "1_000", "1.5", "six", "6+", "٣"] {
        assert_eq!(parse_deck_size(text), None, "{text:?}");
    }
}

#[test]
fn deck_size_stops_at_the_largest_usize() {
    let max = usize::MAX.to_string();
    assert_eq!(parse_deck_size(&max), Some(usize::MAX));
    let over = (usize::MAX as u128 + 1).to_string();
    assert_eq!(parse_deck_size(&over), None);
    assert_eq!(parse_deck_size(&format!("{max}0")), None);
    assert_eq!(parse_deck_size("99999999999999999999999999999999999999999"), None);
    assert_eq!(parse_deck_size(&format!("000{max}")), Some(usize::MAX));
}

#[test]
fn deck_size_agrees_with_the_standard_parser() {
    let mut texts: Vec<String> = ["", "+", "-0", "+0", "00", "12", "+12", "1 2", "12x", "x", "+x", "18446744073709551615",
        "18446744073709551616", "4294967295", "4294967296", "+4294967296", "０"]
        .iter()
        .map(|s| s.to_string())
        .collect();
    for n in 0..300usize {
        texts.push(n.to_string());
        texts.push(format!("+{n}"));
        texts.push(format!("{n}-"));
    }
    for text in texts {
        assert_eq!(parse_deck_size(&text), text.parse::<usize>().ok(), "{text:?}");
    }
}

#[test]
fn new_setup_is_empty() {
    let setup = Setup::new();
    let shown = setup.view();
    assert_eq!(shown.deck_size_input, "");
    assert!(!shown.shuffle);
    assert!(!shown.invalid_input);
}

#[test]
fn input_and_shuffle_are_kept() {
    let mut setup = Setup::new();
    assert!(matches!(setup.update(Message::InputChanged("12".to_string())), Action::Wait));
    assert!(matches!(setup.update(Message::ShuffleToggled(true)), Action::Wait));
    let shown = setup.view();
    assert_eq!(shown.deck_size_input, "12");
    assert!(shown.shuffle);
    assert!(!shown.invalid_input);
    setup.update(Message::ShuffleToggled(false));
    assert!(!setup.view().shuffle);
}

#[test]
fn submitting_checks_the_input() {
    let mut setup = Setup::new();
    setup.update(Message::InputChanged("twelve".to_string()));
    assert!(!setup.view().invalid_input);
    assert!(matches!(setup.update(Message::InputSubmitted), Action::Wait));
    assert!(setup.view().invalid_input);
    setup.update(Message::InputChanged("12".to_string()));
    assert!(setup.view().invalid_input);
    setup.update(Message::InputSubmitted);
    assert!(!setup.view().invalid_input);
}

#[test]
fn start_with_bad_input_marks_it_invalid() {
    let mut setup = loaded(4, "");
    assert_eq!(setup.deal_size(), None);
    assert!(matches!(setup.update(Message::StartPressed), Action::Wait));
    assert!(setup.view().invalid_input);
    // the deck is still there
    setup.update(Message::InputChanged("4".to_string()));
    assert_eq!(setup.deal_size(), Some(4));
    match setup.update(Message::StartPressed) {
        Action::StartGame { user_pile, computer_pile } => {
            assert_eq!(names(&user_pile), ["D0", "D1"]);
            assert_eq!(names(&computer_pile), ["D2", "D3"]);
        }
        _ => panic!("expected a game to start"),
    }
}

#[test]
fn start_deals_the_deck_in_its_order() {
    let mut setup = loaded(5, "4");
    match setup.update(Message::StartPressed) {
        Action::StartGame { user_pile, computer_pile } => {
            assert_eq!(names(&user_pile), ["D0", "D1"]);
            assert_eq!(names(&computer_pile), ["D2", "D3", "D4"]);
        }
        _ => panic!("expected a game to start"),
    }
    assert!(!setup.view().invalid_input);
    // the deck was handed out, so no second game can be dealt
    assert_eq!(setup.deal_size(), None);
    assert!(matches!(setup.update(Message::StartPressed), Action::Wait));
    assert!(setup.view().invalid_input);
}

#[test]
fn start_needs_a_card_for_each_side() {
    // sizes that leave the user without a card
    for text in ["0", "1", "+1"] {
        let mut setup = loaded(3, text);
        assert_eq!(setup.deal_size(), None, "{text:?}");
        assert!(matches!(setup.update(Message::StartPressed), Action::Wait), "{text:?}");
        assert!(setup.view().invalid_input);
    }
    // sizes that leave the computer without a card, or ask for more than the deck holds
    for text in ["6", "7", "8", "100"] {
        let mut setup = loaded(3, text);
        assert_eq!(setup.deal_size(), None, "{text:?}");
        assert!(matches!(setup.update(Message::StartPressed), Action::Wait), "{text:?}");
        assert!(setup.view().invalid_input);
    }
    // the sizes in between start a game, and neither pile is empty
    for (text, size, user) in [("2", 2, 1), ("3", 3, 1), ("4", 4, 2), ("5", 5, 2)] {
        let mut setup = loaded(3, text);
        assert_eq!(setup.deal_size(), Some(size));
        match setup.update(Message::StartPressed) {
            Action::StartGame { user_pile, computer_pile } => {
                assert_eq!(user_pile.len(), user);
                assert_eq!(computer_pile.len(), 3 - user);
            }
            _ => panic!("expected a game to start"),
        }
        assert!(!setup.view().invalid_input);
    }
}

#[test]
fn no_game_starts_without_a_deck() {
    let mut setup = Setup::new();
    setup.update(Message::InputChanged("2".to_string()));
    assert_eq!(setup.deal_size(), None);
    assert!(matches!(setup.update(Message::StartPressed), Action::Wait));
    assert!(setup.view().invalid_input);
    let mut setup = loaded(1, "2");
    assert!(matches!(setup.update(Message::StartPressed), Action::Wait));
    assert!(setup.view().invalid_input);
}

#[test]
fn refused_start_keeps_the_deck() {
    let mut setup = loaded(4, "1");
    assert!(matches!(setup.update(Message::StartPressed), Action::Wait));
    setup.update(Message::InputChanged("8".to_string()));
    assert!(matches!(setup.update(Message::StartPressed), Action::Wait));
    setup.update(Message::InputChanged("6".to_string()));
    match setup.update(Message::StartPressed) {
        Action::StartGame { user_pile, computer_pile } => {
            assert_eq!(names(&user_pile), ["D0", "D1", "D2"]);
            assert_eq!(names(&computer_pile), ["D3"]);
        }
        _ => panic!("expected a game to start"),
    }
}

#[test]
fn odd_deck_size_rounds_the_user_pile_down() {
    let (user, computer) = Setup::create_piles(deck(7), 5, false);
    assert_eq!(names(&user), ["D0", "D1"]);
    assert_eq!(names(&computer), ["D2", "D3", "D4", "D5", "D6"]);
    let (user, computer) = Setup::create_piles(deck(2), 1, false);
    assert!(user.is_empty());
    assert_eq!(names(&computer), ["D0", "D1"]);
    let (user, computer) = Setup::split_deck(deck(2), 2);
    assert_eq!(names(&user), ["D0"]);
    assert_eq!(names(&computer), ["D1"]);
    let (user, computer) = Setup::split_deck(deck(2), 5);
    assert_eq!(names(&user), ["D0", "D1"]);
    assert!(computer.is_empty());
}

#[test]
fn shuffled_deal_holds_the_same_cards() {
    let mut reordered = false;
    for _ in 0..20 {
        let (user, computer) = Setup::create_piles(deck(30), 30, true);
        assert_eq!(user.len(), 15);
        assert_eq!(computer.len(), 15);
        let mut dealt = names(&user);
        dealt.extend(names(&computer));
        if dealt != names(&deck(30)) {
            reordered = true;
        }
        dealt.sort();
        let mut all = names(&deck(30));
        all.sort();
        assert_eq!(dealt, all);
    }
    assert!(reordered);
}

#[test]
fn shuffle_of_no_card_changes_nothing() {
    let (user, computer) = Setup::create_piles(deck(6), 0, true);
    assert!(user.is_empty());
    assert_eq!(names(&computer), ["D0", "D1", "D2", "D3", "D4", "D5"]);
}

#[test]
fn shuffled_start_deals_every_card() {
    let mut setup = loaded(9, "6");
    setup.update(Message::ShuffleToggled(true));
    match setup.update(Message::StartPressed) {
        Action::StartGame { user_pile, computer_pile } => {
            assert_eq!(user_pile.len(), 3);
            assert_eq!(computer_pile.len(), 6);
            let mut dealt = names(&user_pile);
            dealt.extend(names(&computer_pile));
            dealt.sort();
            assert_eq!(dealt, ["D0", "D1", "D2", "D3", "D4", "D5", "D6", "D7", "D8"]);
        }
        _ => panic!("expected a game to start"),
    }
}

#[test]
fn failed_load_is_reported() {
    let mut setup = Setup::new();
    setup.update(Message::InputChanged("4".to_string()));
    match setup.update(Message::DeckLoaded(Err(Error::LoadDeck("no such file".to_string())))) {
        Action::Error(error) => assert_eq!(error.message(), "failed to read deck file"),
        _ => panic!("expected an error"),
    }
    assert_eq!(setup.view().deck_size_input, "4");
    match setup.update(Message::DeckLoaded(Err(Error::DeckFormat("missing field `dogs`".to_string())))) {
        Action::Error(error) => {
            assert_eq!(error.message(), "invalid deck format missing field `dogs`")
        }
        _ => panic!("expected an error"),
    }
}

#[test]
fn default_deck_is_empty() {
    assert!(Deck::default().dogs.is_empty());
    let cloned = Message::DeckLoaded(Ok(Deck { dogs: deck(2) })).clone();
    match cloned {
        Message::DeckLoaded(Ok(deck)) => assert_eq!(names(&deck.dogs), ["D0", "D1"]),
        _ => panic!("expected a deck"),
    }
}
