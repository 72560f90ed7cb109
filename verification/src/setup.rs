//! Setting a game up: the deck, the size the user asks for, and the deal of
//! the deck into the two piles.

use crate::dog::Dog;
use crate::random;
use vstd::prelude::*;

verus! {

/// The cards a game is dealt from.
#[derive(Clone, Debug)]
pub struct Deck {
    pub dogs: Vec<Dog>,
}

impl Default for Deck {
    /// The deck without a card.
    fn default() -> (deck: Deck)
        ensures
            deck.dogs@ == Seq::<Dog>::empty(),
    {
        Deck { dogs: Vec::new() }
    }
}

/// Why no deck could be had. Each variant carries what the failing part
/// said.
#[derive(Clone, Debug)]
pub enum Error {
    /// The deck file could not be read.
    LoadDeck(String),
    /// The deck file does not hold a deck.
    DeckFormat(String),
}

impl Error {
    /// The error in words.
    pub open spec fn message_spec(self) -> Seq<char> {
        match self {
            Error::LoadDeck(_) => "failed to read deck file"@,
            Error::DeckFormat(detail) => "invalid deck format "@ + detail@,
        }
    }

    /// The error in words.
    pub fn message(&self) -> (text: String)
        ensures
            text@ == self.message_spec(),
    {
        match self {
            Error::LoadDeck(_) => String::from_str("failed to read deck file"),
            Error::DeckFormat(detail) => {
                let mut text = String::from_str("invalid deck format ");
                text.append(detail.as_str());
                text
            },
        }
    }
}

/// An event for the setup screen.
#[derive(Debug)]
pub enum Message {
    /// The deck was read, or could not be.
    DeckLoaded(Result<Deck, Error>),
    /// The text in the deck size field is now this.
    InputChanged(String),
    /// The deck size field was submitted.
    InputSubmitted,
    /// The shuffle box was set or cleared.
    ShuffleToggled(bool),
    /// The start button was pressed.
    StartPressed,
}

impl Clone for Message {
    fn clone(&self) -> Message {
        match self {
            Message::DeckLoaded(Ok(deck)) => Message::DeckLoaded(Ok(deck.clone())),
            Message::DeckLoaded(Err(error)) => Message::DeckLoaded(Err(error.clone())),
            Message::InputChanged(text) => Message::InputChanged(text.clone()),
            Message::InputSubmitted => Message::InputSubmitted,
            Message::ShuffleToggled(toggled) => Message::ShuffleToggled(*toggled),
            Message::StartPressed => Message::StartPressed,
        }
    }
}

/// What the caller has to do after an event was handled.
#[derive(Clone, Debug)]
pub enum Action {
    /// Nothing: wait for the next event.
    Wait,
    /// Report the error.
    Error(Error),
    /// Start a game with these two piles.
    StartGame { user_pile: Vec<Dog>, computer_pile: Vec<Dog> },
}

/// Whether `c` is one of the ten decimal digits.
pub open spec fn is_digit(c: char) -> bool {
    '0' <= c <= '9'
}

/// The number that the decimal digits of `digits` write.
pub open spec fn decimal_value(digits: Seq<char>) -> nat
    decreases digits.len(),
{
    if digits.len() == 0 {
        0
    } else {
        (decimal_value(digits.drop_last()) * 10 + (digits.last() as u32 - '0' as u32)) as nat
    }
}

/// The digits of a deck size: the text without its plus sign, if it starts
/// with one.
pub open spec fn size_digits(text: Seq<char>) -> Seq<char> {
    if text.len() > 0 && text[0] == '+' {
        text.drop_first()
    } else {
        text
    }
}

/// The deck size that `text` writes: one or more decimal digits, after a
/// plus sign or without one, whose number is no more than `usize::MAX`.
/// Any other text writes none.
pub open spec fn parsed_size(text: Seq<char>) -> Option<usize> {
    let digits = size_digits(text);
    if digits.len() > 0 && (forall|i: int| 0 <= i < digits.len() ==> is_digit(#[trigger] digits[i]))
        && decimal_value(digits) <= usize::MAX {
        Some(decimal_value(digits) as usize)
    } else {
        None
    }
}

/// More digits write no smaller a number.
proof fn lemma_decimal_value_grows(digits: Seq<char>, n: int)
    requires
        0 <= n <= digits.len(),
        forall|i: int| 0 <= i < digits.len() ==> is_digit(#[trigger] digits[i]),
    ensures
        decimal_value(digits.subrange(0, n)) <= decimal_value(digits),
    decreases digits.len() - n,
{
    if n == digits.len() {
        assert(digits.subrange(0, n) =~= digits);
    } else {
        let longer = digits.subrange(0, n + 1);
        assert(longer.drop_last() =~= digits.subrange(0, n));
        lemma_decimal_value_grows(digits, n + 1);
    }
}

/// Reads a deck size: one or more decimal digits, after a plus sign or
/// without one. Text that holds anything else, or a number over
/// `usize::MAX`, gives `None`.
pub fn parse_deck_size(text: &str) -> (size: Option<usize>)
    ensures
        size == parsed_size(text@),
{
    let len = text.unicode_len();
    let start: usize = if len > 0 && text.get_char(0) == '+' {
        1
    } else {
        0
    };
    let ghost digits = size_digits(text@);
    if start == len {
        return None;
    }
    let mut value: usize = 0;
    let mut i: usize = start;
    while i < len
        invariant
            start <= i <= len,
            len == text@.len(),
            digits == size_digits(text@),
            digits == text@.subrange(start as int, len as int),
            forall|k: int| 0 <= k < i - start ==> is_digit(#[trigger] digits[k]),
            value == decimal_value(digits.subrange(0, i - start)),
        decreases len - i,
    {
        let c = text.get_char(i);
        assert(c == digits[i - start]);
        if !('0' <= c && c <= '9') {
            return None;
        }
        let digit: usize = (c as u32 - '0' as u32) as usize;
        proof {
            let longer = digits.subrange(0, i - start + 1);
            assert(longer.drop_last() =~= digits.subrange(0, i - start));
            if value * 10 + digit > usize::MAX {
                // the digits read so far are already too many
                if forall|k: int| 0 <= k < digits.len() ==> is_digit(#[trigger] digits[k]) {
                    lemma_decimal_value_grows(digits, i - start + 1);
                }
            }
        }
        let tens = match value.checked_mul(10) {
            Some(tens) => tens,
            None => {
                return None;
            },
        };
        value = match tens.checked_add(digit) {
            Some(sum) => sum,
            None => {
                return None;
            },
        };
        i += 1;
    }
    assert(digits.subrange(0, i - start) =~= digits);
    Some(value)
}

/// Whether `user_pile` and `computer_pile` are a deal of `deck` for the
/// size `deck_size`. The user gets half of `deck_size` cards, rounded down,
/// from the front of the deck, and the computer all the others. An
/// unshuffled deck is dealt as it is. A shuffled one is dealt in some order
/// of its cards, unless `deck_size` is 0, which leaves it as it is.
pub open spec fn is_deal(
    deck: Seq<Dog>,
    deck_size: usize,
    shuffle: bool,
    user_pile: Seq<Dog>,
    computer_pile: Seq<Dog>,
) -> bool {
    let half = (deck_size / 2) as int;
    if shuffle && deck_size > 0 {
        &&& user_pile.len() == half
        &&& (user_pile + computer_pile).to_multiset() == deck.to_multiset()
    } else {
        &&& user_pile == deck.subrange(0, half)
        &&& computer_pile == deck.subrange(half, deck.len() as int)
    }
}

/// A deal hands out every card of the deck, and no other: the two piles
/// together hold the cards of the deck, as many as it has.
pub proof fn lemma_deal_keeps_cards(
    deck: Seq<Dog>,
    deck_size: usize,
    shuffle: bool,
    user_pile: Seq<Dog>,
    computer_pile: Seq<Dog>,
)
    requires
        deck_size / 2 <= deck.len(),
        is_deal(deck, deck_size, shuffle, user_pile, computer_pile),
    ensures
        (user_pile + computer_pile).to_multiset() == deck.to_multiset(),
        user_pile.len() + computer_pile.len() == deck.len(),
        user_pile.len() == deck_size / 2,
{
    let dealt = user_pile + computer_pile;
    if !(shuffle && deck_size > 0) {
        assert(dealt =~= deck);
    }
    dealt.to_multiset_ensures();
    deck.to_multiset_ensures();
}

/// The state of the setup screen as a mathematical value.
pub struct SetupState {
    /// The cards of the deck.
    pub deck: Seq<Dog>,
    /// The text in the deck size field.
    pub deck_size_input: Seq<char>,
    /// Whether the text was found to write no deck size, or none that a
    /// game can be started with.
    pub invalid_input: bool,
    /// Whether the deck is shuffled before the deal.
    pub shuffle: bool,
}

impl SetupState {
    /// The state in which the setup screen starts: no card, no text, no
    /// shuffle.
    pub open spec fn start() -> SetupState {
        SetupState {
            deck: Seq::empty(),
            deck_size_input: Seq::empty(),
            invalid_input: false,
            shuffle: false,
        }
    }

    /// The deck size that a game can be started with: the size that the
    /// text writes, where it gives each side a card. The user gets half of
    /// the size, so that half is at least one card and leaves at least one
    /// of the deck to the computer.
    pub open spec fn deal_size(self) -> Option<usize> {
        match parsed_size(self.deck_size_input) {
            Some(deck_size) if 0 < deck_size / 2 < self.deck.len() => Some(deck_size),
            _ => None,
        }
    }

    /// The state after `message` was handled.
    pub open spec fn step(self, message: Message) -> SetupState {
        match message {
            Message::DeckLoaded(Ok(deck)) => SetupState { deck: deck.dogs@, ..self },
            Message::DeckLoaded(Err(_)) => self,
            Message::InputChanged(text) => SetupState { deck_size_input: text@, ..self },
            Message::InputSubmitted => SetupState {
                invalid_input: parsed_size(self.deck_size_input) is None,
                ..self
            },
            Message::ShuffleToggled(shuffle) => SetupState { shuffle, ..self },
            Message::StartPressed => match self.deal_size() {
                Some(_) => SetupState { deck: Seq::empty(), ..self },
                None => SetupState { invalid_input: true, ..self },
            },
        }
    }

    /// Whether `action` is what the caller may be told after `message` was
    /// handled in this state. A deck that could not be loaded is reported.
    /// The start button starts a game with a deal of the deck if the text
    /// writes a size that gives each side a card; each of the two piles then
    /// holds a card. Everything else asks for nothing.
    pub open spec fn yields(self, message: Message, action: Action) -> bool {
        match message {
            Message::DeckLoaded(Err(error)) => action == Action::Error(error),
            Message::StartPressed => match self.deal_size() {
                Some(deck_size) => {
                    &&& action matches Action::StartGame { user_pile, computer_pile }
                    &&& is_deal(self.deck, deck_size, self.shuffle, user_pile@, computer_pile@)
                    &&& user_pile@.len() > 0
                    &&& computer_pile@.len() > 0
                },
                None => action is Wait,
            },
            _ => action is Wait,
        }
    }
}

/// What there is to see of the setup screen.
pub struct SetupView<'a> {
    /// The text in the deck size field.
    pub deck_size_input: &'a str,
    /// Whether the shuffle box is set.
    pub shuffle: bool,
    /// Whether the user is told that the text writes no deck size that a
    /// game can be started with.
    pub invalid_input: bool,
}

/// The setup screen.
pub struct Setup {
    deck: Deck,
    deck_size_input: String,
    invalid_input: bool,
    shuffle: bool,
}

impl Default for Setup {
    fn default() -> (setup: Setup)
        ensures
            setup.state() == SetupState::start(),
    {
        Setup {
            deck: Deck::default(),
            deck_size_input: String::new(),
            invalid_input: false,
            shuffle: false,
        }
    }
}

impl Setup {
    /// The state of the setup screen.
    pub closed spec fn state(&self) -> SetupState {
        SetupState {
            deck: self.deck.dogs@,
            deck_size_input: self.deck_size_input@,
            invalid_input: self.invalid_input,
            shuffle: self.shuffle,
        }
    }

    /// The setup screen as it starts. The caller loads the deck and hands
    /// it in as [`Message::DeckLoaded`].
    pub fn new() -> (setup: Setup)
        ensures
            setup.state() == SetupState::start(),
    {
        Setup::default()
    }

    /// The deck size that a game can be started with now, if there is one.
    pub fn deal_size(&self) -> (size: Option<usize>)
        ensures
            size == self.state().deal_size(),
    {
        match parse_deck_size(self.deck_size_input.as_str()) {
            Some(deck_size) => if 0 < deck_size / 2 && deck_size / 2 < self.deck.dogs.len() {
                Some(deck_size)
            } else {
                None
            },
            None => None,
        }
    }

    /// Handles one event. The start button starts a game only where each
    /// side gets a card; where the text writes no size that does, the deck
    /// stays and the text is marked as invalid.
    pub fn update(&mut self, message: Message) -> (action: Action)
        ensures
            final(self).state() == old(self).state().step(message),
            old(self).state().yields(message, action),
    {
        match message {
            Message::DeckLoaded(Ok(deck)) => self.deck = deck,
            Message::DeckLoaded(Err(error)) => {
                return Action::Error(error);
            },
            Message::InputChanged(input) => self.deck_size_input = input,
            Message::InputSubmitted => {
                self.invalid_input = parse_deck_size(self.deck_size_input.as_str()).is_none()
            },
            Message::ShuffleToggled(toggled) => self.shuffle = toggled,
            Message::StartPressed => match self.deal_size() {
                Some(deck_size) => {
                    let mut dogs: Vec<Dog> = Vec::new();
                    std::mem::swap(&mut dogs, &mut self.deck.dogs);
                    let ghost deck = dogs@;
                    let (user_pile, computer_pile) = Self::create_piles(
                        dogs,
                        deck_size,
                        self.shuffle,
                    );
                    proof {
                        lemma_deal_keeps_cards(
                            deck,
                            deck_size,
                            self.shuffle,
                            user_pile@,
                            computer_pile@,
                        );
                    }
                    return Action::StartGame { user_pile, computer_pile };
                },
                None => self.invalid_input = true,
            },
        }
        Action::Wait
    }

    /// What there is to see of the setup screen.
    pub fn view(&self) -> (shown: SetupView<'_>)
        ensures
            shown.deck_size_input@ == self.state().deck_size_input,
            shown.shuffle == self.state().shuffle,
            shown.invalid_input == self.state().invalid_input,
    {
        SetupView {
            deck_size_input: self.deck_size_input.as_str(),
            shuffle: self.shuffle,
            invalid_input: self.invalid_input,
        }
    }

    /// Splits `deck` in two: the user gets half of `deck_size` cards,
    /// rounded down, from its front, the computer all the others.
    pub fn split_deck(deck: Vec<Dog>, deck_size: usize) -> (piles: (Vec<Dog>, Vec<Dog>))
        requires
            deck_size / 2 <= deck@.len(),
        ensures
            piles.0@ == deck@.subrange(0, (deck_size / 2) as int),
            piles.1@ == deck@.subrange((deck_size / 2) as int, deck@.len() as int),
    {
        let mut deck = deck;
        let new_pile = deck.split_off(deck_size / 2);
        (deck, new_pile)
    }

    /// Deals `deck` into the user's pile and the computer's. With `shuffle`
    /// the deck is first put in a random order, as far as `deck_size` cards
    /// ask for.
    pub fn create_piles(deck: Vec<Dog>, deck_size: usize, shuffle: bool) -> (piles: (
        Vec<Dog>,
        Vec<Dog>,
    ))
        requires
            deck_size / 2 <= deck@.len(),
        ensures
            is_deal(deck@, deck_size, shuffle, piles.0@, piles.1@),
    {
        let mut deck = deck;
        let ghost given = deck@;
        if shuffle {
            random::partial_shuffle(&mut deck, deck_size);
        }
        proof {
            deck@.to_multiset_ensures();
            given.to_multiset_ensures();
        }
        let ghost shuffled = deck@;
        let piles = Self::split_deck(deck, deck_size);
        assert(piles.0@ + piles.1@ =~= shuffled);
        piles
    }
}

} // verus!
