//! The round engine: two piles of cards, the comparison of their front
//! cards, the transfer of cards to the winner of a round, and the end of the
//! game.

use crate::dog::{Attribute, Dog};
use crate::random;
use std::collections::VecDeque;
use vstd::multiset::Multiset;
use vstd::prelude::*;

verus! {

/// One of the two sides of the game.
#[derive(Clone, Copy, PartialEq, Eq, Debug, Structural)]
pub enum Player {
    User,
    Computer,
}

impl Player {
    /// The other side.
    pub open spec fn opponent_spec(self) -> Player {
        match self {
            Player::User => Player::Computer,
            Player::Computer => Player::User,
        }
    }

    /// The side's display name.
    pub open spec fn name_spec(self) -> Seq<char> {
        match self {
            Player::User => "User"@,
            Player::Computer => "Computer"@,
        }
    }

    /// The side's name as it stands inside a sentence.
    pub open spec fn lower_name_spec(self) -> Seq<char> {
        match self {
            Player::User => "user"@,
            Player::Computer => "computer"@,
        }
    }

    /// The side's name as it stands inside a sentence: in lower case.
    pub fn lower_name(self) -> (s: &'static str)
        ensures
            s@ == self.lower_name_spec(),
    {
        match self {
            Player::User => "user",
            Player::Computer => "computer",
        }
    }

    /// The other side.
    pub fn opponent(self) -> (other: Player)
        ensures
            other == self.opponent_spec(),
    {
        match self {
            Player::User => Player::Computer,
            Player::Computer => Player::User,
        }
    }

    /// The side's display name.
    pub fn name(self) -> (s: &'static str)
        ensures
            s@ == self.name_spec(),
    {
        match self {
            Player::User => "User",
            Player::Computer => "Computer",
        }
    }
}

/// An event for the engine.
#[derive(Clone, Copy, PartialEq, Eq, Debug, Structural)]
pub enum Message {
    /// The side whose turn it is has picked the attribute to compare.
    AttributeSelected(Attribute),
    /// The round is over: hand the cards to its winner.
    NextRound,
}

/// What the caller has to do after an event was handled.
#[derive(Clone, Copy, PartialEq, Eq, Debug, Structural)]
pub enum Action {
    /// Nothing: wait for the next event.
    Wait,
    /// The computer picks the attribute of the new round: obtain its choice
    /// and hand it back as [`Message::AttributeSelected`].
    ComputerChoice,
    /// A pile is empty and the game is over.
    GameOver { winner: Player },
}

/// What is written above the cards.
#[derive(Clone, Copy, PartialEq, Eq, Debug, Structural)]
pub enum Prompt {
    /// The user is to pick an attribute.
    ChooseAttribute,
    /// The computer is picking an attribute.
    ComputerChoosing,
    /// The round has its outcome: `winner` has the better `attribute`.
    RoundWon { winner: Player, attribute: Attribute },
}

impl Prompt {
    /// The words of the prompt. A won round is told in two sentences: which
    /// side has the better attribute, both in lower case, and that this side
    /// wins.
    pub open spec fn text_spec(self) -> Seq<char> {
        match self {
            Prompt::ChooseAttribute => "Choose an attribute:"@,
            Prompt::ComputerChoosing => "Computer is choosing an attribute..."@,
            Prompt::RoundWon { winner, attribute } => "The "@ + winner.lower_name_spec()
                + " has better "@ + attribute.lower_name_spec() + ". "@ + winner.name_spec()
                + " wins!"@,
        }
    }

    /// The words of the prompt.
    pub fn text(self) -> (text: String)
        ensures
            text@ == self.text_spec(),
    {
        match self {
            Prompt::ChooseAttribute => String::from_str("Choose an attribute:"),
            Prompt::ComputerChoosing => String::from_str("Computer is choosing an attribute..."),
            Prompt::RoundWon { winner, attribute } => {
                let mut text = String::from_str("The ");
                text.append(winner.lower_name());
                text.append(" has better ");
                text.append(attribute.lower_name());
                text.append(". ");
                text.append(winner.name());
                text.append(" wins!");
                text
            },
        }
    }
}

/// The decimal digit for `digit`, which is below ten.
pub open spec fn digit_text(digit: nat) -> Seq<char> {
    if digit == 0 {
        "0"@
    } else if digit == 1 {
        "1"@
    } else if digit == 2 {
        "2"@
    } else if digit == 3 {
        "3"@
    } else if digit == 4 {
        "4"@
    } else if digit == 5 {
        "5"@
    } else if digit == 6 {
        "6"@
    } else if digit == 7 {
        "7"@
    } else if digit == 8 {
        "8"@
    } else {
        "9"@
    }
}

/// The decimal digits that write `number`, without leading zeros.
pub open spec fn number_text(number: nat) -> Seq<char>
    decreases number,
{
    if number < 10 {
        digit_text(number)
    } else {
        number_text(number / 10) + digit_text(number % 10)
    }
}

/// The decimal digit for `digit`.
fn digit_str(digit: u8) -> (s: &'static str)
    requires
        digit < 10,
    ensures
        s@ == digit_text(digit as nat),
{
    match digit {
        0 => "0",
        1 => "1",
        2 => "2",
        3 => "3",
        4 => "4",
        5 => "5",
        6 => "6",
        7 => "7",
        8 => "8",
        _ => "9",
    }
}

/// Appends the decimal digits of `value` to `text`.
fn append_number(text: &mut String, value: u8)
    ensures
        final(text)@ == old(text)@ + number_text(value as nat),
{
    proof {
        reveal_with_fuel(number_text, 3);
    }
    let ghost before = text@;
    if value >= 100 {
        text.append(digit_str(value / 100));
    }
    if value >= 10 {
        text.append(digit_str((value / 10) % 10));
    }
    text.append(digit_str(value % 10));
    assert(text@ =~= before + number_text(value as nat));
}

/// One line of a card: an attribute, its value and, where the line can be
/// pressed, the message that pressing it sends.
#[derive(Clone, Copy, PartialEq, Eq, Debug, Structural)]
pub struct CardRow {
    pub attribute: Attribute,
    pub value: u8,
    pub on_press: Option<Message>,
}

impl CardRow {
    /// The words of the line: the attribute's name, a colon and the value.
    pub open spec fn text_spec(self) -> Seq<char> {
        self.attribute.name_spec() + ": "@ + number_text(self.value as nat)
    }

    /// The words of the line.
    pub fn text(self) -> (text: String)
        ensures
            text@ == self.text_spec(),
    {
        let mut text = String::from_str(self.attribute.name());
        text.append(": ");
        append_number(&mut text, self.value);
        text
    }
}

/// What there is to see of a game: the two front cards, as far as they are
/// shown, and what is written above them.
pub struct RoundView<'a> {
    /// The user's front card.
    pub user_card: Option<&'a Dog>,
    /// Whether the lines of the user's card can be pressed.
    pub user_may_choose: bool,
    /// The computer's front card, while it lies face up.
    pub computer_card: Option<&'a Dog>,
    /// What is written above the cards.
    pub prompt: Prompt,
    /// Whether the next round can be started.
    pub next_round: bool,
}

/// The shortest time the computer takes to pick an attribute, in seconds.
pub const COMPUTER_THINK_SECS_MIN: u64 = 3;

/// The longest time the computer takes to pick an attribute, in seconds.
pub const COMPUTER_THINK_SECS_MAX: u64 = 7;

/// The state of a game as a mathematical value.
pub struct GameState {
    /// The user's pile, front card first.
    pub user_pile: Seq<Dog>,
    /// The computer's pile, front card first.
    pub computer_pile: Seq<Dog>,
    /// The outcome of the current round, once an attribute has been
    /// selected: the side that wins it and the attribute compared.
    pub winner: Option<(Player, Attribute)>,
    /// The side that won the previous round, and so picks the attribute of
    /// this one; the user before any round was played.
    pub previous_winner: Player,
}

impl GameState {
    /// The state in which a game starts.
    pub open spec fn start(user_pile: Seq<Dog>, computer_pile: Seq<Dog>) -> GameState {
        GameState { user_pile, computer_pile, winner: None, previous_winner: Player::User }
    }

    /// The pile of `side`.
    pub open spec fn pile(self, side: Player) -> Seq<Dog> {
        match side {
            Player::User => self.user_pile,
            Player::Computer => self.computer_pile,
        }
    }

    /// The number of cards in the game.
    pub open spec fn card_count(self) -> nat {
        self.user_pile.len() + self.computer_pile.len()
    }

    /// The cards in the game, whoever holds them.
    pub open spec fn cards(self) -> Multiset<Dog> {
        self.user_pile.to_multiset().add(self.computer_pile.to_multiset())
    }

    /// Both sides still hold a card.
    pub open spec fn in_progress(self) -> bool {
        self.user_pile.len() > 0 && self.computer_pile.len() > 0
    }

    /// The side that has won the game: the one whose opponent has no card
    /// left.
    pub open spec fn overall_winner(self) -> Option<Player> {
        if self.computer_pile.len() == 0 {
            Some(Player::User)
        } else if self.user_pile.len() == 0 {
            Some(Player::Computer)
        } else {
            None
        }
    }

    /// The side that picks the attribute of the current round.
    pub open spec fn chooser(self) -> Player {
        self.previous_winner
    }

    /// What is written above the cards.
    pub open spec fn prompt(self) -> Prompt {
        match self.winner {
            Some((winner, attribute)) => Prompt::RoundWon { winner, attribute },
            None => if self.chooser() == Player::User {
                Prompt::ChooseAttribute
            } else {
                Prompt::ComputerChoosing
            },
        }
    }

    /// Whether the user's card offers its attributes for selection: the
    /// user holds a card, picks this round's attribute and has not done so.
    pub open spec fn user_may_choose(self) -> bool {
        self.user_pile.len() > 0 && self.chooser() == Player::User && self.winner is None
    }

    /// Whether the computer's front card lies face up: it does once the
    /// round has its outcome.
    pub open spec fn computer_card_shown(self) -> bool {
        self.computer_pile.len() > 0 && self.winner is Some
    }

    /// A round has an outcome only while both sides hold a card.
    pub open spec fn wf(self) -> bool {
        self.winner is Some ==> self.in_progress()
    }

    /// The side whose front card wins the comparison on `attr`: the user,
    /// unless the computer's card is strictly better.
    pub open spec fn round_winner(self, attr: Attribute) -> Player {
        if self.user_pile[0]@.beats(self.computer_pile[0]@, attr) {
            Player::User
        } else {
            Player::Computer
        }
    }

    /// Whether `message` may be handled in this state. Both sides must hold
    /// a card. An attribute is selected once per round, and the round is
    /// closed only after that.
    pub open spec fn accepts(self, message: Message) -> bool {
        self.in_progress() && match message {
            Message::AttributeSelected(_) => self.winner is None,
            Message::NextRound => self.winner is Some,
        }
    }

    /// The state after `attr` was selected: the round has its outcome, and
    /// no card has moved.
    pub open spec fn select_attribute(self, attr: Attribute) -> GameState {
        GameState { winner: Some((self.round_winner(attr), attr)), ..self }
    }

    /// The state after the round was closed. The winner's front card goes to
    /// the back of its pile, the loser's front card follows it there, and the
    /// winner picks next.
    pub open spec fn advance_round(self) -> GameState {
        let side = self.winner.unwrap().0;
        let winning = self.pile(side);
        let losing = self.pile(side.opponent_spec());
        let won = winning.drop_first().push(winning[0]).push(losing[0]);
        let lost = losing.drop_first();
        match side {
            Player::User => GameState {
                user_pile: won,
                computer_pile: lost,
                winner: None,
                previous_winner: side,
            },
            Player::Computer => GameState {
                user_pile: lost,
                computer_pile: won,
                winner: None,
                previous_winner: side,
            },
        }
    }

    /// The state after `message` was handled.
    pub open spec fn step(self, message: Message) -> GameState {
        match message {
            Message::AttributeSelected(attr) => self.select_attribute(attr),
            Message::NextRound => self.advance_round(),
        }
    }

    /// What the caller is told after `message` was handled in this state.
    /// Selecting an attribute asks for nothing. Closing a round ends the game
    /// if a pile is empty now, and else asks for the computer's choice if the
    /// computer won the round.
    pub open spec fn action(self, message: Message) -> Action {
        match message {
            Message::AttributeSelected(_) => Action::Wait,
            Message::NextRound => {
                let next = self.advance_round();
                match next.overall_winner() {
                    Some(winner) => Action::GameOver { winner },
                    None => if next.chooser() == Player::Computer {
                        Action::ComputerChoice
                    } else {
                        Action::Wait
                    },
                }
            },
        }
    }
}

/// A game in progress.
pub struct Game {
    user_pile: VecDeque<Dog>,
    computer_pile: VecDeque<Dog>,
    winner: Option<(Player, Attribute)>,
    previous_winner: Player,
}

/// Moves the front card of `winning` to its back, and the front card of
/// `losing` behind it.
fn take_front_card(winning: &mut VecDeque<Dog>, losing: &mut VecDeque<Dog>)
    requires
        old(winning)@.len() > 0,
        old(losing)@.len() > 0,
    ensures
        final(winning)@ == old(winning)@.drop_first().push(old(winning)@[0]).push(old(losing)@[0]),
        final(losing)@ == old(losing)@.drop_first(),
{
    let own = winning.pop_front().unwrap();
    winning.push_back(own);
    let taken = losing.pop_front().unwrap();
    winning.push_back(taken);
}

/// The pile that holds the cards of `cards`, in their order.
fn pile_of(cards: Vec<Dog>) -> (pile: VecDeque<Dog>)
    ensures
        pile@ == cards@,
{
    let mut cards = cards;
    let ghost all = cards@;
    let mut pile: VecDeque<Dog> = VecDeque::new();
    while cards.len() > 0
        invariant
            cards@ + pile@ == all,
        decreases cards.len(),
    {
        let card = cards.pop().unwrap();
        pile.push_front(card);
    }
    pile
}

impl Game {
    /// The state of the game.
    pub closed spec fn state(&self) -> GameState {
        GameState {
            user_pile: self.user_pile@,
            computer_pile: self.computer_pile@,
            winner: self.winner,
            previous_winner: self.previous_winner,
        }
    }

    /// Starts a game with the two piles, front cards first. The user picks
    /// the first attribute.
    pub fn new(user_pile: Vec<Dog>, computer_pile: Vec<Dog>) -> (game: Game)
        ensures
            game.state() == GameState::start(user_pile@, computer_pile@),
    {
        Game {
            user_pile: pile_of(user_pile),
            computer_pile: pile_of(computer_pile),
            // the user goes first
            previous_winner: Player::User,
            winner: None,
        }
    }

    /// Whether `message` may be handled now.
    pub fn accepts(&self, message: Message) -> (ok: bool)
        ensures
            ok == self.state().accepts(message),
    {
        self.user_pile.len() > 0 && self.computer_pile.len() > 0 && match message {
            Message::AttributeSelected(_) => self.winner.is_none(),
            Message::NextRound => self.winner.is_some(),
        }
    }

    /// Handles one event. Selecting an attribute compares the two front
    /// cards and records the round's outcome; closing the round hands the
    /// cards to its winner and says what comes next. Either way the cards in
    /// the game stay what they were.
    pub fn update(&mut self, message: Message) -> (action: Action)
        requires
            old(self).state().accepts(message),
        ensures
            final(self).state() == old(self).state().step(message),
            action == old(self).state().action(message),
            final(self).state().wf(),
            final(self).state().cards() == old(self).state().cards(),
            final(self).state().card_count() == old(self).state().card_count(),
    {
        proof {
            lemma_step_keeps_cards(self.state(), message);
        }
        match message {
            Message::AttributeSelected(attr) => {
                let user_wins = match self.user_pile[0].cmp_attr(&self.computer_pile[0], attr) {
                    std::cmp::Ordering::Less => false,
                    _ => true,
                };
                let winner = if user_wins {
                    Player::User
                } else {
                    Player::Computer
                };
                self.winner = Some((winner, attr));
            },
            Message::NextRound => {
                let (winner, _) = self.winner.unwrap();
                self.previous_winner = winner;
                self.winner = None;
                match winner {
                    Player::User => take_front_card(&mut self.user_pile, &mut self.computer_pile),
                    Player::Computer => take_front_card(
                        &mut self.computer_pile,
                        &mut self.user_pile,
                    ),
                }
                if let Some(winner) = self.overall_winner() {
                    return Action::GameOver { winner };
                }
                if winner == Player::Computer {
                    return Action::ComputerChoice;
                }
            },
        }
        Action::Wait
    }

    /// The user's front card, if the user holds one.
    pub fn user_card(&self) -> (card: Option<&Dog>)
        ensures
            card == if self.state().user_pile.len() > 0 {
                Some(&self.state().user_pile[0])
            } else {
                None
            },
    {
        if self.user_pile.len() > 0 {
            Some(&self.user_pile[0])
        } else {
            None
        }
    }

    /// The computer's front card, if the computer holds one.
    pub fn computer_card(&self) -> (card: Option<&Dog>)
        ensures
            card == if self.state().computer_pile.len() > 0 {
                Some(&self.state().computer_pile[0])
            } else {
                None
            },
    {
        if self.computer_pile.len() > 0 {
            Some(&self.computer_pile[0])
        } else {
            None
        }
    }

    /// The number of cards that `side` holds.
    pub fn pile_len(&self, side: Player) -> (len: usize)
        ensures
            len == self.state().pile(side).len(),
    {
        match side {
            Player::User => self.user_pile.len(),
            Player::Computer => self.computer_pile.len(),
        }
    }

    /// The card at `index` in the pile of `side`, counted from its front
    /// card, which is at 0.
    pub fn card(&self, side: Player, index: usize) -> (card: Option<&Dog>)
        ensures
            card == if index < self.state().pile(side).len() {
                Some(&self.state().pile(side)[index as int])
            } else {
                None
            },
    {
        let pile = match side {
            Player::User => &self.user_pile,
            Player::Computer => &self.computer_pile,
        };
        if index < pile.len() {
            Some(&pile[index])
        } else {
            None
        }
    }

    /// The outcome of the current round, once an attribute was selected:
    /// the side that wins it and the attribute compared.
    pub fn round_outcome(&self) -> (outcome: Option<(Player, Attribute)>)
        ensures
            outcome == self.state().winner,
    {
        self.winner
    }

    /// The side that picks the attribute of the current round.
    pub fn chooser(&self) -> (side: Player)
        ensures
            side == self.state().chooser(),
    {
        self.previous_winner
    }

    /// What there is to see of the game. The user's card is shown whenever
    /// there is one; the computer's only once the round has its outcome.
    pub fn view(&self) -> (shown: RoundView<'_>)
        ensures
            shown.user_card == if self.state().user_pile.len() > 0 {
                Some(&self.state().user_pile[0])
            } else {
                None
            },
            shown.user_may_choose == self.state().user_may_choose(),
            shown.computer_card == if self.state().computer_card_shown() {
                Some(&self.state().computer_pile[0])
            } else {
                None
            },
            shown.prompt == self.state().prompt(),
            shown.next_round == self.state().winner is Some,
    {
        let user_card = self.user_card();
        let user_may_choose = user_card.is_some() && self.previous_winner == Player::User
            && self.winner.is_none();
        let computer_card = if self.winner.is_some() {
            self.computer_card()
        } else {
            None
        };
        let prompt = match self.winner {
            Some((winner, attribute)) => Prompt::RoundWon { winner, attribute },
            None => if self.previous_winner == Player::User {
                Prompt::ChooseAttribute
            } else {
                Prompt::ComputerChoosing
            },
        };
        RoundView { user_card, user_may_choose, computer_card, prompt, next_round: self.winner.is_some() }
    }

    /// The lines of a card, one for each attribute in declared order. With
    /// `user_choice` a line can be pressed, and selects its attribute.
    pub fn view_card(dog: &Dog, user_choice: bool) -> (rows: Vec<CardRow>)
        ensures
            rows@.len() == Attribute::all_spec().len(),
            forall|i: int|
                0 <= i < rows@.len() ==> #[trigger] rows@[i] == (CardRow {
                    attribute: Attribute::all_spec()[i],
                    value: dog@.attr(Attribute::all_spec()[i]),
                    on_press: if user_choice {
                        Some(Message::AttributeSelected(Attribute::all_spec()[i]))
                    } else {
                        None
                    },
                }),
    {
        let attributes = Attribute::all();
        let mut rows: Vec<CardRow> = Vec::new();
        let mut i: usize = 0;
        while i < attributes.len()
            invariant
                attributes@ == Attribute::all_spec(),
                i <= attributes@.len(),
                rows@.len() == i,
                forall|k: int|
                    0 <= k < i ==> #[trigger] rows@[k] == (CardRow {
                        attribute: Attribute::all_spec()[k],
                        value: dog@.attr(Attribute::all_spec()[k]),
                        on_press: if user_choice {
                            Some(Message::AttributeSelected(Attribute::all_spec()[k]))
                        } else {
                            None
                        },
                    }),
            decreases attributes@.len() - i,
        {
            let attribute = attributes[i];
            let on_press = if user_choice {
                Some(Message::AttributeSelected(attribute))
            } else {
                None
            };
            rows.push(CardRow { attribute, value: dog.get_attr(attribute), on_press });
            i += 1;
        }
        rows
    }

    /// How long the computer takes to pick an attribute, in nanoseconds:
    /// a time drawn at random between the two limits, both included.
    pub fn computer_think_time() -> (nanos: u128)
        ensures
            COMPUTER_THINK_SECS_MIN * 1_000_000_000 <= nanos <= COMPUTER_THINK_SECS_MAX
                * 1_000_000_000,
    {
        random::duration_between(COMPUTER_THINK_SECS_MIN, COMPUTER_THINK_SECS_MAX)
    }

    /// The computer's choice: the selection of one of the attributes, drawn
    /// at random.
    pub fn computer_choose_attr() -> (message: Message)
        ensures
            message is AttributeSelected,
    {
        let choice = random::pick_one(Attribute::all());
        Message::AttributeSelected(choice.unwrap())
    }

    /// The side that has won the game, once a pile is empty.
    pub fn overall_winner(&self) -> (winner: Option<Player>)
        ensures
            winner == self.state().overall_winner(),
    {
        if self.computer_pile.len() == 0 {
            Some(Player::User)
        } else if self.user_pile.len() == 0 {
            Some(Player::Computer)
        } else {
            None
        }
    }
}

impl GameState {
    /// Whether the messages of `messages` may be handled one after the
    /// other, starting in this state.
    pub open spec fn accepts_all(self, messages: Seq<Message>) -> bool
        decreases messages.len(),
    {
        messages.len() > 0 ==> self.accepts(messages[0]) && self.step(messages[0]).accepts_all(
            messages.drop_first(),
        )
    }

    /// The state after the messages of `messages` were handled one after the
    /// other, starting in this state.
    pub open spec fn run(self, messages: Seq<Message>) -> GameState
        decreases messages.len(),
    {
        if messages.len() == 0 {
            self
        } else {
            self.step(messages[0]).run(messages.drop_first())
        }
    }
}

/// The cards of a pile that gives up its front card are those of the rest
/// and that card.
proof fn lemma_front_card_counts(pile: Seq<Dog>)
    requires
        pile.len() > 0,
    ensures
        pile.to_multiset() == pile.drop_first().to_multiset().insert(pile[0]),
{
    vstd::seq_lib::to_multiset_remove(pile, 0);
    pile.to_multiset_ensures();
}

/// Handling a message moves cards and never makes, loses or copies one: the
/// cards in the game, and so their number, stay what they were. The state
/// that follows is well formed.
pub proof fn lemma_step_keeps_cards(state: GameState, message: Message)
    requires
        state.accepts(message),
    ensures
        state.step(message).cards() == state.cards(),
        state.step(message).card_count() == state.card_count(),
        state.step(message).wf(),
{
    match message {
        Message::AttributeSelected(_) => {},
        Message::NextRound => {
            let side = state.winner.unwrap().0;
            let winning = state.pile(side);
            let losing = state.pile(side.opponent_spec());
            let rest = winning.drop_first();
            lemma_front_card_counts(winning);
            lemma_front_card_counts(losing);
            vstd::seq_lib::to_multiset_build(rest, winning[0]);
            vstd::seq_lib::to_multiset_build(rest.push(winning[0]), losing[0]);
        },
    }
}

/// Conservation: whatever messages are handled, the cards in the game, and
/// so the sum of the sizes of the two piles, stay what they were when the
/// game started.
pub proof fn lemma_run_keeps_cards(state: GameState, messages: Seq<Message>)
    requires
        state.accepts_all(messages),
    ensures
        state.run(messages).cards() == state.cards(),
        state.run(messages).card_count() == state.card_count(),
        state.wf() ==> state.run(messages).wf(),
    decreases messages.len(),
{
    if messages.len() > 0 {
        lemma_step_keeps_cards(state, messages[0]);
        lemma_run_keeps_cards(state.step(messages[0]), messages.drop_first());
    }
}

/// Termination: closing a round ends the game if and only if a pile is empty
/// afterwards. The pile that is empty then is the round loser's, and the
/// side named as the winner of the game holds all the cards.
pub proof fn lemma_game_over_iff_pile_empty(state: GameState)
    requires
        state.accepts(Message::NextRound),
    ensures
        state.action(Message::NextRound) is GameOver <==> !state.advance_round().in_progress(),
        state.action(Message::NextRound) matches Action::GameOver { winner } ==> {
            &&& winner == state.winner.unwrap().0
            &&& state.advance_round().pile(winner).len() == state.card_count()
            &&& state.advance_round().pile(winner.opponent_spec()).len() == 0
        },
{
}

/// Turn order: the user picks the attribute of the first round, and the
/// winner of a round picks the attribute of the next. The computer is asked
/// for its choice exactly when it won the round and the game goes on.
pub proof fn lemma_round_winner_picks_next(state: GameState)
    requires
        state.accepts(Message::NextRound),
    ensures
        state.advance_round().chooser() == state.winner.unwrap().0,
        state.action(Message::NextRound) == Action::ComputerChoice <==> (
        state.advance_round().in_progress() && state.winner.unwrap().0 == Player::Computer),
{
}

/// Before any round was played the user picks the attribute.
pub proof fn lemma_user_picks_first(user_pile: Seq<Dog>, computer_pile: Seq<Dog>)
    ensures
        GameState::start(user_pile, computer_pile).chooser() == Player::User,
        GameState::start(user_pile, computer_pile).wf(),
{
}

/// A round is won by the user exactly when the user's front card is no
/// worse than the computer's on the attribute compared: no lower in value,
/// or no higher on a reversed attribute. In particular the user wins a tie.
pub proof fn lemma_tie_goes_to_user(state: GameState, attr: Attribute)
    requires
        state.accepts(Message::AttributeSelected(attr)),
    ensures
        state.user_pile[0]@.attr(attr) == state.computer_pile[0]@.attr(attr)
            ==> state.select_attribute(attr).winner == Some((Player::User, attr)),
        state.select_attribute(attr).winner == Some((Player::User, attr))
            <==> state.user_pile[0]@.beats(state.computer_pile[0]@, attr),
{
}

/// Selecting an attribute moves no card, and the outcome it sets stays
/// until the round is closed: no second attribute is accepted before.
pub proof fn lemma_outcome_set_once(state: GameState, attr: Attribute, again: Attribute)
    requires
        state.accepts(Message::AttributeSelected(attr)),
    ensures
        state.select_attribute(attr).user_pile == state.user_pile,
        state.select_attribute(attr).computer_pile == state.computer_pile,
        state.select_attribute(attr).chooser() == state.chooser(),
        !state.select_attribute(attr).accepts(Message::AttributeSelected(again)),
        state.select_attribute(attr).accepts(Message::NextRound),
        state.advance_round().winner is None,
{
}

} // verus!
