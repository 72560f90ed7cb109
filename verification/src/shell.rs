//! The shell round the setup screen and the game: which screen is up, and
//! where each event goes.

use crate::game::{self, Game, GameState, Player};
use crate::setup::{self, is_deal, Setup, SetupState};
use vstd::prelude::*;

verus! {

/// The screen that reports an error.
pub struct ErrorScreen {
    pub display_message: String,
}

/// The screen that tells how a game ended.
pub struct GameOverScreen {
    pub winner: Player,
}

/// The screen that is up.
pub enum Screen {
    Menu,
    Error(ErrorScreen),
    Setup(Setup),
    Game(Game),
    GameOver(GameOverScreen),
}

/// An event for the shell.
#[derive(Clone, Debug)]
pub enum Message {
    /// An event for the setup screen.
    SetupMessage(setup::Message),
    /// An event for the game.
    GameMessage(game::Message),
    /// The play button of the menu was pressed.
    PlayPressed,
    /// The program is to end.
    Quit,
}

/// What the caller has to do after an event was handled.
#[derive(Clone, Copy, PartialEq, Eq, Debug, Structural)]
pub enum Command {
    /// Nothing: wait for the next event.
    Wait,
    /// Load the deck, and hand it in as [`setup::Message::DeckLoaded`].
    LoadDeck,
    /// Obtain the computer's choice, and hand it in as
    /// [`game::Message::AttributeSelected`].
    ComputerChoice,
    /// The game is over, and `winner` has won it. The game is gone, and the
    /// screen that tells so is up.
    GameOver { winner: Player },
    /// End the program.
    Exit,
}

/// The state of the shell as a mathematical value.
pub enum ShellState {
    /// The menu is up.
    Menu,
    /// An error is reported, in these words.
    Error(Seq<char>),
    /// The setup screen is up.
    Setup(SetupState),
    /// A game is up.
    Game(GameState),
    /// A game has ended, and this side has won it.
    GameOver(Player),
}

impl ShellState {
    /// The second half of the window's title.
    pub open spec fn subtitle(self) -> Seq<char> {
        match self {
            ShellState::Menu => "In Menu"@,
            ShellState::Game(_) | ShellState::Setup(_) => "Playing"@,
            ShellState::Error(_) => "Something went wrong"@,
            ShellState::GameOver(_) => "Game Over"@,
        }
    }

    /// The words that tell how a game ended.
    pub open spec fn result_text(winner: Player) -> Seq<char> {
        "Game over, "@ + winner.name_spec() + " won"@
    }

    /// The window's title.
    pub open spec fn title(self) -> Seq<char> {
        "Celebrity Dogs - "@ + self.subtitle()
    }

    /// Whether `message` may be handled in this state: the game that is up
    /// accepts what is meant for it. A game in which a pile is empty takes no
    /// message, so the shell accepts them all and drops them.
    pub open spec fn accepts(self, message: Message) -> bool {
        match (self, message) {
            (ShellState::Game(game), Message::GameMessage(inner)) => game.overall_winner() is Some
                || game.accepts(inner),
            _ => true,
        }
    }

    /// The state that follows a game in the state `game` when it handles
    /// `message`. The game stays up while it goes on. When the message ends
    /// it, the game is given up, and the screen that names its winner comes
    /// up.
    pub open spec fn after_game(game: GameState, message: game::Message) -> ShellState {
        match game.action(message) {
            game::Action::GameOver { winner } => ShellState::GameOver(winner),
            _ => ShellState::Game(game.step(message)),
        }
    }

    /// What the caller is told for what the game told the shell.
    pub open spec fn command_for(action: game::Action) -> Command {
        match action {
            game::Action::Wait => Command::Wait,
            game::Action::ComputerChoice => Command::ComputerChoice,
            game::Action::GameOver { winner } => Command::GameOver { winner },
        }
    }

    /// Whether `next` and `command` may follow when `message` is handled in
    /// this state.
    ///
    /// The play button puts the setup screen up and asks for the deck. An
    /// event for the setup screen or the game goes to that screen if it is
    /// up, and is dropped if not. The setup screen gives way to the error
    /// screen when the deck could not be loaded, and to a game, dealt from
    /// its deck, when the start button is pressed below a deck size that
    /// gives each side a card. What the game asks for is handed on. The
    /// message that ends the game takes it down: the screen that names the
    /// winner follows.
    pub open spec fn follows(self, message: Message, next: ShellState, command: Command) -> bool {
        match message {
            Message::PlayPressed => next == ShellState::Setup(SetupState::start()) && command
                == Command::LoadDeck,
            Message::Quit => next == self && command == Command::Exit,
            Message::SetupMessage(inner) => command == Command::Wait && match self {
                ShellState::Setup(setup) => setup.gives_way(inner, next),
                _ => next == self,
            },
            Message::GameMessage(inner) => match self {
                ShellState::Game(game) if game.overall_winner() is None => next
                    == Self::after_game(game, inner) && command == Self::command_for(
                    game.action(inner),
                ),
                _ => next == self && command == Command::Wait,
            },
        }
    }
}

impl SetupState {
    /// Whether the shell may be in the state `next` after the setup screen
    /// handled `message` in this state.
    pub open spec fn gives_way(self, message: setup::Message, next: ShellState) -> bool {
        match message {
            setup::Message::DeckLoaded(Err(error)) => next == ShellState::Error(
                error.message_spec(),
            ),
            setup::Message::StartPressed => match self.deal_size() {
                Some(deck_size) => {
                    &&& next matches ShellState::Game(game)
                    &&& game == GameState::start(game.user_pile, game.computer_pile)
                    &&& is_deal(
                        self.deck,
                        deck_size,
                        self.shuffle,
                        game.user_pile,
                        game.computer_pile,
                    )
                    &&& game.in_progress()
                },
                None => next == ShellState::Setup(self.step(message)),
            },
            _ => next == ShellState::Setup(self.step(message)),
        }
    }
}

impl Screen {
    /// The state of the shell with this screen up.
    pub open spec fn state(self) -> ShellState {
        match self {
            Screen::Menu => ShellState::Menu,
            Screen::Error(error) => ShellState::Error(error.display_message@),
            Screen::Setup(setup) => ShellState::Setup(setup.state()),
            Screen::Game(game) => ShellState::Game(game.state()),
            Screen::GameOver(over) => ShellState::GameOver(over.winner),
        }
    }
}

/// The shell.
pub struct App {
    view: Screen,
}

impl App {
    /// The state of the shell.
    pub closed spec fn state(&self) -> ShellState {
        self.view.state()
    }

    /// The shell as it starts, with the menu up.
    pub fn new() -> (app: App)
        ensures
            app.state() == ShellState::Menu,
    {
        App { view: Screen::Menu }
    }

    /// The screen that is up.
    pub fn screen(&self) -> (screen: &Screen)
        ensures
            screen.state() == self.state(),
    {
        &self.view
    }

    /// The window's title.
    pub fn title(&self) -> (title: String)
        ensures
            title@ == self.state().title(),
    {
        let subtitle = match self.view {
            Screen::Menu => "In Menu",
            Screen::Game(_) | Screen::Setup(_) => "Playing",
            Screen::Error(_) => "Something went wrong",
            Screen::GameOver(_) => "Game Over",
        };
        let mut title = String::from_str("Celebrity Dogs - ");
        title.append(subtitle);
        title
    }

    /// Whether `message` may be handled now.
    pub fn accepts(&self, message: &Message) -> (ok: bool)
        ensures
            ok == self.state().accepts(*message),
    {
        match (&self.view, message) {
            (Screen::Game(game), Message::GameMessage(inner)) => game.overall_winner().is_some()
                || game.accepts(*inner),
            _ => true,
        }
    }

    /// Handles one event.
    pub fn update(&mut self, message: Message) -> (command: Command)
        requires
            old(self).state().accepts(message),
        ensures
            old(self).state().follows(message, final(self).state(), command),
    {
        match message {
            Message::SetupMessage(setup_message) => self.update_setup(setup_message),
            Message::GameMessage(game_message) => self.update_game(game_message),
            Message::PlayPressed => {
                self.view = Screen::Setup(Setup::new());
                Command::LoadDeck
            },
            Message::Quit => Command::Exit,
        }
    }

    /// Hands an event to the setup screen, if it is up.
    pub fn update_setup(&mut self, message: setup::Message) -> (command: Command)
        ensures
            old(self).state().follows(Message::SetupMessage(message), final(self).state(), command),
    {
        if let Screen::Setup(setup) = &mut self.view {
            match setup.update(message) {
                setup::Action::Wait => {},
                setup::Action::Error(error) => {
                    let error_screen = ErrorScreen { display_message: error.message() };
                    self.view = Screen::Error(error_screen);
                },
                setup::Action::StartGame { user_pile, computer_pile } => {
                    self.view = Screen::Game(Game::new(user_pile, computer_pile));
                },
            }
        }
        Command::Wait
    }

    /// The words that tell how a game ended.
    pub fn result_text(winner: Player) -> (text: String)
        ensures
            text@ == ShellState::result_text(winner),
    {
        let mut text = String::from_str("Game over, ");
        text.append(winner.name());
        text.append(" won");
        text
    }

    /// Hands an event to the game, if one is up. The message that ends the
    /// game takes it down and puts up the screen that names the winner.
    pub fn update_game(&mut self, message: game::Message) -> (command: Command)
        requires
            old(self).state().accepts(Message::GameMessage(message)),
        ensures
            old(self).state().follows(Message::GameMessage(message), final(self).state(), command),
    {
        if let Screen::Game(game) = &mut self.view {
            if game.overall_winner().is_none() {
                return match game.update(message) {
                    game::Action::Wait => Command::Wait,
                    game::Action::ComputerChoice => Command::ComputerChoice,
                    game::Action::GameOver { winner } => {
                        self.view = Screen::GameOver(GameOverScreen { winner });
                        Command::GameOver { winner }
                    },
                };
            }
        }
        Command::Wait
    }
}

/// A game is up only while it goes on. The message that ends a game takes it
/// down: the command names the winner, and the screen that follows is the one
/// that names the winner too. After any other message the game is still up,
/// and both sides hold a card.
pub proof fn lemma_finished_game_is_taken_down(
    game: GameState,
    message: game::Message,
    next: ShellState,
    command: Command,
)
    requires
        game.overall_winner() is None,
        game.accepts(message),
        ShellState::Game(game).follows(Message::GameMessage(message), next, command),
    ensures
        command matches Command::GameOver { winner } ==> next == ShellState::GameOver(winner),
        command is GameOver <==> !(next is Game),
        command is GameOver <==> !game.step(message).in_progress(),
        next matches ShellState::Game(after) ==> after == game.step(message)
            && after.in_progress(),
{
}

/// The setup screen gives way to a game only where both sides hold a card.
pub proof fn lemma_started_game_is_in_progress(
    setup: SetupState,
    message: setup::Message,
    next: ShellState,
)
    requires
        setup.gives_way(message, next),
    ensures
        next matches ShellState::Game(game) ==> game.in_progress() && game.overall_winner() is None
            && game.winner is None && game.chooser() == Player::User,
        next is Game <==> message is StartPressed && setup.deal_size() is Some,
{
}

} // verus!
