//! The game as the player meets it: a line being typed, the shop open or
//! closed, and what each key does. The program around it draws, saves and
//! leaves as the reactions say.
use vstd::prelude::*;
use vstd::string::StringExecFns;
use crate::catalog::{new_clicker_items, new_items, starting_clicker_items, starting_items};
use crate::command::{command_of, command_text, number_of, selection_of};
use crate::command::{normalize, parse_number, read_command, select, Command, Selection};
use crate::listing::{inventory_text, shop_text};
use crate::text::{decimal_text, padded_text, push_char, push_decimal, push_padded};
use crate::userstate::{clicked, clicker_item_outcome, elapsed, fresh, item_outcome};
use crate::userstate::{total_items, tried_clicker_item, tried_item};
use crate::userstate::{Purchase, UserState, UserStateView};

verus! {

/// A key that the game tells apart.
#[derive(Clone, Copy, Debug, PartialEq, Eq, Structural)]
pub enum Key {
    /// Save and leave.
    Escape,
    /// Take the line as it stands.
    Return,
    /// Take back the last character typed.
    Back,
    /// Any other key.
    Other,
}

/// What the program around the game is to do after a key.
pub struct Reaction {
    /// Save the game.
    pub save: bool,
    /// Leave, after saving where that is asked too.
    pub quit: bool,
    /// Tell the player this, after saving where that is asked too.
    pub message: Option<String>,
}

/// A [`Reaction`] as plain values.
pub struct ReactionView {
    pub save: bool,
    pub quit: bool,
    pub message: Option<Seq<char>>,
}

impl View for Reaction {
    type V = ReactionView;

    open spec fn view(&self) -> ReactionView {
        ReactionView {
            save: self.save,
            quit: self.quit,
            message: match self.message {
                Some(m) => Some(m@),
                None => None,
            },
        }
    }
}

/// What a [`GameState`] holds, as plain values.
pub struct GameStateView {
    /// The player's state.
    pub user: UserStateView,
    /// The line typed so far.
    pub input: Seq<char>,
    /// The shop is open and the line will be read as the number of an item.
    pub shop_mode: bool,
}

/// The game and the line being typed.
pub struct GameState {
    user: UserState,
    input: Vec<char>,
    shop_mode: bool,
}

impl View for GameState {
    type V = GameStateView;

    closed spec fn view(&self) -> GameStateView {
        GameStateView { user: self.user@, input: self.input@, shop_mode: self.shop_mode }
    }
}

/// A control character: one that a key press yields without a character to
/// show.
pub open spec fn is_control(c: char) -> bool {
    c as u32 <= 0x1f || 0x7f <= c as u32 <= 0x9f
}

/// What the player is told after an attempt to buy the item of this name.
pub open spec fn purchase_message(outcome: Purchase, name: Seq<char>) -> Seq<char> {
    match outcome {
        Purchase::Purchased => "Purchased "@ + name,
        Purchase::NotEnoughSpice => "Not enough spice to purchase "@ + name,
        Purchase::NoSuchItem => "Invalid item number"@,
    }
}

/// The player's state after the line was taken as the number of an item.
pub open spec fn user_after_choice(user: UserStateView, line: Seq<char>) -> UserStateView {
    match number_of(command_text(line)) {
        None => user,
        Some(n) => match selection_of(n, user.items.len(), total_items(user)) {
            Selection::Invalid => user,
            Selection::Item(i) => tried_item(user, i as int),
            Selection::ClickerItem(i) => tried_clicker_item(user, i as int),
        },
    }
}

/// What the player is told after the line was taken as the number of an
/// item.
pub open spec fn message_after_choice(user: UserStateView, line: Seq<char>) -> Seq<char> {
    match number_of(command_text(line)) {
        None => "Exited shop."@,
        Some(n) => match selection_of(n, user.items.len(), total_items(user)) {
            Selection::Invalid => "Invalid item number"@,
            Selection::Item(i) => purchase_message(
                item_outcome(user, i as int),
                user.items[i as int].name,
            ),
            Selection::ClickerItem(i) => purchase_message(
                clicker_item_outcome(user, i as int),
                user.clicker_items[i as int].name,
            ),
        },
    }
}

/// The game after a key.
pub open spec fn after_key(s: GameStateView, key: Key) -> GameStateView {
    match key {
        Key::Escape | Key::Other => s,
        Key::Back => GameStateView {
            input: if s.input.len() > 0 {
                s.input.drop_last()
            } else {
                s.input
            },
            ..s
        },
        Key::Return => if s.shop_mode {
            GameStateView {
                user: user_after_choice(s.user, s.input),
                input: Seq::empty(),
                shop_mode: false,
            }
        } else {
            GameStateView {
                user: if command_of(s.input) == Command::Click {
                    clicked(s.user)
                } else {
                    s.user
                },
                input: Seq::empty(),
                shop_mode: command_of(s.input) == Command::Shop,
            }
        },
    }
}

/// What the program around the game is to do after a key.
pub open spec fn reaction_to(s: GameStateView, key: Key) -> ReactionView {
    match key {
        Key::Escape => ReactionView {
            save: true,
            quit: true,
            message: Some("Game saved. Exiting..."@),
        },
        Key::Back | Key::Other => ReactionView { save: false, quit: false, message: None },
        Key::Return => if s.shop_mode {
            ReactionView {
                save: false,
                quit: false,
                message: Some(message_after_choice(s.user, s.input)),
            }
        } else {
            match command_of(s.input) {
                Command::Save => ReactionView {
                    save: true,
                    quit: false,
                    message: Some("Game saved."@),
                },
                Command::Exit => ReactionView { save: true, quit: true, message: None },
                Command::Unknown => ReactionView {
                    save: false,
                    quit: false,
                    message: Some("Unknown command"@),
                },
                _ => ReactionView { save: false, quit: false, message: None },
            }
        },
    }
}

/// The game as it starts: what was saved, brought up to `now` by the time
/// gone since it was last updated, or a new game where nothing was saved.
pub open spec fn started(saved: Option<UserStateView>, now: nat) -> UserStateView {
    match saved {
        Some(user) => UserStateView {
            time_last_updated: now,
            ..elapsed(user, now - user.time_last_updated)
        },
        None => fresh(starting_items(), starting_clicker_items(), now),
    }
}

/// An amount with two decimal places, the nearest such number, a half going
/// to the even one.
pub open spec fn shown_hundredths(units: nat) -> nat {
    let whole = units / 1_000_000_000;
    let rest = units % 1_000_000_000;
    if rest > 500_000_000 || (rest == 500_000_000 && whole % 2 == 1) {
        whole + 1
    } else {
        whole
    }
}

/// A count of hundredths as a number with two decimal places.
pub open spec fn hundredths_text(hundredths: nat) -> Seq<char> {
    decimal_text(hundredths / 100).push('.') + padded_text(hundredths % 100, 2)
}

/// The lines on top of the screen: the spice, the rate and the worth of a
/// click, each with two decimal places.
pub open spec fn status_text(user: UserStateView) -> Seq<char> {
    "Spice: "@ + hundredths_text(shown_hundredths(user.spice)) + "\nSpice per second: "@
        + hundredths_text(user.sps) + "\nSpice per click: "@ + hundredths_text(
        shown_hundredths(user.spc),
    )
}

/// The middle of the screen: the shop where it is open, else the inventory.
pub open spec fn body_text(s: GameStateView) -> Seq<char> {
    if s.shop_mode {
        shop_text(s.user)
    } else {
        inventory_text(s.user)
    }
}

/// The bottom line of the screen: what is asked for, and the line typed so
/// far.
pub open spec fn prompt_text(s: GameStateView) -> Seq<char> {
    if s.shop_mode {
        "Purchase Item Number: "@ + s.input
    } else {
        "Enter Command: "@ + s.input
    }
}

/// Tells whether `c` is a control character.
pub fn control(c: char) -> (b: bool)
    ensures
        b == is_control(c),
{
    let n: u32 = c as u32;
    n <= 0x1f || (0x7f <= n && n <= 0x9f)
}

/// Appends a count of hundredths as a number with two decimal places.
pub fn push_hundredths(out: &mut String, hundredths: u128)
    ensures
        final(out)@ == old(out)@ + hundredths_text(hundredths as nat),
{
    push_decimal(out, hundredths / 100);
    push_char(out, '.');
    push_padded(out, (hundredths % 100) as u64, 2);
}

/// Rounds an amount to hundredths of a spice, a half going to the even one.
pub fn to_shown_hundredths(units: u128) -> (hundredths: u128)
    ensures
        hundredths == shown_hundredths(units as nat),
{
    let whole: u128 = units / 1_000_000_000;
    let rest: u128 = units % 1_000_000_000;
    if rest > 500_000_000 || (rest == 500_000_000 && whole % 2 == 1) {
        whole + 1
    } else {
        whole
    }
}

/// Makes the message after an attempt to buy the item of this name.
pub fn message_for(outcome: Purchase, name: &str) -> (message: String)
    ensures
        message@ == purchase_message(outcome, name@),
{
    match outcome {
        Purchase::Purchased => String::from_str("Purchased ").concat(name),
        Purchase::NotEnoughSpice => String::from_str("Not enough spice to purchase ").concat(
            name,
        ),
        Purchase::NoSuchItem => String::from_str("Invalid item number"),
    }
}

impl GameState {
    /// The game around a player's state as it stands, the line empty and
    /// the shop shut.
    pub fn with_user(user: UserState) -> (game: GameState)
        ensures
            game@ == (GameStateView { user: user@, input: Seq::empty(), shop_mode: false }),
    {
        GameState { user, input: Vec::new(), shop_mode: false }
    }

    /// Starts the game at the moment `now`: with what was saved, brought up
    /// to date by the time gone since, or with a new game where nothing was
    /// saved.
    pub fn new(saved: Option<UserState>, now: u64) -> (game: GameState)
        ensures
            game@ == (GameStateView {
                user: started(
                    match saved {
                        Some(user) => Some(user@),
                        None => None,
                    },
                    now as nat,
                ),
                input: Seq::empty(),
                shop_mode: false,
            }),
    {
        let user = match saved {
            Some(state) => {
                let mut state = state;
                let dt: i128 = now as i128 - state.get_time_last_updated() as i128;
                state.update_spice(dt);
                state.set_time_last_updated(now);
                state
            },
            None => UserState::new_at(new_items(), new_clicker_items(), now),
        };
        GameState::with_user(user)
    }

    /// The player's state.
    pub fn user(&self) -> (user: &UserState)
        ensures
            user@ == self@.user,
    {
        &self.user
    }

    /// Tells whether the shop is open.
    pub fn shop_mode(&self) -> (open: bool)
        ensures
            open == self@.shop_mode,
    {
        self.shop_mode
    }

    /// Notes `now` as the moment of the last update, as is done before the
    /// game is saved.
    pub fn stamp(&mut self, now: u64)
        ensures
            final(self)@ == (GameStateView {
                user: UserStateView { time_last_updated: now as nat, ..old(self)@.user },
                ..old(self)@
            }),
    {
        self.user.set_time_last_updated(now);
    }

    /// Lets `dt` nanoseconds pass.
    pub fn update(&mut self, dt: i128)
        ensures
            final(self)@ == (GameStateView { user: elapsed(old(self)@.user, dt as int), ..old(self)@ }),
    {
        self.user.update_spice(dt);
    }

    /// A press of the mouse button: gathers what one click yields.
    pub fn mouse_button_down_event(&mut self)
        ensures
            final(self)@ == (GameStateView { user: clicked(old(self)@.user), ..old(self)@ }),
    {
        self.user.update_spice_by_click();
    }

    /// A character typed: it joins the line unless it is a control
    /// character.
    pub fn text_input_event(&mut self, character: char)
        ensures
            final(self)@ == (GameStateView {
                input: if is_control(character) {
                    old(self)@.input
                } else {
                    old(self)@.input.push(character)
                },
                ..old(self)@
            }),
    {
        if !control(character) {
            self.input.push(character);
        }
    }

    /// Takes the line as the number of an item of the shop and tries to buy
    /// that item.
    fn buy_chosen(&mut self) -> (message: String)
        ensures
            final(self)@ == (GameStateView {
                user: user_after_choice(old(self)@.user, old(self)@.input),
                ..old(self)@
            }),
            message@ == message_after_choice(old(self)@.user, old(self)@.input),
    {
        let text = normalize(&self.input);
        match parse_number(&text) {
            None => String::from_str("Exited shop."),
            Some(number) => {
                let total = self.user.total_num_items();
                match select(number, self.user.num_items(), total) {
                    Selection::Invalid => String::from_str("Invalid item number"),
                    Selection::Item(i) => {
                        let name = match self.user.item(i) {
                            Some(item) => String::from_str(item.get_name()),
                            None => String::new(),
                        };
                        let outcome = self.user.buy_item(i);
                        message_for(outcome, name.as_str())
                    },
                    Selection::ClickerItem(i) => {
                        let name = match self.user.clicker_item(i) {
                            Some(item) => String::from_str(item.get_name()),
                            None => String::new(),
                        };
                        let outcome = self.user.buy_clicker_item(i);
                        message_for(outcome, name.as_str())
                    },
                }
            },
        }
    }

    /// A key pressed.
    pub fn key_down_event(&mut self, key: Key) -> (reaction: Reaction)
        ensures
            final(self)@ == after_key(old(self)@, key),
            reaction@ == reaction_to(old(self)@, key),
    {
        match key {
            Key::Escape => Reaction {
                save: true,
                quit: true,
                message: Some(String::from_str("Game saved. Exiting...")),
            },
            Key::Back => {
                self.input.pop();
                Reaction { save: false, quit: false, message: None }
            },
            Key::Other => Reaction { save: false, quit: false, message: None },
            Key::Return => {
                let reaction = if self.shop_mode {
                    let message = self.buy_chosen();
                    self.shop_mode = false;
                    Reaction { save: false, quit: false, message: Some(message) }
                } else {
                    match read_command(&self.input) {
                        Command::Click => {
                            self.user.update_spice_by_click();
                            Reaction { save: false, quit: false, message: None }
                        },
                        Command::Inventory => Reaction { save: false, quit: false, message: None },
                        Command::Shop => {
                            self.shop_mode = true;
                            Reaction { save: false, quit: false, message: None }
                        },
                        Command::Save => Reaction {
                            save: true,
                            quit: false,
                            message: Some(String::from_str("Game saved.")),
                        },
                        Command::Exit => Reaction { save: true, quit: true, message: None },
                        Command::Unknown => Reaction {
                            save: false,
                            quit: false,
                            message: Some(String::from_str("Unknown command")),
                        },
                    }
                };
                self.input.clear();
                reaction
            },
        }
    }

    /// The lines on top of the screen.
    pub fn status(&self) -> (text: String)
        ensures
            text@ == status_text(self@.user),
    {
        let mut text = String::from_str("Spice: ");
        push_hundredths(&mut text, to_shown_hundredths(self.user.get_spice()));
        text.append("\nSpice per second: ");
        push_hundredths(&mut text, self.user.get_sps());
        text.append("\nSpice per click: ");
        push_hundredths(&mut text, to_shown_hundredths(self.user.get_spc()));
        text
    }

    /// The middle of the screen.
    pub fn body(&self) -> (text: String)
        ensures
            text@ == body_text(self@),
    {
        if self.shop_mode {
            self.user.list_shop()
        } else {
            self.user.list_inventory()
        }
    }

    /// The bottom line of the screen.
    pub fn prompt(&self) -> (text: String)
        ensures
            text@ == prompt_text(self@),
    {
        let mut text = if self.shop_mode {
            String::from_str("Purchase Item Number: ")
        } else {
            String::from_str("Enter Command: ")
        };
        let ghost head = text@;
        let mut i: usize = 0;
        while i < self.input.len()
            invariant
                i <= self.input.len(),
                text@ == head + self.input@.take(i as int),
            decreases self.input.len() - i,
        {
            push_char(&mut text, self.input[i]);
            proof {
                assert(self.input@.take(i + 1) =~= self.input@.take(i as int).push(
                    self.input@[i as int],
                ));
            }
            i = i + 1;
        }
        proof {
            assert(self.input@.take(i as int) =~= self.input@);
        }
        text
    }
}

} // verus!
