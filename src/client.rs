//! The client's mirror of the table: both hands and totals as the server
//! announced them, the reveal cursor over the bank's cards, the advised action
//! and the player's last one.

use vstd::prelude::*;

use crate::message_action::MessageAction;
use crate::socket_message::SocketMessage;
use crate::strategy::{advice_value, basic_strategy, get_strategic_action};

verus! {

/// The bank stops drawing at this many points.
pub const BANK_MAX_HAND_POINTS: u8 = 17;
/// A hand over this many points is burst.
pub const PLAYER_MAX_HAND_POINTS: u8 = 21;
/// A double down is only offered on this many cards.
pub const REQUIRED_CARDS_AMOUNT_FOR_DOUBLE: usize = 2;
/// Bank cards shown once its full hand arrives, before the others are revealed.
pub const DISPLAYED_BANK_CARDS_AMOUNT_AFTER_DRAWING: usize = 2;
/// Bank cards shown at the start of a round.
pub const DEFAULT_DISPLAYED_BANK_CARDS_AMOUNT: usize = 1;

/// A request of the player, read from the keyboard.
#[derive(Clone, Copy, Debug, PartialEq, Eq, Structural)]
pub enum PlayerInput {
    Hit,
    DoubleDown,
    Stand,
    Split,
}

/// The status line shown to the player.
#[derive(Clone, Copy, Debug, PartialEq, Eq, Structural)]
pub enum Information {
    DealerPlaying,
    Burst,
    BankWins,
    Push,
    PlayerWins,
    Continue,
    HitStand,
    HitStandDouble,
}

/// The status line, by priority: the bank's cards are still being revealed;
/// the player is burst; the bank wins; a push; the player wins; the player
/// holds 21; otherwise the prompt, with double down offered on two cards.
pub open spec fn information_for(
    player_points: int,
    bank_points: int,
    player_cards_amount: int,
    bank_cards_amount: int,
    displayed_bank_cards_amount: int,
) -> Information {
    if displayed_bank_cards_amount != bank_cards_amount {
        Information::DealerPlaying
    } else if player_points > 21 {
        Information::Burst
    } else if 17 <= bank_points <= 21 && player_points < bank_points {
        Information::BankWins
    } else if 17 <= bank_points <= 21 && player_points == bank_points {
        Information::Push
    } else if bank_points >= 17 && player_points > bank_points || bank_points > 21 && player_points
        <= 21 {
        Information::PlayerWins
    } else if player_points == 21 {
        Information::Continue
    } else if player_cards_amount != 2 {
        Information::HitStand
    } else {
        Information::HitStandDouble
    }
}

/// Returns the status line for the given totals and card counts.
pub fn information_message(
    player_points: u8,
    bank_points: u8,
    player_cards_amount: usize,
    bank_cards_amount: usize,
    displayed_bank_cards_amount: usize,
) -> (r: Information)
    ensures
        r == information_for(
            player_points as int,
            bank_points as int,
            player_cards_amount as int,
            bank_cards_amount as int,
            displayed_bank_cards_amount as int,
        ),
{
    if displayed_bank_cards_amount != bank_cards_amount {
        Information::DealerPlaying
    } else if player_points > PLAYER_MAX_HAND_POINTS {
        Information::Burst
    } else if bank_points >= BANK_MAX_HAND_POINTS && bank_points <= PLAYER_MAX_HAND_POINTS
        && player_points < bank_points {
        Information::BankWins
    } else if bank_points >= BANK_MAX_HAND_POINTS && bank_points <= PLAYER_MAX_HAND_POINTS
        && player_points == bank_points {
        Information::Push
    } else if bank_points >= BANK_MAX_HAND_POINTS && player_points > bank_points
        || bank_points > PLAYER_MAX_HAND_POINTS && player_points <= PLAYER_MAX_HAND_POINTS {
        Information::PlayerWins
    } else if player_points == PLAYER_MAX_HAND_POINTS {
        Information::Continue
    } else if player_cards_amount != REQUIRED_CARDS_AMOUNT_FOR_DOUBLE {
        Information::HitStand
    } else {
        Information::HitStandDouble
    }
}

impl Information {
    /// The words shown for each status.
    pub open spec fn text_spec(self) -> Seq<char> {
        match self {
            Information::DealerPlaying => "Waiting for the dealer to play..."@,
            Information::Burst => "Burst ! Press Enter"@,
            Information::BankWins => "Dealer wins"@,
            Information::Push => "Push"@,
            Information::PlayerWins => "Player wins !"@,
            Information::Continue => "21 ! Enter to CONTINUE"@,
            Information::HitStand => "Enter to HIT, Space to STAND"@,
            Information::HitStandDouble => "Enter to HIT, Space to STAND, D to DOUBLE DOWN"@,
        }
    }

    /// Returns the words shown for this status.
    pub fn text(&self) -> (r: &'static str)
        ensures
            r@ == self.text_spec(),
    {
        match self {
            Information::DealerPlaying => "Waiting for the dealer to play...",
            Information::Burst => "Burst ! Press Enter",
            Information::BankWins => "Dealer wins",
            Information::Push => "Push",
            Information::PlayerWins => "Player wins !",
            Information::Continue => "21 ! Enter to CONTINUE",
            Information::HitStand => "Enter to HIT, Space to STAND",
            Information::HitStandDouble => "Enter to HIT, Space to STAND, D to DOUBLE DOWN",
        }
    }
}

/// What the client knows, as mathematical values.
pub struct ClientState {
    pub player_cards: Seq<u16>,
    pub bank_cards: Seq<u16>,
    pub player_points: u8,
    pub bank_points: u8,
    pub cards_amount: u16,
    pub displayed_bank_cards_amount: usize,
    pub basic_strategy_action: MessageAction,
    pub last_player_action: MessageAction,
}

impl ClientState {
    /// The state after the server's message `data`: a player card is added with
    /// the new total and shoe size; a bank up-card is added with the bank's total
    /// and, once the player holds two cards, renews the advice; the bank's full
    /// hand replaces the old one and the reveal starts again at two cards.
    /// Other actions change nothing.
    pub open spec fn after_message(self, data: SocketMessage) -> ClientState {
        match data.action {
            MessageAction::SendPlayerCard => ClientState {
                player_cards: self.player_cards.push(data.card_index),
                cards_amount: data.cards_amount,
                player_points: data.player_handpoints,
                ..self
            },
            MessageAction::SendBankCard => {
                let bank_cards = self.bank_cards.push(data.card_index);
                ClientState {
                    bank_cards,
                    bank_points: data.player_handpoints,
                    basic_strategy_action: if self.player_cards.len() >= 2 {
                        basic_strategy(
                            advice_value(self.player_cards[0]),
                            advice_value(self.player_cards[1]),
                            advice_value(bank_cards[0]),
                        )
                    } else {
                        self.basic_strategy_action
                    },
                    ..self
                }
            },
            MessageAction::SendBankCards => ClientState {
                bank_cards: data.bank_cards@,
                bank_points: data.player_handpoints,
                displayed_bank_cards_amount: 2,
                ..self
            },
            _ => self,
        }
    }

    /// The action actually sent when the player asks for a card with `action`:
    /// a new round once the bank has played, a continue at 21 points or more.
    pub open spec fn card_request_action(self, action: MessageAction) -> MessageAction {
        if self.bank_points >= 17 {
            MessageAction::Restart
        } else if self.player_points >= 21 {
            MessageAction::Continue
        } else {
            action
        }
    }

    /// The state after asking for a card: once the bank has played, both hands
    /// are cleared and the reveal cursor goes back to one card.
    pub open spec fn after_card_request(self) -> ClientState {
        if self.bank_points >= 17 {
            ClientState {
                player_cards: Seq::empty(),
                bank_cards: Seq::empty(),
                displayed_bank_cards_amount: 1,
                ..self
            }
        } else {
            self
        }
    }

    /// A stand is only sent while the bank has not played and the player is not burst.
    pub open spec fn may_stand(self) -> bool {
        self.bank_points < 17 && self.player_points <= 21
    }

    /// One more of the bank's cards can be revealed.
    pub open spec fn may_reveal(self) -> bool {
        self.displayed_bank_cards_amount < self.bank_cards.len() && self.bank_cards.len() != 1
    }
}

/// The client's session state.
pub struct Client {
    pub player_cards: Vec<u16>,
    pub bank_cards: Vec<u16>,
    pub player_points: u8,
    pub bank_points: u8,
    pub cards_amount: u16,
    pub displayed_bank_cards_amount: usize,
    pub basic_strategy_action: MessageAction,
    pub last_player_action: MessageAction,
}

impl View for Client {
    type V = ClientState;

    open spec fn view(&self) -> ClientState {
        ClientState {
            player_cards: self.player_cards@,
            bank_cards: self.bank_cards@,
            player_points: self.player_points,
            bank_points: self.bank_points,
            cards_amount: self.cards_amount,
            displayed_bank_cards_amount: self.displayed_bank_cards_amount,
            basic_strategy_action: self.basic_strategy_action,
            last_player_action: self.last_player_action,
        }
    }
}

impl Client {
    /// A client before any card: empty hands, one bank card to show, hit advised
    /// and a restart as the last action.
    pub fn new() -> (r: Client)
        ensures
            r@ == (ClientState {
                player_cards: Seq::empty(),
                bank_cards: Seq::empty(),
                player_points: 0,
                bank_points: 0,
                cards_amount: 0,
                displayed_bank_cards_amount: 1,
                basic_strategy_action: MessageAction::Hit,
                last_player_action: MessageAction::Restart,
            }),
    {
        Client {
            player_cards: Vec::new(),
            bank_cards: Vec::new(),
            player_points: 0,
            bank_points: 0,
            cards_amount: 0,
            displayed_bank_cards_amount: DEFAULT_DISPLAYED_BANK_CARDS_AMOUNT,
            basic_strategy_action: MessageAction::Hit,
            last_player_action: MessageAction::Restart,
        }
    }

    /// Takes in one message from the server.
    pub fn on_message(&mut self, data: SocketMessage)
        ensures
            final(self)@ == old(self)@.after_message(data),
    {
        match data.action {
            MessageAction::SendPlayerCard => {
                self.player_cards.push(data.card_index);
                self.cards_amount = data.cards_amount;
                self.player_points = data.player_handpoints;
            },
            MessageAction::SendBankCard => {
                self.bank_cards.push(data.card_index);
                self.bank_points = data.player_handpoints;
                if self.player_cards.len() >= 2 {
                    self.basic_strategy_action = get_strategic_action(
                        &self.player_cards,
                        &self.bank_cards,
                    );
                }
            },
            MessageAction::SendBankCards => {
                self.bank_cards = data.bank_cards;
                self.bank_points = data.player_handpoints;
                self.displayed_bank_cards_amount = DISPLAYED_BANK_CARDS_AMOUNT_AFTER_DRAWING;
            },
            _ => {},
        }
    }

    /// Asks the server for a card with `message_action`; once the bank has
    /// played this starts a new round instead, and at 21 points or more it
    /// lets the bank play.
    pub fn request_card(&mut self, message_action: MessageAction) -> (r: SocketMessage)
        ensures
            r.is_bare(old(self)@.card_request_action(message_action)),
            final(self)@ == old(self)@.after_card_request(),
    {
        let mut action = message_action;
        if self.bank_points >= BANK_MAX_HAND_POINTS {
            self.displayed_bank_cards_amount = DEFAULT_DISPLAYED_BANK_CARDS_AMOUNT;
            self.player_cards.clear();
            self.bank_cards.clear();
            action = MessageAction::Restart;
        } else if self.player_points >= PLAYER_MAX_HAND_POINTS {
            action = MessageAction::Continue;
        }
        SocketMessage::request(action)
    }

    /// Handles one request of the player and returns the message to send, if
    /// any. A hit always goes out; a double down only on two cards; a stand only
    /// while the bank has not played and the player is not burst; a split is only
    /// recorded as the player's action. An action that goes out, and a split,
    /// become the last action.
    pub fn on_input(&mut self, input: PlayerInput) -> (r: Option<SocketMessage>)
        ensures
            match input {
                PlayerInput::Hit => r is Some && r.unwrap().is_bare(
                    old(self)@.card_request_action(MessageAction::Hit),
                ) && final(self)@ == (ClientState {
                    last_player_action: MessageAction::Hit,
                    ..old(self)@.after_card_request()
                }),
                PlayerInput::DoubleDown => if old(self)@.player_cards.len() == 2 {
                    r is Some && r.unwrap().is_bare(
                        old(self)@.card_request_action(MessageAction::DoubleDown),
                    ) && final(self)@ == (ClientState {
                        last_player_action: MessageAction::DoubleDown,
                        ..old(self)@.after_card_request()
                    })
                } else {
                    r is None && final(self)@ == old(self)@
                },
                PlayerInput::Stand => if old(self)@.may_stand() {
                    r is Some && r.unwrap().is_bare(MessageAction::Stand) && final(self)@ == (
                    ClientState { last_player_action: MessageAction::Stand, ..old(self)@ })
                } else {
                    r is None && final(self)@ == old(self)@
                },
                PlayerInput::Split => r is None && final(self)@ == (ClientState {
                    last_player_action: MessageAction::Split,
                    ..old(self)@
                }),
            },
    {
        match input {
            PlayerInput::Hit => {
                let m = self.request_card(MessageAction::Hit);
                self.last_player_action = MessageAction::Hit;
                Some(m)
            },
            PlayerInput::DoubleDown => {
                if self.player_cards.len() == REQUIRED_CARDS_AMOUNT_FOR_DOUBLE {
                    let m = self.request_card(MessageAction::DoubleDown);
                    self.last_player_action = MessageAction::DoubleDown;
                    Some(m)
                } else {
                    None
                }
            },
            PlayerInput::Stand => {
                if self.bank_points < BANK_MAX_HAND_POINTS && self.player_points
                    <= PLAYER_MAX_HAND_POINTS {
                    self.last_player_action = MessageAction::Stand;
                    Some(SocketMessage::request(MessageAction::Stand))
                } else {
                    None
                }
            },
            PlayerInput::Split => {
                self.last_player_action = MessageAction::Split;
                None
            },
        }
    }

    /// Reveals one more of the bank's cards when one is hidden, the bank holds
    /// more than its up-card, and the reveal interval has passed; returns whether
    /// it did.
    pub fn advance_reveal(&mut self, interval_elapsed: bool) -> (r: bool)
        ensures
            r == (old(self)@.may_reveal() && interval_elapsed),
            r ==> final(self)@ == (ClientState {
                displayed_bank_cards_amount: (old(self)@.displayed_bank_cards_amount + 1) as usize,
                ..old(self)@
            }),
            !r ==> final(self)@ == old(self)@,
    {
        if self.displayed_bank_cards_amount < self.bank_cards.len() && self.bank_cards.len() != 1
            && interval_elapsed {
            self.displayed_bank_cards_amount = self.displayed_bank_cards_amount + 1;
            true
        } else {
            false
        }
    }

    /// The status line for the current table.
    pub fn information(&self) -> (r: Information)
        ensures
            r == information_for(
                self.player_points as int,
                self.bank_points as int,
                self.player_cards@.len() as int,
                self.bank_cards@.len() as int,
                self.displayed_bank_cards_amount as int,
            ),
    {
        information_message(
            self.player_points,
            self.bank_points,
            self.player_cards.len(),
            self.bank_cards.len(),
            self.displayed_bank_cards_amount,
        )
    }

    /// Whether the player's last action is the advised one.
    pub fn strategy_followed(&self) -> (r: bool)
        ensures
            r == (self.basic_strategy_action == self.last_player_action),
    {
        self.basic_strategy_action == self.last_player_action
    }

    /// Whether the player's hand is over 21 points.
    pub fn is_burst(&self) -> (r: bool)
        ensures
            r == (self.player_points > 21),
    {
        self.player_points > PLAYER_MAX_HAND_POINTS
    }

    /// Whether every card of the bank is shown, so that its total can be too.
    pub fn bank_hand_revealed(&self) -> (r: bool)
        ensures
            r == (self.displayed_bank_cards_amount == self.bank_cards@.len()),
    {
        self.displayed_bank_cards_amount == self.bank_cards.len()
    }
}

} // verus!
