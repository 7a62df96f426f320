//! The fixed-shape envelope exchanged over the connection.

use vstd::prelude::*;

use crate::message_action::MessageAction;

verus! {

/// One protocol message. Fields that an action does not use are zero or empty.
#[derive(Debug)]
pub struct SocketMessage {
    pub action: MessageAction,
    pub card_index: u16,
    pub cards_amount: u16,
    pub text: String,
    pub player_handpoints: u8,
    pub bank_cards: Vec<u16>,
}

impl SocketMessage {
    /// A message that only carries `action`: every other field is zero or empty.
    pub open spec fn is_bare(self, action: MessageAction) -> bool {
        &&& self.action == action
        &&& self.card_index == 0
        &&& self.cards_amount == 0
        &&& self.text@.len() == 0
        &&& self.player_handpoints == 0
        &&& self.bank_cards@.len() == 0
    }

    /// Builds a request that carries `action` alone.
    pub fn request(action: MessageAction) -> (r: SocketMessage)
        ensures
            r.is_bare(action),
    {
        SocketMessage {
            action,
            card_index: 0,
            cards_amount: 0,
            text: String::new(),
            player_handpoints: 0,
            bank_cards: Vec::new(),
        }
    }
}

} // verus!
