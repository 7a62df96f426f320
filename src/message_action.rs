//! The closed set of actions carried by a protocol message.

use vstd::prelude::*;

verus! {

/// Every action that a message between client and server can carry.
#[derive(Clone, Copy, Debug, PartialEq, Eq, Structural)]
pub enum MessageAction {
    SendPlayerCard,
    SendBankCard,
    Hit,
    Stand,
    DoubleDown,
    Continue,
    SendBankCards,
    Restart,
    Split,
    NoSplit,
}

} // verus!
