//! Blackjack dealing and client session logic: card valuation, the shoe,
//! the dealer's session state machine, the client's mirror of the table and
//! the basic-strategy advice.

pub mod message_action;
pub mod socket_message;
pub mod points;
pub mod deck;
pub mod server;
pub mod strategy;
pub mod client;
