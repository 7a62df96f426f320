//! Basic-strategy advice for the player's first two cards against the bank's up-card.

use vstd::prelude::*;

use crate::deck::{card_rank, rank_of};
use crate::message_action::MessageAction;
use crate::points::{card_points, ACE_CARDS_START_INDEX, TEN_POINTS_CARDS_START_INDEX};

verus! {

/// Points of a card for the advice: 10 for a ten-valued card, 11 for an ace,
/// `rank / 4 + 2` for a number card.
pub open spec fn advice_value(card: u16) -> int {
    card_points(rank_of(card) as int, 0)
}

/// A pair of cards worth `v` each is split against a bank card worth `bank`.
pub open spec fn splits_pair(v: int, bank: int) -> bool {
    ||| v == 11
    ||| v == 8
    ||| v == 9 && bank != 7 && bank != 10 && bank != 11
    ||| v == 7 && bank <= 7
    ||| v == 6 && bank <= 6 && bank != 2
    ||| (v == 3 || v == 2) && 4 <= bank <= 7
}

/// A pair of cards worth `v` each is doubled against a bank card worth `bank`.
pub open spec fn doubles_pair(v: int, bank: int) -> bool {
    ||| v == 6 && bank == 2
    ||| v == 4 && (bank == 5 || bank == 6)
    ||| (v == 3 || v == 2) && bank < 4
}

/// A hand of `total` points that is not played as a pair stands against `bank`.
pub open spec fn stands_on(total: int, bank: int) -> bool {
    ||| total >= 17
    ||| 13 <= total <= 16 && bank <= 6
    ||| total == 12 && 4 <= bank <= 6
}

/// A hand of `total` points that is not played as a pair hits against `bank`.
pub open spec fn hits_on(total: int, bank: int) -> bool {
    ||| 13 <= total <= 16 && bank >= 7
    ||| total == 12 && (bank <= 3 || bank >= 7)
    ||| total == 10 && bank >= 10
    ||| total == 9 && (bank == 2 || bank >= 7)
}

/// A hand of `total` points that is not played as a pair doubles against `bank`.
pub open spec fn doubles_on(total: int, bank: int) -> bool {
    ||| total == 11
    ||| total == 10 && bank <= 9
    ||| total == 9 && 3 <= bank <= 6
}

/// The advised action for two cards worth `first` and `second` against a bank
/// card worth `bank`: pair rules first, then stand, hit and double by total,
/// and stand when no rule applies.
pub open spec fn basic_strategy(first: int, second: int, bank: int) -> MessageAction {
    let total = first + second;
    if first == second && splits_pair(first, bank) {
        MessageAction::Split
    } else if first == second && doubles_pair(first, bank) {
        MessageAction::DoubleDown
    } else if stands_on(total, bank) {
        MessageAction::Stand
    } else if hits_on(total, bank) {
        MessageAction::Hit
    } else if doubles_on(total, bank) {
        MessageAction::DoubleDown
    } else {
        MessageAction::Stand
    }
}

/// Returns the points of the card `card_index` for the advice, an ace counting 11.
pub fn get_card_points(card_index: u16) -> (r: u8)
    ensures
        r as int == advice_value(card_index),
        2 <= r <= 11,
{
    let rank = card_rank(card_index);
    if rank >= TEN_POINTS_CARDS_START_INDEX && rank < ACE_CARDS_START_INDEX {
        10
    } else if rank >= ACE_CARDS_START_INDEX {
        11
    } else {
        rank / 4 + 2
    }
}

/// Returns the basic-strategy action for the player's first two cards against
/// the bank's first card.
pub fn get_strategic_action(player_cards: &Vec<u16>, bank_cards: &Vec<u16>) -> (r: MessageAction)
    requires
        player_cards@.len() >= 2,
        bank_cards@.len() >= 1,
    ensures
        r == basic_strategy(
            advice_value(player_cards@[0]),
            advice_value(player_cards@[1]),
            advice_value(bank_cards@[0]),
        ),
{
    let first = get_card_points(player_cards[0]);
    let second = get_card_points(player_cards[1]);
    let bank = get_card_points(bank_cards[0]);
    let total = first + second;

    if first == second {
        if first == 11 || first == 8 || first == 9 && bank != 7 && bank != 10 && bank != 11
            || first == 7 && bank <= 7 || first == 6 && bank <= 6 && bank != 2
            || (first == 3 || first == 2) && 4 <= bank && bank <= 7
        {
            return MessageAction::Split;
        }
        if first == 6 && bank == 2 || first == 4 && (bank == 5 || bank == 6)
            || (first == 3 || first == 2) && bank < 4
        {
            return MessageAction::DoubleDown;
        }
    }

    if total >= 17 || 13 <= total && total <= 16 && bank <= 6
        || total == 12 && 4 <= bank && bank <= 6
    {
        MessageAction::Stand
    } else if 13 <= total && total <= 16 && bank >= 7
        || total == 12 && (bank <= 3 || bank >= 7)
        || total == 10 && bank >= 10
        || total == 9 && (bank == 2 || bank >= 7)
    {
        MessageAction::Hit
    } else if total == 11 || total == 10 && bank <= 9 || total == 9 && 3 <= bank && bank <= 6 {
        MessageAction::DoubleDown
    } else {
        MessageAction::Stand
    }
}

} // verus!
