//! Hand valuation: the points a card adds to a hand, with the sequential ace rule.

use vstd::prelude::*;

verus! {

/// First rank worth ten points (10, jack, queen, king).
pub const TEN_POINTS_CARDS_START_INDEX: u8 = 32;
/// First ace rank.
pub const ACE_CARDS_START_INDEX: u8 = 48;
/// An ace counts 1 once the hand already holds this many points.
pub const ACE_LOW_THRESHOLD: u8 = 11;

/// Points that a card of rank `rank` adds to a hand that holds `so_far` points:
/// ten for a ten-valued card, 11 or 1 for an ace depending on the points
/// already held, and `rank / 4 + 2` for a number card.
pub open spec fn card_points(rank: int, so_far: int) -> int {
    if 32 <= rank < 48 {
        10
    } else if rank >= 48 {
        if so_far >= 11 { 1 } else { 11 }
    } else {
        rank / 4 + 2
    }
}

/// Total of a hand whose cards were dealt in the order of `ranks`: each card is
/// valued against the total of the cards dealt before it, and an ace is never
/// valued again.
pub open spec fn hand_total(ranks: Seq<u8>) -> int
    decreases ranks.len(),
{
    if ranks.len() == 0 {
        0
    } else {
        let before = hand_total(ranks.drop_last());
        before + card_points(ranks.last() as int, before)
    }
}

/// Returns the points that the card of rank `card_index` adds to a hand that
/// already holds `player_handpoints` points.
pub fn get_card_points(card_index: u8, player_handpoints: u8) -> (r: u8)
    ensures
        r as int == card_points(card_index as int, player_handpoints as int),
        1 <= r <= 11,
{
    if card_index >= TEN_POINTS_CARDS_START_INDEX && card_index < ACE_CARDS_START_INDEX {
        10
    } else if card_index >= ACE_CARDS_START_INDEX {
        if player_handpoints >= ACE_LOW_THRESHOLD {
            1
        } else {
            11
        }
    } else {
        card_index / 4 + 2
    }
}

/// Dealing one more card adds its value, taken against the total before it.
pub proof fn lemma_hand_total_push(ranks: Seq<u8>, r: u8)
    ensures
        hand_total(ranks.push(r)) == hand_total(ranks) + card_points(r as int, hand_total(ranks)),
{
    assert(ranks.push(r).drop_last() =~= ranks);
}

/// Two aces dealt in a row total 12: the first counts 11 and the second, dealt
/// to a hand of 11 points, counts 1.
pub proof fn lemma_two_aces_total_twelve(first: u8, second: u8)
    requires
        48 <= first < 52,
        48 <= second < 52,
    ensures
        hand_total(seq![first, second]) == 12,
{
    lemma_hand_total_push(Seq::empty(), first);
    assert(seq![first, second] =~= seq![first].push(second));
    assert(Seq::<u8>::empty().push(first) =~= seq![first]);
    lemma_hand_total_push(seq![first], second);
}

} // verus!
