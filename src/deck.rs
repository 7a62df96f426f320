//! The shoe: a shuffled stack of card identifiers, drawn from the top.

use vstd::prelude::*;
use rand::seq::SliceRandom;

verus! {

/// Number of cards in one standard deck; a card's rank is its identifier modulo this.
pub const ONE_SET_CARDS_AMOUNT: u16 = 52;
/// Number of identifiers in a full shoe of eight decks.
pub const SHOE_CARDS_AMOUNT: u16 = 416;

/// Why a card could not be dealt.
#[derive(Clone, Copy, Debug, PartialEq, Eq, Structural)]
pub enum DealError {
    /// The shoe holds no card to draw.
    DeckExhausted,
    /// The hand total would no longer fit in the message's points field.
    HandPointsOverflow,
}

/// The rank (0 to 51) of the card with identifier `id`.
pub open spec fn rank_of(id: u16) -> u8 {
    (id % 52) as u8
}

/// The identifiers `0, 1, ..., n - 1` in order.
pub open spec fn id_range(n: nat) -> Seq<u16> {
    Seq::new(n, |i: int| i as u16)
}

/// Returns the rank of the card with identifier `card`.
pub fn card_rank(card: u16) -> (r: u8)
    ensures
        r == rank_of(card),
        r < 52,
{
    (card % ONE_SET_CARDS_AMOUNT) as u8
}

/// Relies on rand's `SliceRandom::shuffle` with the thread-local generator:
/// it only swaps elements, so the result is a permutation of the input.
#[verifier::external_body]
fn shuffle_cards(cards: &mut Vec<u16>)
    ensures
        final(cards)@.to_multiset() == old(cards)@.to_multiset(),
        final(cards)@.len() == old(cards)@.len(),
{
    cards.as_mut_slice().shuffle(&mut rand::thread_rng());
}

/// An ordered stack of card identifiers; the top of the shoe is the last element.
pub struct Deck {
    cards: Vec<u16>,
}

impl View for Deck {
    type V = Seq<u16>;

    closed spec fn view(&self) -> Seq<u16> {
        self.cards@
    }
}

impl Deck {
    /// Builds the identifiers `0..size` and shuffles them at random.
    pub fn new_shuffled(size: u16) -> (r: Deck)
        ensures
            r@.len() == size,
            r@.to_multiset() == id_range(size as nat).to_multiset(),
            r@.no_duplicates(),
            forall|i: int| 0 <= i < r@.len() ==> #[trigger] r@[i] < size,
    {
        let mut cards: Vec<u16> = Vec::new();
        let mut id: u16 = 0;
        while id < size
            invariant
                id <= size,
                cards@ == id_range(id as nat),
            decreases size - id,
        {
            proof {
                assert(id_range(id as nat).push(id) =~= id_range((id + 1) as nat));
            }
            cards.push(id);
            id = id + 1;
        }
        let ghost before = cards@;
        proof {
            assert(before.no_duplicates());
            before.lemma_multiset_has_no_duplicates();
        }
        shuffle_cards(&mut cards);
        proof {
            lemma_permutation_keeps_ids(before, cards@, size);
        }
        Deck { cards }
    }

    /// A deck holding `cards`, whose last element is drawn first.
    pub fn from_cards(cards: Vec<u16>) -> (r: Deck)
        ensures
            r@ == cards@,
    {
        Deck { cards }
    }

    /// Number of cards left in the shoe.
    pub fn remaining(&self) -> (r: usize)
        ensures
            r == self@.len(),
    {
        self.cards.len()
    }

    /// Removes the top card and returns its rank, or fails when the shoe is empty
    /// (leaving it unchanged).
    pub fn draw_one(&mut self) -> (r: Result<u8, DealError>)
        ensures
            old(self)@.len() == 0 ==> r == Err::<u8, DealError>(DealError::DeckExhausted)
                && final(self)@ == old(self)@,
            old(self)@.len() > 0 ==> r == Ok::<u8, DealError>(rank_of(old(self)@.last()))
                && final(self)@ == old(self)@.drop_last(),
    {
        match self.cards.pop() {
            Some(card) => Ok(card_rank(card)),
            None => Err(DealError::DeckExhausted),
        }
    }
}

/// The shoe left after `n` draws from the shoe `s`.
pub open spec fn after_draws(s: Seq<u16>, n: nat) -> Seq<u16> {
    s.subrange(0, s.len() - n)
}

/// The identifiers handed out by `n` draws from the shoe `s`, in the order drawn.
pub open spec fn drawn_ids(s: Seq<u16>, n: nat) -> Seq<u16> {
    Seq::new(n, |i: int| s[s.len() - 1 - i])
}

/// Drawing conserves the shoe: each draw takes the top of what is left (as
/// `Deck::draw_one` states), so after `n` draws from a shoe of distinct
/// identifiers, `len - n` cards remain, no identifier has been handed out twice,
/// and none handed out is still in the shoe.
pub proof fn lemma_deck_conservation(s: Seq<u16>, n: nat)
    requires
        s.no_duplicates(),
        n <= s.len(),
    ensures
        after_draws(s, n).len() == s.len() - n,
        n < s.len() ==> after_draws(s, n + 1) == after_draws(s, n).drop_last(),
        n < s.len() ==> drawn_ids(s, n + 1) == drawn_ids(s, n).push(after_draws(s, n).last()),
        drawn_ids(s, n).len() == n,
        drawn_ids(s, n).no_duplicates(),
        forall|i: int| 0 <= i < n ==> !after_draws(s, n).contains(#[trigger] drawn_ids(s, n)[i]),
{
    if n < s.len() {
        assert(after_draws(s, n + 1) =~= after_draws(s, n).drop_last());
        assert(drawn_ids(s, n + 1) =~= drawn_ids(s, n).push(after_draws(s, n).last()));
    }
    let d = drawn_ids(s, n);
    assert forall|i: int, j: int| 0 <= i < d.len() && 0 <= j < d.len() && i != j implies d[i] != d[j] by {
        assert(d[i] == s[s.len() - 1 - i]);
        assert(d[j] == s[s.len() - 1 - j]);
    }
    assert forall|i: int| 0 <= i < n implies !after_draws(s, n).contains(#[trigger] drawn_ids(s, n)[i]) by {
        if after_draws(s, n).contains(drawn_ids(s, n)[i]) {
            let k = choose|k: int| 0 <= k < s.len() - n && after_draws(s, n)[k] == drawn_ids(s, n)[i];
            assert(s[k] == s[s.len() - 1 - i]);
        }
    }
}

/// A permutation of the distinct identifiers `0..size` holds each of them once.
proof fn lemma_permutation_keeps_ids(before: Seq<u16>, after: Seq<u16>, size: u16)
    requires
        before == id_range(size as nat),
        after.to_multiset() == before.to_multiset(),
        forall|x: u16| before.to_multiset().contains(x) ==> before.to_multiset().count(x) == 1,
    ensures
        after.no_duplicates(),
        forall|i: int| 0 <= i < after.len() ==> #[trigger] after[i] < size,
{
    broadcast use vstd::seq_lib::group_to_multiset_ensures;
    after.lemma_multiset_has_no_duplicates_conv();
    assert forall|i: int| 0 <= i < after.len() implies #[trigger] after[i] < size by {
        assert(after.contains(after[i]));
        assert(after.to_multiset().count(after[i]) > 0);
        assert(before.to_multiset().count(after[i]) > 0);
        assert(before.contains(after[i]));
        let j = choose|j: int| 0 <= j < before.len() && before[j] == after[i];
        assert(before[j] == j as u16);
    }
}

} // verus!
