//! The dealer's side of one connection: it owns the shoe, the player's total and
//! the bank's hand, and answers each request with the messages to send back.

use vstd::prelude::*;

use crate::deck::{id_range, rank_of, DealError, Deck, SHOE_CARDS_AMOUNT};
use crate::message_action::MessageAction;
use crate::points::{card_points, get_card_points, hand_total, lemma_hand_total_push};
use crate::socket_message::SocketMessage;

verus! {

/// The bank draws until its hand holds at least this many points.
pub const BANK_STAND_POINTS: u8 = 17;
/// Largest player total to which any card can still be added within a `u8`.
pub const MAX_POINTS_BEFORE_DRAW: u8 = 245;

/// What a session holds, as mathematical values.
pub struct ServerState {
    /// Card identifiers left in the shoe; the last one is drawn next.
    pub deck: Seq<u16>,
    pub player_points: int,
    pub bank_points: int,
    /// The bank's ranks in the order they were drawn.
    pub bank_cards: Seq<u8>,
}

impl ServerState {
    /// The shoe's size fits the message's count field, both totals fit a `u8`,
    /// and the bank's total is the total of its hand.
    pub open spec fn wf(self) -> bool {
        &&& self.deck.len() <= u16::MAX
        &&& 0 <= self.player_points <= u8::MAX
        &&& 0 <= self.bank_points <= u8::MAX
        &&& self.bank_points == hand_total(self.bank_cards)
    }

    /// Rank of the card on top of the shoe.
    pub open spec fn top_rank(self) -> u8 {
        rank_of(self.deck.last())
    }

    /// Why the player cannot be dealt a card, if they cannot.
    pub open spec fn player_card_error(self) -> Option<DealError> {
        if self.deck.len() == 0 {
            Some(DealError::DeckExhausted)
        } else if self.player_points > MAX_POINTS_BEFORE_DRAW {
            Some(DealError::HandPointsOverflow)
        } else {
            None
        }
    }

    /// The state after the top card goes to the player.
    pub open spec fn with_player_card(self) -> ServerState {
        ServerState {
            deck: self.deck.drop_last(),
            player_points: self.player_points + card_points(self.top_rank() as int, self.player_points),
            bank_points: self.bank_points,
            bank_cards: self.bank_cards,
        }
    }

    /// The state after the top card goes to the bank.
    pub open spec fn with_bank_card(self) -> ServerState {
        ServerState {
            deck: self.deck.drop_last(),
            player_points: self.player_points,
            bank_points: self.bank_points + card_points(self.top_rank() as int, self.bank_points),
            bank_cards: self.bank_cards.push(self.top_rank()),
        }
    }

    /// The bank draws while it holds fewer than 17 points and the shoe is not empty.
    pub open spec fn resolve_bank(self) -> ServerState
        decreases self.deck.len(),
    {
        if self.bank_points >= 17 || self.deck.len() == 0 {
            self
        } else {
            self.with_bank_card().resolve_bank()
        }
    }

    /// Both totals at zero and the bank's hand empty; the shoe is kept.
    pub open spec fn reset_hands(self) -> ServerState {
        ServerState { deck: self.deck, player_points: 0, bank_points: 0, bank_cards: Seq::empty() }
    }

    /// A new round: hands reset, two cards to the player, then one to the bank.
    pub open spec fn restarted(self) -> ServerState {
        self.reset_hands().with_player_card().with_player_card().with_bank_card()
    }
}

/// `m` announces the card of rank `rank` under `action`, with the shoe's
/// remaining size and the receiving hand's new total.
pub open spec fn is_card_message(
    m: SocketMessage,
    action: MessageAction,
    rank: u8,
    remaining: int,
    points: int,
) -> bool {
    &&& m.action == action
    &&& m.card_index == rank as u16
    &&& m.cards_amount as int == remaining
    &&& m.text@.len() == 0
    &&& m.player_handpoints as int == points
    &&& m.bank_cards@.len() == 0
}

/// `m` reveals the whole bank hand of `s` and its total.
pub open spec fn is_bank_cards_message(m: SocketMessage, s: ServerState) -> bool {
    &&& m.action == MessageAction::SendBankCards
    &&& m.card_index == 0
    &&& m.cards_amount == 0
    &&& m.text@.len() == 0
    &&& m.player_handpoints as int == s.bank_points
    &&& m.bank_cards@ == s.bank_cards.map_values(|c: u8| c as u16)
}

/// Dealing one card to the player from `before` gave `after` and `r`.
pub open spec fn player_card_outcome(
    before: ServerState,
    after: ServerState,
    r: Result<SocketMessage, DealError>,
) -> bool {
    match before.player_card_error() {
        Some(e) => r == Err::<SocketMessage, DealError>(e) && after == before,
        None => after == before.with_player_card() && match r {
            Ok(m) => is_card_message(
                m,
                MessageAction::SendPlayerCard,
                before.top_rank(),
                after.deck.len() as int,
                after.player_points,
            ),
            Err(_) => false,
        },
    }
}

/// Letting the bank draw from `before` gave `after` and `r`: the bank holds 17
/// points or more and its hand is revealed, or the shoe ran out first.
pub open spec fn bank_resolution_outcome(
    before: ServerState,
    after: ServerState,
    r: Result<SocketMessage, DealError>,
) -> bool {
    &&& after == before.resolve_bank()
    &&& match r {
        Ok(m) => after.bank_points >= 17 && is_bank_cards_message(m, after),
        Err(e) => e == DealError::DeckExhausted && after.bank_points < 17,
    }
}

/// The messages that open a round from `before`: two player cards, then the
/// bank's up-card.
pub open spec fn restart_messages(before: ServerState, v: Seq<SocketMessage>) -> bool {
    let s0 = before.reset_hands();
    let s1 = s0.with_player_card();
    let s2 = s1.with_player_card();
    let s3 = s2.with_bank_card();
    &&& v.len() == 3
    &&& is_card_message(
        v[0],
        MessageAction::SendPlayerCard,
        s0.top_rank(),
        s1.deck.len() as int,
        s1.player_points,
    )
    &&& is_card_message(
        v[1],
        MessageAction::SendPlayerCard,
        s1.top_rank(),
        s2.deck.len() as int,
        s2.player_points,
    )
    &&& is_card_message(
        v[2],
        MessageAction::SendBankCard,
        s2.top_rank(),
        s3.deck.len() as int,
        s3.bank_points,
    )
}

/// Handling a request carrying `action` from `before` gave `after` and `r`.
/// A hit deals one card to the player; a double down deals one and lets the bank
/// draw; a stand or a continue lets the bank draw; a restart opens a new round if
/// the shoe holds three cards. Every other action is ignored.
pub open spec fn request_outcome(
    action: MessageAction,
    before: ServerState,
    after: ServerState,
    r: Result<Seq<SocketMessage>, DealError>,
) -> bool {
    match action {
        MessageAction::Hit => match r {
            Ok(v) => v.len() == 1 && player_card_outcome(before, after, Ok(v[0])),
            Err(e) => player_card_outcome(before, after, Err(e)),
        },
        MessageAction::DoubleDown => match before.player_card_error() {
            Some(e) => r == Err::<Seq<SocketMessage>, DealError>(e) && after == before,
            None => {
                let mid = before.with_player_card();
                &&& after == mid.resolve_bank()
                &&& match r {
                    Ok(v) => {
                        &&& v.len() == 2
                        &&& player_card_outcome(before, mid, Ok(v[0]))
                        &&& after.bank_points >= 17
                        &&& is_bank_cards_message(v[1], after)
                    },
                    Err(e) => e == DealError::DeckExhausted && after.bank_points < 17,
                }
            },
        },
        MessageAction::Stand | MessageAction::Continue => match r {
            Ok(v) => v.len() == 1 && bank_resolution_outcome(before, after, Ok(v[0])),
            Err(e) => bank_resolution_outcome(before, after, Err(e)),
        },
        MessageAction::Restart => if before.deck.len() < 3 {
            r == Err::<Seq<SocketMessage>, DealError>(DealError::DeckExhausted) && after == before
        } else {
            after == before.restarted() && match r {
                Ok(v) => restart_messages(before, v),
                Err(_) => false,
            }
        },
        _ => r == Ok::<Seq<SocketMessage>, DealError>(Seq::empty()) && after == before,
    }
}

/// The messages of `r`, as a sequence.
pub open spec fn messages_of(r: Result<Vec<SocketMessage>, DealError>) -> Result<Seq<SocketMessage>, DealError> {
    match r {
        Ok(v) => Ok(v@),
        Err(e) => Err(e),
    }
}

/// One connection's dealing session.
pub struct Server {
    deck: Deck,
    player_handpoints: u8,
    bank_handpoints: u8,
    bank_cards: Vec<u8>,
}

impl View for Server {
    type V = ServerState;

    closed spec fn view(&self) -> ServerState {
        ServerState {
            deck: self.deck@,
            player_points: self.player_handpoints as int,
            bank_points: self.bank_handpoints as int,
            bank_cards: self.bank_cards@,
        }
    }
}

/// Returns the ranks as the message's wider integers.
fn widen_ranks(cards: &Vec<u8>) -> (r: Vec<u16>)
    ensures
        r@ == cards@.map_values(|c: u8| c as u16),
{
    let mut r: Vec<u16> = Vec::new();
    let mut i: usize = 0;
    while i < cards.len()
        invariant
            i <= cards@.len(),
            r@ == cards@.subrange(0, i as int).map_values(|c: u8| c as u16),
        decreases cards@.len() - i,
    {
        r.push(cards[i] as u16);
        i = i + 1;
        assert(cards@.subrange(0, i as int) =~= cards@.subrange(0, i - 1).push(cards@[i - 1]));
        assert(r@ =~= cards@.subrange(0, i as int).map_values(|c: u8| c as u16));
    }
    assert(cards@.subrange(0, i as int) =~= cards@);
    r
}

impl Server {
    /// A session with a freshly shuffled shoe of 416 cards and empty hands.
    pub fn new() -> (r: Server)
        ensures
            r@.wf(),
            r@.deck.len() == SHOE_CARDS_AMOUNT,
            r@.deck.to_multiset() == id_range(SHOE_CARDS_AMOUNT as nat).to_multiset(),
            r@.deck.no_duplicates(),
            r@.player_points == 0,
            r@.bank_points == 0,
            r@.bank_cards.len() == 0,
    {
        Server::with_deck(Deck::new_shuffled(SHOE_CARDS_AMOUNT))
    }

    /// A session that deals from `deck`, with empty hands.
    pub fn with_deck(deck: Deck) -> (r: Server)
        requires
            deck@.len() <= u16::MAX,
        ensures
            r@.wf(),
            r@ == (ServerState { deck: deck@, player_points: 0, bank_points: 0, bank_cards: Seq::empty() }),
    {
        Server { deck, player_handpoints: 0, bank_handpoints: 0, bank_cards: Vec::new() }
    }

    /// The player's current total.
    pub fn player_handpoints(&self) -> (r: u8)
        ensures
            r == self@.player_points,
    {
        self.player_handpoints
    }

    /// The bank's current total.
    pub fn bank_handpoints(&self) -> (r: u8)
        ensures
            r == self@.bank_points,
    {
        self.bank_handpoints
    }

    /// The bank's ranks in the order they were drawn.
    pub fn bank_cards(&self) -> (r: Vec<u8>)
        ensures
            r@ == self@.bank_cards,
    {
        let mut r: Vec<u8> = Vec::new();
        let mut i: usize = 0;
        while i < self.bank_cards.len()
            invariant
                i <= self.bank_cards@.len(),
                r@ == self.bank_cards@.subrange(0, i as int),
            decreases self.bank_cards@.len() - i,
        {
            r.push(self.bank_cards[i]);
            i = i + 1;
            assert(r@ =~= self.bank_cards@.subrange(0, i as int));
        }
        assert(r@ =~= self.bank_cards@);
        r
    }

    /// Number of cards left in the shoe.
    pub fn remaining(&self) -> (r: usize)
        ensures
            r == self@.deck.len(),
    {
        self.deck.remaining()
    }

    /// A client connected: its hand starts with no points.
    pub fn on_open(&mut self)
        requires
            old(self)@.wf(),
        ensures
            final(self)@.wf(),
            final(self)@ == (ServerState { player_points: 0, ..old(self)@ }),
    {
        self.player_handpoints = 0;
    }

    /// Deals the top card to the player and announces it.
    fn draw_one_player_card(&mut self) -> (r: Result<SocketMessage, DealError>)
        requires
            old(self)@.wf(),
        ensures
            final(self)@.wf(),
            player_card_outcome(old(self)@, final(self)@, r),
    {
        if self.deck.remaining() == 0 {
            return Err(DealError::DeckExhausted);
        }
        if self.player_handpoints > MAX_POINTS_BEFORE_DRAW {
            return Err(DealError::HandPointsOverflow);
        }
        let rank = match self.deck.draw_one() {
            Ok(rank) => rank,
            Err(e) => {
                return Err(e);
            },
        };
        let points = get_card_points(rank, self.player_handpoints);
        self.player_handpoints = self.player_handpoints + points;
        Ok(SocketMessage {
            action: MessageAction::SendPlayerCard,
            card_index: rank as u16,
            cards_amount: self.deck.remaining() as u16,
            text: String::new(),
            player_handpoints: self.player_handpoints,
            bank_cards: Vec::new(),
        })
    }

    /// Deals the bank's up-card to its empty hand and announces it.
    fn draw_one_bank_card(&mut self) -> (m: SocketMessage)
        requires
            old(self)@.wf(),
            old(self)@.deck.len() > 0,
            old(self)@.bank_cards.len() == 0,
        ensures
            final(self)@.wf(),
            final(self)@ == old(self)@.with_bank_card(),
            is_card_message(
                m,
                MessageAction::SendBankCard,
                old(self)@.top_rank(),
                final(self)@.deck.len() as int,
                final(self)@.bank_points,
            ),
    {
        let rank = match self.deck.draw_one() {
            Ok(rank) => rank,
            Err(_) => 0,
        };
        proof {
            lemma_hand_total_push(self.bank_cards@, rank);
        }
        self.bank_cards.push(rank);
        self.bank_handpoints = get_card_points(rank, 0);
        SocketMessage {
            action: MessageAction::SendBankCard,
            card_index: rank as u16,
            cards_amount: self.deck.remaining() as u16,
            text: String::new(),
            player_handpoints: self.bank_handpoints,
            bank_cards: Vec::new(),
        }
    }

    /// Lets the bank draw until it holds 17 points or more, then reveals its
    /// whole hand; fails if the shoe runs out first.
    fn draw_all_bank_cards(&mut self) -> (r: Result<SocketMessage, DealError>)
        requires
            old(self)@.wf(),
        ensures
            final(self)@.wf(),
            bank_resolution_outcome(old(self)@, final(self)@, r),
    {
        let ghost start = self@;
        while self.bank_handpoints < BANK_STAND_POINTS
            invariant
                self@.wf(),
                self@.resolve_bank() == start.resolve_bank(),
                start == old(self)@,
            decreases self@.deck.len(),
        {
            let ghost before = self@;
            let rank = match self.deck.draw_one() {
                Ok(rank) => rank,
                Err(e) => {
                    assert(self@.resolve_bank() == self@);
                    return Err(e);
                },
            };
            let points = get_card_points(rank, self.bank_handpoints);
            proof {
                lemma_hand_total_push(self.bank_cards@, rank);
            }
            self.bank_cards.push(rank);
            self.bank_handpoints = self.bank_handpoints + points;
            assert(self@ == before.with_bank_card());
        }
        Ok(SocketMessage {
            action: MessageAction::SendBankCards,
            card_index: 0,
            cards_amount: 0,
            text: String::new(),
            player_handpoints: self.bank_handpoints,
            bank_cards: widen_ranks(&self.bank_cards),
        })
    }

    /// Answers one request from the client and returns the messages to send
    /// back, in order.
    pub fn on_message(&mut self, data: &SocketMessage) -> (r: Result<Vec<SocketMessage>, DealError>)
        requires
            old(self)@.wf(),
        ensures
            final(self)@.wf(),
            request_outcome(data.action, old(self)@, final(self)@, messages_of(r)),
    {
        let mut out: Vec<SocketMessage> = Vec::new();
        match data.action {
            MessageAction::Hit => match self.draw_one_player_card() {
                Ok(m) => out.push(m),
                Err(e) => {
                    return Err(e);
                },
            },
            MessageAction::DoubleDown => {
                match self.draw_one_player_card() {
                    Ok(m) => out.push(m),
                    Err(e) => {
                        return Err(e);
                    },
                }
                match self.draw_all_bank_cards() {
                    Ok(m) => out.push(m),
                    Err(e) => {
                        return Err(e);
                    },
                }
            },
            MessageAction::Stand | MessageAction::Continue => match self.draw_all_bank_cards() {
                Ok(m) => out.push(m),
                Err(e) => {
                    return Err(e);
                },
            },
            MessageAction::Restart => {
                if self.deck.remaining() < 3 {
                    return Err(DealError::DeckExhausted);
                }
                self.player_handpoints = 0;
                self.bank_handpoints = 0;
                self.bank_cards = Vec::new();
                match self.draw_one_player_card() {
                    Ok(m) => out.push(m),
                    Err(e) => {
                        return Err(e);
                    },
                }
                match self.draw_one_player_card() {
                    Ok(m) => out.push(m),
                    Err(e) => {
                        return Err(e);
                    },
                }
                let m = self.draw_one_bank_card();
                out.push(m);
            },
            _ => {},
        }
        Ok(out)
    }
}

/// The bank stands at 17: once it has drawn, it holds 17 points or more unless
/// the shoe ran out, and every card it drew was drawn while it held fewer than
/// 17 points, so it never draws one card too many. Its hand only grows by cards
/// taken from the top of the shoe, and its total stays the total of its hand.
pub proof fn lemma_bank_stands_at_seventeen(s: ServerState)
    requires
        s.wf(),
    ensures
        s.resolve_bank().wf(),
        s.resolve_bank().bank_points >= 17 || s.resolve_bank().deck.len() == 0,
        s.resolve_bank().bank_cards.len() >= s.bank_cards.len(),
        s.resolve_bank().bank_cards.len() - s.bank_cards.len() <= s.deck.len(),
        s.resolve_bank().bank_cards.subrange(0, s.bank_cards.len() as int) == s.bank_cards,
        forall|k: int|
            s.bank_cards.len() <= k < s.resolve_bank().bank_cards.len() ==> #[trigger] hand_total(
                s.resolve_bank().bank_cards.subrange(0, k),
            ) < 17,
        s.resolve_bank().deck == s.deck.subrange(
            0,
            s.deck.len() - (s.resolve_bank().bank_cards.len() - s.bank_cards.len()),
        ),
        s.resolve_bank().player_points == s.player_points,
    decreases s.deck.len(),
{
    let f = s.resolve_bank();
    if s.bank_points >= 17 || s.deck.len() == 0 {
        assert(s.bank_cards.subrange(0, s.bank_cards.len() as int) =~= s.bank_cards);
        assert(s.deck.subrange(0, s.deck.len() as int) =~= s.deck);
    } else {
        let t = s.with_bank_card();
        lemma_hand_total_push(s.bank_cards, s.top_rank());
        lemma_bank_stands_at_seventeen(t);
        assert(f == t.resolve_bank());
        let n = s.bank_cards.len() as int;
        assert(f.bank_cards.subrange(0, n) =~= f.bank_cards.subrange(0, n + 1).subrange(0, n));
        assert(t.bank_cards.subrange(0, n) =~= s.bank_cards);
        assert forall|k: int| n <= k < f.bank_cards.len() implies #[trigger] hand_total(
            f.bank_cards.subrange(0, k),
        ) < 17 by {
            if k == n {
                assert(f.bank_cards.subrange(0, k) == s.bank_cards);
            }
        }
        let m = t.deck.len() - (f.bank_cards.len() - (n + 1));
        assert(t.deck =~= s.deck.subrange(0, s.deck.len() - 1));
        assert(f.deck == t.deck.subrange(0, m));
        assert(f.deck =~= s.deck.subrange(0, s.deck.len() - (f.bank_cards.len() - n)));
    }
}

/// A restart opens a round exactly: the player's total is the value of the two
/// cards from the top of the shoe, valued in the order dealt, and the bank holds
/// only the third card and its value; those three cards leave the shoe.
pub proof fn lemma_restart_deals_three(s: ServerState)
    requires
        s.deck.len() >= 3,
    ensures
        ({
            let n = s.deck.len() as int;
            let first = rank_of(s.deck[n - 1]) as int;
            let second = rank_of(s.deck[n - 2]) as int;
            let up = rank_of(s.deck[n - 3]);
            let f = s.restarted();
            &&& f.player_points == card_points(first, 0) + card_points(second, card_points(first, 0))
            &&& f.bank_cards == seq![up]
            &&& f.bank_points == card_points(up as int, 0)
            &&& f.deck == s.deck.subrange(0, n - 3)
        }),
{
    let n = s.deck.len() as int;
    let f = s.restarted();
    assert(f.bank_cards =~= seq![rank_of(s.deck[n - 3])]);
    assert(f.deck =~= s.deck.subrange(0, n - 3));
}

} // verus!
