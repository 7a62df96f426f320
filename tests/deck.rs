use blackjack::deck::{card_rank, DealError, Deck, SHOE_CARDS_AMOUNT};

#[test]
fn fresh_shoe_holds_every_identifier_once() {
    let mut deck = Deck::new_shuffled(SHOE_CARDS_AMOUNT);
    assert_eq!(deck.remaining(), 416);
    let mut per_rank = [0usize; 52];
    for n in 1..=416usize {
        let rank = deck.draw_one().unwrap();
        per_rank[rank as usize] += 1;
        assert_eq!(deck.remaining(), 416 - n);
    }
    assert!(per_rank.iter().all(|c| *c == 8));
    assert_eq!(deck.draw_one(), Err(DealError::DeckExhausted));
}

#[test]
fn shuffle_changes_the_order() {
    let mut deck = Deck::new_shuffled(SHOE_CARDS_AMOUNT);
    let mut drawn = Vec::new();
    while let Ok(rank) = deck.draw_one() {
        drawn.push(rank);
    }
    let in_order: Vec<u8> = (0u16..416).rev().map(|id| (id % 52) as u8).collect();
    assert_eq!(drawn.len(), 416);
    assert_ne!(drawn, in_order);
}

#[test]
fn draws_come_from_the_top() {
    let mut deck = Deck::from_cards(vec![1, 60, 103]);
    assert_eq!(deck.draw_one(), Ok(51));
    assert_eq!(deck.draw_one(), Ok(8));
    assert_eq!(deck.remaining(), 1);
    assert_eq!(deck.draw_one(), Ok(1));
    assert_eq!(deck.draw_one(), Err(DealError::DeckExhausted));
    assert_eq!(deck.remaining(), 0);
}

#[test]
fn rank_is_identifier_modulo_fifty_two() {
    assert_eq!(card_rank(0), 0);
    assert_eq!(card_rank(52), 0);
    assert_eq!(card_rank(415), 51);
}
