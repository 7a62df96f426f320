use blackjack::client::{information_message, Client, Information, PlayerInput};
use blackjack::message_action::MessageAction;
use blackjack::socket_message::SocketMessage;

fn card(action: MessageAction, card_index: u16, cards_amount: u16, points: u8) -> SocketMessage {
    let mut m = SocketMessage::request(action);
    m.card_index = card_index;
    m.cards_amount = cards_amount;
    m.player_handpoints = points;
    m
}

fn dealt_client() -> Client {
    let mut client = Client::new();
    client.on_message(card(MessageAction::SendPlayerCard, 32, 415, 10));
    client.on_message(card(MessageAction::SendPlayerCard, 16, 414, 16));
    client.on_message(card(MessageAction::SendBankCard, 28, 413, 9));
    client
}

#[test]
fn waiting_for_dealer_comes_first() {
    let info = information_message(25, 18, 3, 3, 1);
    assert_eq!(info, Information::DealerPlaying);
    assert_eq!(info.text(), "Waiting for the dealer to play...");
}

#[test]
fn status_messages_by_priority() {
    assert_eq!(information_message(22, 10, 3, 1, 1), Information::Burst);
    assert_eq!(information_message(22, 18, 3, 3, 3), Information::Burst);
    assert_eq!(information_message(18, 19, 2, 2, 2), Information::BankWins);
    assert_eq!(information_message(18, 18, 2, 2, 2), Information::Push);
    assert_eq!(information_message(20, 18, 2, 2, 2), Information::PlayerWins);
    assert_eq!(information_message(15, 24, 2, 3, 3), Information::PlayerWins);
    assert_eq!(information_message(21, 10, 3, 1, 1), Information::Continue);
    assert_eq!(information_message(15, 10, 3, 1, 1), Information::HitStand);
    assert_eq!(information_message(15, 10, 2, 1, 1), Information::HitStandDouble);
}

#[test]
fn status_texts() {
    assert_eq!(Information::Burst.text(), "Burst ! Press Enter");
    assert_eq!(Information::BankWins.text(), "Dealer wins");
    assert_eq!(Information::Push.text(), "Push");
    assert_eq!(Information::PlayerWins.text(), "Player wins !");
    assert_eq!(Information::Continue.text(), "21 ! Enter to CONTINUE");
    assert_eq!(Information::HitStand.text(), "Enter to HIT, Space to STAND");
    assert_eq!(
        Information::HitStandDouble.text(),
        "Enter to HIT, Space to STAND, D to DOUBLE DOWN"
    );
}

#[test]
fn new_client_state() {
    let client = Client::new();
    assert!(client.player_cards.is_empty());
    assert!(client.bank_cards.is_empty());
    assert_eq!(client.displayed_bank_cards_amount, 1);
    assert_eq!(client.basic_strategy_action, MessageAction::Hit);
    assert_eq!(client.last_player_action, MessageAction::Restart);
}

#[test]
fn messages_fill_the_hands_and_renew_advice() {
    let client = dealt_client();
    assert_eq!(client.player_cards, vec![32, 16]);
    assert_eq!(client.player_points, 16);
    assert_eq!(client.cards_amount, 414);
    assert_eq!(client.bank_cards, vec![28]);
    assert_eq!(client.bank_points, 9);
    assert_eq!(client.basic_strategy_action, MessageAction::Hit);
}

#[test]
fn bank_card_before_two_player_cards_keeps_advice() {
    let mut client = Client::new();
    client.on_message(card(MessageAction::SendBankCard, 16, 415, 6));
    assert_eq!(client.bank_cards, vec![16]);
    assert_eq!(client.basic_strategy_action, MessageAction::Hit);
}

#[test]
fn full_bank_hand_replaces_and_restarts_reveal() {
    let mut client = dealt_client();
    let mut m = card(MessageAction::SendBankCards, 0, 0, 19);
    m.bank_cards = vec![28, 32];
    client.on_message(m);
    assert_eq!(client.bank_cards, vec![28, 32]);
    assert_eq!(client.bank_points, 19);
    assert_eq!(client.displayed_bank_cards_amount, 2);
    assert_eq!(client.player_points, 16);
}

#[test]
fn ignored_messages_change_nothing() {
    let mut client = dealt_client();
    client.on_message(card(MessageAction::Hit, 5, 5, 5));
    assert_eq!(client.player_cards, vec![32, 16]);
    assert_eq!(client.player_points, 16);
}

#[test]
fn hit_after_the_bank_played_restarts() {
    let mut client = dealt_client();
    let mut m = card(MessageAction::SendBankCards, 0, 0, 19);
    m.bank_cards = vec![28, 32];
    client.on_message(m);
    let out = client.on_input(PlayerInput::Hit).unwrap();
    assert_eq!(out.action, MessageAction::Restart);
    assert!(client.player_cards.is_empty());
    assert!(client.bank_cards.is_empty());
    assert_eq!(client.displayed_bank_cards_amount, 1);
    assert_eq!(client.last_player_action, MessageAction::Hit);
}

#[test]
fn hit_at_twenty_one_continues() {
    let mut client = dealt_client();
    client.player_points = 21;
    let out = client.request_card(MessageAction::Hit);
    assert_eq!(out.action, MessageAction::Continue);
    assert_eq!(client.player_cards.len(), 2);
}

#[test]
fn hit_goes_out_as_requested() {
    let mut client = dealt_client();
    let out = client.on_input(PlayerInput::Hit).unwrap();
    assert_eq!(out.action, MessageAction::Hit);
    assert_eq!(out.card_index, 0);
    assert!(out.text.is_empty());
    assert!(client.last_player_action == MessageAction::Hit);
    assert!(client.basic_strategy_action == client.last_player_action);
}

#[test]
fn double_down_needs_two_cards() {
    let mut client = dealt_client();
    let out = client.on_input(PlayerInput::DoubleDown).unwrap();
    assert_eq!(out.action, MessageAction::DoubleDown);
    client.on_message(card(MessageAction::SendPlayerCard, 0, 412, 18));
    client.last_player_action = MessageAction::Restart;
    assert!(client.on_input(PlayerInput::DoubleDown).is_none());
    assert_eq!(client.last_player_action, MessageAction::Restart);
}

#[test]
fn stand_only_before_the_bank_plays_and_before_burst() {
    let mut client = dealt_client();
    let out = client.on_input(PlayerInput::Stand).unwrap();
    assert_eq!(out.action, MessageAction::Stand);
    assert_eq!(client.last_player_action, MessageAction::Stand);
    client.player_points = 23;
    client.last_player_action = MessageAction::Hit;
    assert!(client.on_input(PlayerInput::Stand).is_none());
    assert_eq!(client.last_player_action, MessageAction::Hit);
    client.player_points = 15;
    client.bank_points = 17;
    assert!(client.on_input(PlayerInput::Stand).is_none());
}

#[test]
fn split_is_only_recorded() {
    let mut client = dealt_client();
    assert!(client.on_input(PlayerInput::Split).is_none());
    assert_eq!(client.last_player_action, MessageAction::Split);
    assert_eq!(client.player_cards.len(), 2);
}

#[test]
fn reveal_advances_one_card_per_interval() {
    let mut client = dealt_client();
    assert!(!client.advance_reveal(true));
    let mut m = card(MessageAction::SendBankCards, 0, 0, 22);
    m.bank_cards = vec![28, 32, 4];
    client.on_message(m);
    assert!(!client.advance_reveal(false));
    assert!(client.advance_reveal(true));
    assert_eq!(client.displayed_bank_cards_amount, 3);
    assert!(!client.advance_reveal(true));
    assert_eq!(client.displayed_bank_cards_amount, 3);
}

#[test]
fn table_views_for_the_window() {
    let mut client = dealt_client();
    assert_eq!(client.information(), Information::HitStandDouble);
    assert!(client.bank_hand_revealed());
    assert!(!client.is_burst());
    assert!(!client.strategy_followed());
    client.on_input(PlayerInput::Hit);
    assert!(client.strategy_followed());
    let mut m = card(MessageAction::SendBankCards, 0, 0, 19);
    m.bank_cards = vec![28, 32];
    client.on_message(m);
    client.player_points = 24;
    assert!(client.is_burst());
    assert!(client.bank_hand_revealed());
    assert_eq!(client.information(), Information::Burst);
}
