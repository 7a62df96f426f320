use blackjack::message_action::MessageAction;
use blackjack::strategy::{get_card_points, get_strategic_action};

fn advise(player: [u16; 2], bank: u16) -> MessageAction {
    get_strategic_action(&player.to_vec(), &vec![bank])
}

#[test]
fn advice_values_count_an_ace_as_eleven() {
    assert_eq!(get_card_points(48), 11);
    assert_eq!(get_card_points(100), 11);
    assert_eq!(get_card_points(0), 2);
    assert_eq!(get_card_points(52), 2);
    assert_eq!(get_card_points(35), 10);
    assert_eq!(get_card_points(31), 9);
}

#[test]
fn split_aces_against_six() {
    assert_eq!(advise([48, 49], 16), MessageAction::Split);
}

#[test]
fn split_eights_against_ten() {
    assert_eq!(advise([24, 25], 32), MessageAction::Split);
}

#[test]
fn hit_sixteen_against_nine() {
    assert_eq!(advise([32, 16], 28), MessageAction::Hit);
}

#[test]
fn stand_eighteen_against_five() {
    assert_eq!(advise([32, 24], 12), MessageAction::Stand);
}

#[test]
fn nines_split_except_against_seven_ten_or_ace() {
    assert_eq!(advise([28, 29], 16), MessageAction::Split);
    assert_eq!(advise([28, 29], 20), MessageAction::Stand);
    assert_eq!(advise([28, 29], 32), MessageAction::Stand);
    assert_eq!(advise([28, 29], 48), MessageAction::Stand);
}

#[test]
fn sixes_double_against_two_and_split_against_three() {
    assert_eq!(advise([16, 17], 0), MessageAction::DoubleDown);
    assert_eq!(advise([16, 17], 4), MessageAction::Split);
    assert_eq!(advise([16, 17], 24), MessageAction::Hit);
}

#[test]
fn small_pairs() {
    assert_eq!(advise([8, 9], 12), MessageAction::DoubleDown);
    assert_eq!(advise([0, 1], 4), MessageAction::DoubleDown);
    assert_eq!(advise([0, 1], 12), MessageAction::Split);
    assert_eq!(advise([20, 21], 20), MessageAction::Split);
    assert_eq!(advise([20, 21], 24), MessageAction::Hit);
}

#[test]
fn doubles_on_nine_ten_and_eleven() {
    assert_eq!(advise([12, 16], 32), MessageAction::DoubleDown);
    assert_eq!(advise([12, 13], 28), MessageAction::DoubleDown);
    assert_eq!(advise([12, 13], 32), MessageAction::Hit);
    assert_eq!(advise([8, 12], 0), MessageAction::Hit);
    assert_eq!(advise([8, 12], 8), MessageAction::DoubleDown);
}

#[test]
fn twelve_stands_only_against_four_to_six() {
    assert_eq!(advise([32, 0], 8), MessageAction::Stand);
    assert_eq!(advise([32, 0], 4), MessageAction::Hit);
    assert_eq!(advise([32, 0], 20), MessageAction::Hit);
}

#[test]
fn low_totals_and_ten_pairs_stand() {
    assert_eq!(advise([12, 4], 16), MessageAction::Stand);
    assert_eq!(advise([44, 36], 48), MessageAction::Stand);
}

#[test]
fn only_the_first_two_cards_count() {
    let player = vec![32, 16, 48];
    let bank = vec![28, 0];
    assert_eq!(get_strategic_action(&player, &bank), MessageAction::Hit);
}
