use ttd_core::enemies::enemy_components::EnemyHealth;
use ttd_core::enemies::enemy_types::EnemyType;
use ttd_core::state::{
    enter_main_state, leave_main_state, reset_health, Main, PlayerHealth, PLAYER_START_HEALTH,
};
use ttd_core::turns::{TurnPart, TurnState};
use ttd_core::ui::{
    health_bar_settings, turn_icon, update_healthbar, TrackbarProgess, TrackbarSettings,
    TURN_ICONS,
};

#[test]
fn every_turn_state_has_its_icon() {
    assert_eq!(turn_icon(TurnState::NoTurn), 0);
    assert_eq!(turn_icon(TurnState::InTurn(TurnPart::EnemyTurnStart)), 4);
    assert_eq!(turn_icon(TurnState::InTurn(TurnPart::EnemySpawn)), 0);
    assert_eq!(turn_icon(TurnState::InTurn(TurnPart::EnemyMove)), 1);
    assert_eq!(turn_icon(TurnState::InTurn(TurnPart::EnemyTurnEnd)), 5);
    assert_eq!(turn_icon(TurnState::InTurn(TurnPart::PlayerTurnStart)), 6);
    assert_eq!(turn_icon(TurnState::InTurn(TurnPart::PlayerAction)), 2);
    assert_eq!(turn_icon(TurnState::InTurn(TurnPart::PlayerAttack)), 3);
    assert_eq!(turn_icon(TurnState::InTurn(TurnPart::PlayerTurnEnd)), 7);
    assert_eq!(TURN_ICONS, 8);
}

#[test]
fn health_bars_follow_the_health() {
    assert_eq!(health_bar_settings(EnemyType::Slime), TrackbarSettings { total: 2 });
    assert_eq!(health_bar_settings(EnemyType::Orc), TrackbarSettings { total: 4 });
    let mut progress = TrackbarProgess(0);
    update_healthbar(EnemyHealth(3), &mut progress);
    assert_eq!(progress, TrackbarProgess(3));
    update_healthbar(EnemyHealth(255), &mut progress);
    assert_eq!(progress, TrackbarProgess(255));
    update_healthbar(EnemyHealth(0), &mut progress);
    assert_eq!(progress, TrackbarProgess(0));
}

#[test]
fn the_player_starts_with_ten_health() {
    assert_eq!(reset_health(), PlayerHealth(10));
    assert_eq!(PLAYER_START_HEALTH, 10);
}

#[test]
fn entering_play_begins_a_session_and_leaving_it_ends_one() {
    let mut turn = TurnState::NoTurn;
    enter_main_state(Main::Playing, &mut turn);
    assert_eq!(turn, TurnState::InTurn(TurnPart::EnemyTurnStart));
    turn.tick(true);
    leave_main_state(Main::Playing, &mut turn);
    assert_eq!(turn, TurnState::NoTurn);
    enter_main_state(Main::Playing, &mut turn);
    assert_eq!(turn, TurnState::InTurn(TurnPart::EnemyTurnStart));
}

#[test]
fn other_main_states_leave_the_turn_alone() {
    for state in [Main::LoadingAssets, Main::MainMenu] {
        let mut turn = TurnState::InTurn(TurnPart::PlayerAction);
        enter_main_state(state, &mut turn);
        assert_eq!(turn, TurnState::InTurn(TurnPart::PlayerAction));
        leave_main_state(state, &mut turn);
        assert_eq!(turn, TurnState::InTurn(TurnPart::PlayerAction));
        let mut idle = TurnState::NoTurn;
        enter_main_state(state, &mut idle);
        leave_main_state(state, &mut idle);
        assert_eq!(idle, TurnState::NoTurn);
    }
}
