use tower_power::{Player, PlacementError, TowerButtonState, TowerType};

#[test]
fn spend_funds_debits_when_covered() {
    let mut p = Player::new(10, 3);
    assert_eq!(p.spend_funds(4), Some(6));
    assert_eq!(p.get_funds(), 6);
    assert_eq!(p.get_lives(), 3);
}

#[test]
fn spend_funds_refuses_without_change() {
    let mut p = Player::new(3, 3);
    assert_eq!(p.spend_funds(4), None);
    assert_eq!(p.get_funds(), 3);
}

#[test]
fn spend_funds_exact_balance() {
    let mut p = Player::new(5, 1);
    assert_eq!(p.spend_funds(5), Some(0));
    assert_eq!(p.get_funds(), 0);
}

#[test]
fn add_funds_overflow_leaves_balance() {
    let mut p = Player::new(u32::MAX - 1, 1);
    assert_eq!(p.add_funds(1), Some(u32::MAX));
    assert_eq!(p.add_funds(1), None);
    assert_eq!(p.get_funds(), u32::MAX);
}

#[test]
fn setters_replace_values() {
    let mut p = Player::default();
    assert_eq!(p.set_funds(7), 7);
    assert_eq!(p.set_lives(2), 2);
    assert_eq!(p.get_funds(), 7);
    assert_eq!(p.get_lives(), 2);
}

#[test]
fn damage_counts_down_lives() {
    let mut p = Player::new(0, 3);
    assert_eq!(p.damage(1), Some(2));
    assert_eq!(p.damage(1), Some(1));
    assert!(!p.is_defeated());
    assert_eq!(p.damage(1), None);
    assert_eq!(p.get_lives(), 0);
    assert!(p.is_defeated());
}

#[test]
fn damage_beyond_lives_saturates_at_zero() {
    let mut p = Player::new(7, 3);
    assert_eq!(p.damage(5), None);
    assert_eq!(p.get_lives(), 0);
    assert_eq!(p.get_funds(), 7);
    assert!(p.is_defeated());
}

#[test]
fn currency_after_kills_is_start_plus_kills() {
    let mut p = Player::new(5, 10);
    assert!(p.give_money_on_kill(7));
    assert_eq!(p.get_funds(), 12);
    assert!(p.give_money_on_kill(0));
    assert_eq!(p.get_funds(), 12);
}

#[test]
fn kill_rewards_stop_at_overflow() {
    let mut p = Player::new(u32::MAX - 2, 1);
    assert!(!p.give_money_on_kill(5));
    assert_eq!(p.get_funds(), u32::MAX);
    assert_eq!(p.get_lives(), 1);
}

#[test]
fn tower_costs() {
    assert_eq!(TowerType::Lazer.cost(), 1);
    assert_eq!(TowerType::Cannon.cost(), 2);
    assert_eq!(TowerType::Rock.cost(), 5);
}

#[test]
fn placement_rejected_when_funds_insufficient() {
    let mut p = Player::new(4, 3);
    let r = TowerType::Rock.purchase(&mut p);
    assert_eq!(r.err(), Some(PlacementError::InsufficientFunds { cost: 5, funds: 4 }));
    assert_eq!(p.get_funds(), 4);
    assert_eq!(p.get_lives(), 3);
}

#[test]
fn placement_debits_cost() {
    let mut p = Player::new(4, 3);
    let t = TowerType::Cannon.purchase(&mut p).unwrap();
    assert_eq!(p.get_funds(), 2);
    assert_eq!(t.range, 4500);
    assert_eq!(t.shooting_timer.period_us(), 500_000);
}

#[test]
fn button_state_tracks_affordability() {
    let mut b = TowerButtonState::new(TowerType::Rock);
    assert_eq!(b.cost(), 5);
    assert!(!b.affordable());
    assert!(!b.update_tower_button_states(4));
    assert!(!b.affordable());
    assert!(b.update_tower_button_states(5));
    assert!(b.affordable());
}
