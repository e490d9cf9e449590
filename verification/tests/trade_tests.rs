//! Tests of the trading state machine: the proximity query, the speed
//! gate, selling fish, and the upgrade chains with their errors.

use plenty_logic::state::Harbor;
use plenty_logic::state::Reefing;
use plenty_logic::state::SailKind;
use plenty_logic::state::ShipHull;
use plenty_logic::state::UpgradeError;
use plenty_logic::state::WorldState;
use plenty_logic::terrain::Terrain;
use plenty_logic::units::Distance;
use plenty_logic::units::Elevation;
use plenty_logic::units::Location;
use plenty_logic::DebuggingConf;
use plenty_logic::WorldInit;

fn water_init(edge: u16) -> WorldInit {
    let mut t = Terrain::new(edge);
    for i in 0..t.playground.len() {
        t.playground[i] = Elevation(-9);
    }
    WorldInit { terrain: t, seed: 1, dbg: DebuggingConf::default() }
}

fn docked_state_with_harbor() -> (WorldInit, WorldState) {
    let init = water_init(4);
    let mut state = WorldState::default();
    state.harbors.push(Harbor { loc: Location::new(6000, 6000), orientation: 0 });
    state.player.vehicle.pos = Location::new(8000, 6000);
    (init, state)
}

#[test]
fn no_trading_away_from_harbors() {
    let init = water_init(4);
    let mut state = WorldState::default();
    state.harbors.push(Harbor { loc: Location::new(2000, 2000), orientation: 0 });
    state.player.vehicle.pos = Location::new(10_000, 10_000);
    assert!(state.get_trading(&init).is_none());
}

#[test]
fn the_nearest_harbor_wins() {
    let init = water_init(4);
    let mut state = WorldState::default();
    state.harbors.push(Harbor { loc: Location::new(2000, 6000), orientation: 0 });
    state.harbors.push(Harbor { loc: Location::new(7000, 6000), orientation: 0 });
    state.player.vehicle.pos = Location::new(6000, 6000);
    let trade = state.get_trading(&init).unwrap();
    assert_eq!(trade.get_harbor(&state).loc, Location::new(7000, 6000));
    assert_eq!(trade.get_price_for_fish(), 1);
    assert_eq!(trade.get_traded_volume(), 0);
}

#[test]
fn selling_fish_debits_the_hold_and_credits_money() {
    let (init, mut state) = docked_state_with_harbor();
    state.player.vehicle.resource_weight = 10;
    state.player.vehicle.resource_value = 100;
    let mut trade = state.get_trading(&init).unwrap();
    assert_eq!(trade.players_fish_amount(&state), 10);

    let sold = trade.sell_fish(&mut state, 4);
    assert_eq!(sold, Some(4));
    assert_eq!(state.player.vehicle.resource_weight, 6);
    assert_eq!(state.player.vehicle.resource_value, 60);
    assert_eq!(state.player.money, 40);
    assert_eq!(trade.get_traded_volume(), 4);
}

#[test]
fn selling_never_takes_more_than_the_hold_has() {
    let (init, mut state) = docked_state_with_harbor();
    state.player.vehicle.resource_weight = 5;
    state.player.vehicle.resource_value = 60;
    let mut trade = state.get_trading(&init).unwrap();
    let sold = trade.sell_fish(&mut state, 999);
    assert_eq!(sold, Some(5));
    assert_eq!(state.player.vehicle.resource_weight, 0);
    assert_eq!(state.player.vehicle.resource_value, 0);
    assert_eq!(state.player.money, 60);
}

#[test]
fn selling_zero_is_a_noop_returning_zero() {
    let (init, mut state) = docked_state_with_harbor();
    state.player.vehicle.resource_weight = 7;
    state.player.vehicle.resource_value = 21;
    let mut trade = state.get_trading(&init).unwrap();
    for _ in 0..3 {
        assert_eq!(trade.sell_fish(&mut state, 0), Some(0));
        assert_eq!(state.player.vehicle.resource_weight, 7);
        assert_eq!(state.player.vehicle.resource_value, 21);
        assert_eq!(state.player.money, 0);
    }
}

#[test]
fn selling_above_the_speed_ceiling_changes_nothing() {
    let (init, mut state) = docked_state_with_harbor();
    state.player.vehicle.resource_weight = 10;
    state.player.vehicle.resource_value = 100;
    let mut trade = state.get_trading(&init).unwrap();
    // 1100 mm/s of ground speed is above the 1000 mm/s ceiling.
    state.player.vehicle.velocity = Distance { x: 1100, y: 0 };
    assert_eq!(trade.sell_fish(&mut state, 4), None);
    assert_eq!(state.player.vehicle.resource_weight, 10);
    assert_eq!(state.player.vehicle.resource_value, 100);
    assert_eq!(state.player.money, 0);
}

#[test]
fn upgrades_fail_fast_above_the_speed_ceiling() {
    let (init, mut state) = docked_state_with_harbor();
    state.player.money = 1_000_000;
    let mut trade = state.get_trading(&init).unwrap();
    state.player.vehicle.velocity = Distance { x: 0, y: -2000 };
    assert_eq!(trade.upgrade_sail(&mut state), Err(UpgradeError::NotDocked));
    assert_eq!(trade.upgrade_hull(&mut state), Err(UpgradeError::NotDocked));
    assert_eq!(state.player.money, 1_000_000);
}

#[test]
fn upgrades_need_money() {
    let (init, mut state) = docked_state_with_harbor();
    state.player.money = 999;
    let mut trade = state.get_trading(&init).unwrap();
    assert_eq!(trade.get_price_for_sail_upgrade(&state), Some(1000));
    assert_eq!(trade.upgrade_sail(&mut state), Err(UpgradeError::InsufficientFunds));
    assert_eq!(trade.upgrade_hull(&mut state), Err(UpgradeError::InsufficientFunds));
    assert_eq!(state.player.money, 999);
    assert_eq!(state.player.vehicle.sail.kind, SailKind::Cog);
    assert_eq!(state.player.vehicle.hull, ShipHull::Small);
}

#[test]
fn successful_upgrades_advance_one_step_and_debit_the_cost() {
    let (init, mut state) = docked_state_with_harbor();
    state.player.money = 5000;
    let mut trade = state.get_trading(&init).unwrap();
    assert_eq!(trade.upgrade_sail(&mut state), Ok(()));
    assert_eq!(state.player.vehicle.sail.kind, SailKind::Bermuda);
    assert_eq!(state.player.money, 4000);
    assert_eq!(trade.get_price_for_sail_upgrade(&state), Some(2000));
    assert_eq!(trade.upgrade_sail(&mut state), Ok(()));
    assert_eq!(state.player.vehicle.sail.kind, SailKind::Schooner);
    assert_eq!(state.player.money, 2000);
    assert_eq!(trade.get_price_for_sail_upgrade(&state), None);
    assert_eq!(trade.upgrade_sail(&mut state), Err(UpgradeError::MaxLevel));

    assert_eq!(trade.get_price_of_hull_upgrade(&state), Some(2000));
    assert_eq!(trade.upgrade_hull(&mut state), Ok(()));
    assert_eq!(state.player.vehicle.hull, ShipHull::Bigger);
    assert_eq!(state.player.money, 0);
}

#[test]
fn hull_at_the_top_fails_regardless_of_funds() {
    let (init, mut state) = docked_state_with_harbor();
    state.player.vehicle.hull = ShipHull::Bigger;
    state.player.money = u64::MAX;
    let mut trade = state.get_trading(&init).unwrap();
    assert_eq!(trade.upgrade_hull(&mut state), Err(UpgradeError::MaxLevel));
    assert_eq!(state.player.money, u64::MAX);
    assert_eq!(trade.get_price_of_hull_upgrade(&state), None);
}

#[test]
fn money_saturates_at_the_top() {
    let (init, mut state) = docked_state_with_harbor();
    state.player.money = u64::MAX - 5;
    state.player.vehicle.resource_weight = 10;
    state.player.vehicle.resource_value = 100;
    let mut trade = state.get_trading(&init).unwrap();
    assert_eq!(trade.sell_fish(&mut state, 10), Some(10));
    assert_eq!(state.player.money, u64::MAX);
}

#[test]
fn docked_but_fully_loaded_trading_respects_the_reefing() {
    // The speed gate is independent of docking: a slow ship with sail
    // set may still trade.
    let (init, mut state) = docked_state_with_harbor();
    state.player.vehicle.sail.reefing = Reefing(3);
    state.player.vehicle.velocity = Distance { x: 900, y: 0 };
    state.player.vehicle.resource_weight = 2;
    state.player.vehicle.resource_value = 8;
    let mut trade = state.get_trading(&init).unwrap();
    assert!(trade.has_player_valid_speed(&state));
    assert_eq!(trade.sell_fish(&mut state, 2), Some(2));
    assert_eq!(state.player.money, 8);
}
