use spice_harvesting::amount::{NANOS_PER_SECOND, UNITS_PER_SPICE};
use spice_harvesting::clickeritem::ClickerItem;
use spice_harvesting::clock::nanos_as_u64;
use spice_harvesting::item::Item;
use spice_harvesting::userstate::{Purchase, UserState};

/// A number with a decimal point as a count of millionths.
fn micros(x: f64) -> u64 {
    (x * 1_000_000.0).round() as u64
}

/// An amount in spice.
fn spice(units: u128) -> f64 {
    units as f64 / UNITS_PER_SPICE as f64
}

/// A rate in spice per second.
fn per_second(hundredths: u128) -> f64 {
    hundredths as f64 / 100.0
}

/// A span of seconds in nanoseconds.
fn seconds(x: f64) -> i128 {
    (x * NANOS_PER_SECOND as f64).round() as i128
}

fn three_items(tools: u32, fremen: u32, harvesters: u32) -> Vec<Item> {
    vec![
        Item::new("Tools", tools, micros(1.0), 10),
        Item::new("Fremen", fremen, micros(2.0), 50),
        Item::new("Spice Harvester", harvesters, micros(10.0), 500),
    ]
}

fn amounts(state: &UserState) -> Vec<u32> {
    (0..state.num_items()).map(|i| state.item(i).unwrap().get_amt()).collect()
}

fn costs(state: &UserState) -> Vec<u32> {
    (0..state.num_items()).map(|i| state.item(i).unwrap().get_cost()).collect()
}

fn names(state: &UserState) -> Vec<String> {
    (0..state.num_clicker_items())
        .map(|i| state.clicker_item(i).unwrap().get_name().to_string())
        .collect()
}

fn owned_names(state: &UserState) -> Vec<String> {
    (0..state.num_owned_clicker_items())
        .map(|i| state.owned_clicker_item(i).unwrap().get_name().to_string())
        .collect()
}

/// Everything that can be seen of a state.
fn observed(state: &UserState) -> (u128, u128, u128, u64, Vec<u32>, Vec<u32>, Vec<String>, Vec<String>) {
    (
        state.get_spice(),
        state.get_sps(),
        state.get_spc(),
        state.get_time_last_updated(),
        amounts(state),
        costs(state),
        names(state),
        owned_names(state),
    )
}

#[test]
fn test_sps() {
    let items = three_items(1, 0, 2);
    let clicker_items = vec![];
    let mut game_state = UserState::new(items, clicker_items);
    game_state.calculate_sps();
    assert_eq!(per_second(game_state.get_sps()), 21.0);
    assert_eq!(game_state.get_sps(), 2_100);
}

#[test]
fn test_cps() {
    let mut game_state = UserState::new(three_items(1, 0, 2), vec![]);
    game_state.calculate_sps();
    assert_eq!(per_second(game_state.get_sps()), 21.0);
}

#[test]
fn userstate_test_buy_item() {
    let items = three_items(0, 0, 0);
    let clicker_items = vec![];
    let mut game_state = UserState::new(items, clicker_items);
    for _ in 0..100 {
        game_state.update_spice_by_click();
    }
    assert_eq!(spice(game_state.get_spice()), 100.0);
    let outcome = game_state.buy_item(0);
    assert_eq!(outcome, Purchase::Purchased);
    assert_eq!(spice(game_state.get_spice()), 90.0);
    assert_eq!(game_state.get_spice(), 90 * UNITS_PER_SPICE);
    assert_eq!(game_state.item(0).unwrap().get_amt(), 1);
    assert_eq!(game_state.item(1).unwrap().get_amt(), 0);
    assert_eq!(game_state.item(2).unwrap().get_amt(), 0);
}

#[test]
fn gamestate_test_buy_item() {
    let mut game_state = UserState::new(three_items(0, 0, 0), vec![]);
    for _ in 0..100 {
        game_state.update_spice_by_click();
    }
    game_state.buy_item(0);
    assert_eq!(spice(game_state.get_spice()), 90.0);
    assert_eq!(amounts(&game_state), vec![1, 0, 0]);
    assert_eq!(costs(&game_state), vec![12, 50, 500]);
}

#[test]
fn test_update_spice_sps() {
    let items = three_items(1, 0, 0);
    let clicker_items = vec![];
    let mut game_state = UserState::new(items, clicker_items);
    for _ in 0..100 {
        game_state.update_spice_by_click();
    }
    game_state.update_spice(seconds(2.0));
    assert!(spice(game_state.get_spice()) >= 102.0);
    assert_eq!(game_state.get_spice(), 102 * UNITS_PER_SPICE);
    assert_eq!(per_second(game_state.get_sps()), 1.0);
}

#[test]
fn test_update_spice() {
    let mut game_state = UserState::new(three_items(1, 0, 0), vec![]);
    for _ in 0..100 {
        game_state.update_spice_by_click();
    }
    game_state.update_spice(seconds(2.0));
    assert!(spice(game_state.get_spice()) >= 102.0);
}

#[test]
fn test_buy_clicker_item() {
    let items = vec![];
    let clicker_items = vec![
        ClickerItem::new("Test Item 1", micros(2.0), 100),
        ClickerItem::new("Test Item 2", micros(3.0), 500),
    ];
    let mut game_state = UserState::new(items, clicker_items);
    for _ in 0..200 {
        game_state.update_spice_by_click();
    }
    assert_eq!(spice(game_state.get_spice()), 200.0);
    let outcome = game_state.buy_clicker_item(0);
    assert_eq!(outcome, Purchase::Purchased);
    assert_eq!(spice(game_state.get_spice()), 100.0);
    assert_eq!(spice(game_state.get_spc()), 2.0);
    assert_eq!(game_state.num_clicker_items(), 1);
    assert_eq!(game_state.num_owned_clicker_items(), 1);
    assert_eq!(names(&game_state), vec!["Test Item 2"]);
    assert_eq!(owned_names(&game_state), vec!["Test Item 1"]);
}

#[test]
fn test_time_update() {
    let items = vec![];
    let clicker_items = vec![];
    let mut game_state = UserState::new(items, clicker_items);
    let initial_time = game_state.get_time_last_updated();
    game_state.set_time_last_updated(initial_time + 1000 * NANOS_PER_SECOND);
    assert_eq!(
        game_state.get_time_last_updated(),
        initial_time + 1000 * NANOS_PER_SECOND
    );
}

#[test]
fn new_state_is_fresh() {
    let state = UserState::new_at(three_items(4, 5, 6), vec![ClickerItem::new("C", 1, 1)], 77);
    assert_eq!(state.get_spice(), 0);
    assert_eq!(state.get_sps(), 0);
    assert_eq!(state.get_spc(), UNITS_PER_SPICE);
    assert_eq!(state.get_time_last_updated(), 77);
    assert_eq!(state.num_items(), 3);
    assert_eq!(state.num_clicker_items(), 1);
    assert_eq!(state.num_owned_clicker_items(), 0);
    assert_eq!(state.total_num_items(), 4);
    assert_eq!(amounts(&state), vec![4, 5, 6]);
    assert!(state.item(3).is_none());
    assert!(state.clicker_item(1).is_none());
    assert!(state.owned_clicker_item(0).is_none());
}

#[test]
fn new_state_takes_the_time_of_the_clock() {
    let state = UserState::new(vec![], vec![]);
    // Later than the first of January 2020.
    assert!(state.get_time_last_updated() > 1_577_836_800 * NANOS_PER_SECOND);
    assert_eq!(state.get_spice(), 0);
    assert_eq!(state.get_spc(), UNITS_PER_SPICE);
}

#[test]
fn rate_is_rounded_to_two_decimal_places() {
    // 3 * 0.1234 = 0.3702 rounds down, 1 * 0.005 = 0.005 rounds up.
    let mut state = UserState::new_at(vec![Item::new("A", 3, 123_400, 1)], vec![], 0);
    state.calculate_sps();
    assert_eq!(state.get_sps(), 37);
    let mut half = UserState::new_at(vec![Item::new("B", 1, 5_000, 1)], vec![], 0);
    half.calculate_sps();
    assert_eq!(half.get_sps(), 1);
    let mut below = UserState::new_at(vec![Item::new("C", 1, 4_999, 1)], vec![], 0);
    below.calculate_sps();
    assert_eq!(below.get_sps(), 0);
    let mut sum = UserState::new_at(
        vec![Item::new("D", 7, 100_000, 1), Item::new("E", 2, 47_000_000, 1)],
        vec![],
        0,
    );
    sum.calculate_sps();
    assert_eq!(per_second(sum.get_sps()), 94.7);
}

#[test]
fn rate_of_an_empty_catalogue_is_zero() {
    let mut state = UserState::new_at(vec![], vec![], 0);
    state.calculate_sps();
    assert_eq!(state.get_sps(), 0);
    state.update_spice(seconds(10.0));
    assert_eq!(state.get_spice(), 0);
}

#[test]
fn rate_stays_within_range() {
    let items = vec![
        Item::new("A", u32::MAX, u64::MAX, 1),
        Item::new("B", u32::MAX, u64::MAX, 1),
    ];
    let mut state = UserState::new_at(items, vec![], 0);
    state.calculate_sps();
    let exact = 2 * (u32::MAX as u128) * (u64::MAX as u128);
    assert_eq!(state.get_sps(), (exact + 5_000) / 10_000);
    state.update_spice(i128::MAX);
    assert_eq!(state.get_spice(), u128::MAX);
    state.update_spice_by_click();
    assert_eq!(state.get_spice(), u128::MAX);
}

#[test]
fn computing_the_rate_twice_changes_nothing_more() {
    let mut state = UserState::new_at(three_items(3, 1, 4), vec![], 5);
    state.calculate_sps();
    let once = observed(&state);
    state.calculate_sps();
    assert_eq!(observed(&state), once);
    assert_eq!(state.get_sps(), 4_500);
}

#[test]
fn rate_is_stale_until_computed_anew() {
    let mut state = UserState::new_at(three_items(1, 0, 0), vec![], 0);
    state.calculate_sps();
    for _ in 0..10 {
        state.update_spice_by_click();
    }
    assert_eq!(state.buy_item(0), Purchase::Purchased);
    assert_eq!(state.get_sps(), 100);
    state.calculate_sps();
    assert_eq!(state.get_sps(), 200);
}

#[test]
fn time_that_is_not_positive_changes_nothing() {
    let mut state = UserState::new_at(three_items(1, 0, 2), vec![], 9);
    for _ in 0..3 {
        state.update_spice_by_click();
    }
    let before = observed(&state);
    state.update_spice(0);
    assert_eq!(observed(&state), before);
    state.update_spice(-1);
    assert_eq!(observed(&state), before);
    state.update_spice(seconds(-3600.0));
    assert_eq!(observed(&state), before);
    state.update_spice(i128::MIN);
    assert_eq!(observed(&state), before);
    // The rate was not computed either.
    assert_eq!(state.get_sps(), 0);
}

#[test]
fn time_adds_rate_times_time() {
    let mut state = UserState::new_at(three_items(1, 0, 2), vec![], 0);
    state.update_spice(1);
    assert_eq!(state.get_sps(), 2_100);
    assert_eq!(state.get_spice(), 2_100);
    state.update_spice(seconds(0.016));
    assert_eq!(state.get_spice(), 2_100 + 2_100 * 16_000_000);
    let mut offline = UserState::new_at(three_items(1, 0, 2), vec![], 0);
    offline.update_spice(seconds(8.0 * 3600.0));
    assert_eq!(offline.get_spice(), 2_100 * 8 * 3600 * NANOS_PER_SECOND as u128);
    assert_eq!(spice(offline.get_spice()), 21.0 * 8.0 * 3600.0);
}

#[test]
fn many_ticks_yield_what_one_span_yields() {
    let mut ticking = UserState::new_at(three_items(1, 3, 2), vec![], 0);
    let mut waiting = UserState::new_at(three_items(1, 3, 2), vec![], 0);
    let frame = 16_666_667_i128;
    for _ in 0..600 {
        ticking.update_spice(frame);
    }
    waiting.update_spice(600 * frame);
    assert_eq!(observed(&ticking), observed(&waiting));
    assert_eq!(waiting.get_spice(), 2_700 * 600 * 16_666_667);
}

#[test]
fn a_purchase_that_cannot_be_paid_changes_nothing() {
    let clickers = vec![ClickerItem::new("C", micros(2.0), 10)];
    let mut state = UserState::new_at(three_items(0, 0, 0), clickers, 3);
    for _ in 0..9 {
        state.update_spice_by_click();
    }
    let before = observed(&state);
    assert_eq!(state.buy_item(0), Purchase::NotEnoughSpice);
    assert_eq!(observed(&state), before);
    assert_eq!(state.buy_item(2), Purchase::NotEnoughSpice);
    assert_eq!(observed(&state), before);
    assert_eq!(state.buy_clicker_item(0), Purchase::NotEnoughSpice);
    assert_eq!(observed(&state), before);
    // One unit short of the price.
    state.update_spice_by_click();
    let mut short = UserState::from_saved(
        10 * UNITS_PER_SPICE - 1,
        three_items(0, 0, 0),
        vec![],
        0,
        UNITS_PER_SPICE,
        3,
        vec![],
    );
    assert_eq!(short.buy_item(0), Purchase::NotEnoughSpice);
    assert_eq!(short.get_spice(), 10 * UNITS_PER_SPICE - 1);
    // Exactly the price.
    assert_eq!(state.buy_item(0), Purchase::Purchased);
    assert_eq!(state.get_spice(), 0);
}

#[test]
fn a_purchase_of_an_item_that_is_not_there_changes_nothing() {
    let clickers = vec![ClickerItem::new("C", micros(2.0), 0)];
    let mut state = UserState::new_at(three_items(0, 0, 0), clickers, 3);
    for _ in 0..1000 {
        state.update_spice_by_click();
    }
    let before = observed(&state);
    assert_eq!(state.buy_item(3), Purchase::NoSuchItem);
    assert_eq!(state.buy_item(usize::MAX), Purchase::NoSuchItem);
    assert_eq!(state.buy_clicker_item(1), Purchase::NoSuchItem);
    assert_eq!(observed(&state), before);
    assert_eq!(state.buy_clicker_item(0), Purchase::Purchased);
    assert_eq!(state.buy_clicker_item(0), Purchase::NoSuchItem);
}

#[test]
fn purchases_in_a_row_raise_the_price_each_time() {
    let mut state = UserState::new_at(three_items(0, 0, 0), vec![], 0);
    for _ in 0..100 {
        state.update_spice_by_click();
    }
    let mut paid = 0_u128;
    let mut previous = 10_u32;
    let mut bought = 0;
    while state.buy_item(0) == Purchase::Purchased {
        paid += previous as u128;
        bought += 1;
        let cost = state.item(0).unwrap().get_cost();
        assert_eq!(cost, (previous as f64 * 1.15).ceil() as u32);
        assert!(cost >= previous);
        previous = cost;
        assert_eq!(state.get_spice(), (100 - paid) * UNITS_PER_SPICE);
    }
    // 10 + 12 + 14 + 17 + 20 + 23 = 96; the next costs 27 and 4 are left.
    assert_eq!(bought, 6);
    assert_eq!(paid, 96);
    assert_eq!(state.item(0).unwrap().get_amt(), 6);
    assert_eq!(state.item(0).unwrap().get_cost(), 27);
    assert_eq!(spice(state.get_spice()), 4.0);
}

#[test]
fn one_time_items_keep_their_order() {
    let clickers = vec![
        ClickerItem::new("A", micros(2.0), 1),
        ClickerItem::new("B", micros(3.0), 1),
        ClickerItem::new("C", micros(1.5), 1),
        ClickerItem::new("D", micros(1.0), 1),
    ];
    let mut state = UserState::new_at(vec![], clickers, 0);
    for _ in 0..10 {
        state.update_spice_by_click();
    }
    assert_eq!(state.buy_clicker_item(1), Purchase::Purchased);
    assert_eq!(names(&state), vec!["A", "C", "D"]);
    assert_eq!(owned_names(&state), vec!["B"]);
    assert_eq!(spice(state.get_spc()), 3.0);
    assert_eq!(state.buy_clicker_item(2), Purchase::Purchased);
    assert_eq!(names(&state), vec!["A", "C"]);
    assert_eq!(owned_names(&state), vec!["B", "D"]);
    assert_eq!(spice(state.get_spc()), 3.0);
    assert_eq!(state.buy_clicker_item(0), Purchase::Purchased);
    assert_eq!(names(&state), vec!["C"]);
    assert_eq!(owned_names(&state), vec!["B", "D", "A"]);
    assert_eq!(spice(state.get_spc()), 6.0);
    assert_eq!(state.buy_clicker_item(0), Purchase::Purchased);
    assert_eq!(spice(state.get_spc()), 9.0);
    assert_eq!(spice(state.get_spice()), 6.0);
    assert_eq!(state.total_num_items(), 0);
    state.update_spice_by_click();
    assert_eq!(spice(state.get_spice()), 15.0);
}

#[test]
fn a_multiplier_drops_the_fraction_of_a_unit() {
    let clickers = vec![ClickerItem::new("Third", 333_333, 0)];
    let mut state = UserState::from_saved(0, vec![], clickers, 0, 10, 0, vec![]);
    assert_eq!(state.buy_clicker_item(0), Purchase::Purchased);
    // 10 * 0.333333 = 3.33333
    assert_eq!(state.get_spc(), 3);
    let big = vec![ClickerItem::new("Big", u64::MAX, 0)];
    let mut capped = UserState::from_saved(0, vec![], big, 0, u128::MAX, 0, vec![]);
    assert_eq!(capped.buy_clicker_item(0), Purchase::Purchased);
    assert_eq!(capped.get_spc(), u128::MAX);
    let half = vec![ClickerItem::new("Half", 500_000, 0)];
    let mut wide = UserState::from_saved(0, vec![], half, 0, u128::MAX, 0, vec![]);
    assert_eq!(wide.buy_clicker_item(0), Purchase::Purchased);
    assert_eq!(wide.get_spc(), u128::MAX / 2);
}

#[test]
fn a_saved_state_comes_back_as_it_was() {
    let mut state = UserState::new_at(
        three_items(1, 0, 2),
        vec![
            ClickerItem::new("CHOAM Charter", micros(2.0), 100),
            ClickerItem::new("Guild Satellite", micros(3.0), 500),
        ],
        1_000,
    );
    state.update_spice(seconds(100.0));
    assert_eq!(state.buy_clicker_item(0), Purchase::Purchased);
    let items = (0..state.num_items())
        .map(|i| {
            let item = state.item(i).unwrap();
            Item::new(item.get_name(), item.get_amt(), item.get_worth(), item.get_cost())
        })
        .collect();
    let copy = |item: &ClickerItem| {
        ClickerItem::new(item.get_name(), item.get_multiplier(), item.get_cost())
    };
    let clickers = (0..state.num_clicker_items())
        .map(|i| copy(state.clicker_item(i).unwrap()))
        .collect();
    let owned = (0..state.num_owned_clicker_items())
        .map(|i| copy(state.owned_clicker_item(i).unwrap()))
        .collect();
    let loaded = UserState::from_saved(
        state.get_spice(),
        items,
        clickers,
        state.get_sps(),
        state.get_spc(),
        state.get_time_last_updated(),
        owned,
    );
    assert_eq!(observed(&loaded), observed(&state));
    assert_eq!(spice(loaded.get_spice()), 2_000.0);
    assert_eq!(loaded.list_inventory(), state.list_inventory());
    assert_eq!(loaded.list_shop(), state.list_shop());
}

#[test]
fn a_reading_of_the_clock_is_held_within_range() {
    assert_eq!(nanos_as_u64(0), 0);
    assert_eq!(nanos_as_u64(1_700_000_000_000_000_000), 1_700_000_000_000_000_000);
    assert_eq!(nanos_as_u64(u64::MAX as u128), u64::MAX);
    assert_eq!(nanos_as_u64(u64::MAX as u128 + 1), u64::MAX);
    assert_eq!(nanos_as_u64(u128::MAX), u64::MAX);
}
