use serde_json::{Number, Value};
use spice_harvesting::amount::{NANOS_PER_SECOND, UNITS_PER_SPICE};
use spice_harvesting::clickeritem::ClickerItem;
use spice_harvesting::item::Item;
use spice_harvesting::userstate::{Purchase, UserState};

fn number(n: u128) -> Value {
    Value::Number(Number::from_u128(n).expect("a number that JSON holds"))
}

fn item_to_json(item: &Item) -> Value {
    let mut map = serde_json::Map::new();
    map.insert("name".to_string(), Value::String(item.get_name().to_string()));
    map.insert("amt".to_string(), number(item.get_amt() as u128));
    map.insert("worth".to_string(), number(item.get_worth() as u128));
    map.insert("cost".to_string(), number(item.get_cost() as u128));
    Value::Object(map)
}

fn clicker_to_json(item: &ClickerItem) -> Value {
    let mut map = serde_json::Map::new();
    map.insert("name".to_string(), Value::String(item.get_name().to_string()));
    map.insert("multiplier".to_string(), number(item.get_multiplier() as u128));
    map.insert("cost".to_string(), number(item.get_cost() as u128));
    Value::Object(map)
}

/// The state as the text of a save file.
fn save(state: &UserState) -> String {
    let mut map = serde_json::Map::new();
    map.insert("spice".to_string(), number(state.get_spice()));
    map.insert(
        "items".to_string(),
        Value::Array(
            (0..state.num_items())
                .map(|i| item_to_json(state.item(i).unwrap()))
                .collect(),
        ),
    );
    map.insert(
        "clicker_items".to_string(),
        Value::Array(
            (0..state.num_clicker_items())
                .map(|i| clicker_to_json(state.clicker_item(i).unwrap()))
                .collect(),
        ),
    );
    map.insert("sps".to_string(), number(state.get_sps()));
    map.insert("spc".to_string(), number(state.get_spc()));
    map.insert(
        "time_last_updated".to_string(),
        number(state.get_time_last_updated() as u128),
    );
    map.insert(
        "owned_clicker_items".to_string(),
        Value::Array(
            (0..state.num_owned_clicker_items())
                .map(|i| clicker_to_json(state.owned_clicker_item(i).unwrap()))
                .collect(),
        ),
    );
    serde_json::to_string(&Value::Object(map)).expect("Unable to write game state")
}

fn item_from_json(value: &Value) -> Option<Item> {
    Some(Item::new(
        value.get("name")?.as_str()?,
        u32::try_from(value.get("amt")?.as_u64()?).ok()?,
        value.get("worth")?.as_u64()?,
        u32::try_from(value.get("cost")?.as_u64()?).ok()?,
    ))
}

fn clicker_from_json(value: &Value) -> Option<ClickerItem> {
    Some(ClickerItem::new(
        value.get("name")?.as_str()?,
        value.get("multiplier")?.as_u64()?,
        u32::try_from(value.get("cost")?.as_u64()?).ok()?,
    ))
}

fn clickers_from_json(value: &Value) -> Option<Vec<ClickerItem>> {
    value.as_array()?.iter().map(clicker_from_json).collect()
}

/// The state that the text of a save file holds, if it holds one.
fn load(text: &str) -> Option<UserState> {
    let value: Value = serde_json::from_str(text).ok()?;
    let items: Option<Vec<Item>> = value
        .get("items")?
        .as_array()?
        .iter()
        .map(item_from_json)
        .collect();
    Some(UserState::from_saved(
        value.get("spice")?.as_number()?.as_u128()?,
        items?,
        clickers_from_json(value.get("clicker_items")?)?,
        value.get("sps")?.as_number()?.as_u128()?,
        value.get("spc")?.as_number()?.as_u128()?,
        value.get("time_last_updated")?.as_u64()?,
        clickers_from_json(value.get("owned_clicker_items")?)?,
    ))
}

fn sample() -> UserState {
    let items = vec![
        Item::new("Tools", 1, 1_000_000, 10),
        Item::new("Fremen", 0, 2_000_000, 50),
        Item::new("Spice Harvester", 2, 10_000_000, 500),
    ];
    let clicker_items = vec![
        ClickerItem::new("CHOAM Charter", 2_000_000, 100),
        ClickerItem::new("Guild Satellite", 3_000_000, 500),
    ];
    UserState::new(items, clicker_items)
}

#[test]
fn test_game_save_load() {
    let mut og_state = sample();
    og_state.update_spice(100 * NANOS_PER_SECOND as i128); // a hundred seconds pass
    let now = og_state.get_time_last_updated() + 100 * NANOS_PER_SECOND;
    og_state.set_time_last_updated(now);
    let saved = save(&og_state);

    let loaded_state = load(&saved).expect("Failed to load game state");
    assert_eq!(loaded_state.get_spice(), og_state.get_spice());
    assert_eq!(loaded_state.get_spice(), 2_100 * UNITS_PER_SPICE);
    assert_eq!(loaded_state.get_sps(), og_state.get_sps());
    assert_eq!(loaded_state.num_items(), og_state.num_items());
    assert_eq!(
        loaded_state.num_clicker_items(),
        og_state.num_clicker_items()
    );
    assert_eq!(loaded_state.get_spc(), og_state.get_spc());
    assert_eq!(loaded_state.get_time_last_updated(), now);
    assert_eq!(loaded_state.list_shop(), og_state.list_shop());
    assert_eq!(loaded_state.list_inventory(), og_state.list_inventory());
}

#[test]
fn a_saved_game_keeps_every_unit() {
    let mut state = sample();
    state.update_spice(1);
    state.update_spice(86_400 * NANOS_PER_SECOND as i128 + 7);
    assert_eq!(state.buy_clicker_item(1), Purchase::Purchased);
    assert_eq!(state.buy_item(2), Purchase::Purchased);
    let loaded = load(&save(&state)).expect("a save that loads");
    assert_eq!(loaded.get_spice(), state.get_spice());
    assert_eq!(
        loaded.get_spice(),
        2_100 * (86_400 * NANOS_PER_SECOND as u128 + 8) - 1_000 * UNITS_PER_SPICE
    );
    assert_eq!(loaded.get_spc(), 3 * UNITS_PER_SPICE);
    assert_eq!(loaded.num_owned_clicker_items(), 1);
    assert_eq!(loaded.owned_clicker_item(0).unwrap().get_name(), "Guild Satellite");
    assert_eq!(loaded.item(2).unwrap().get_amt(), 3);
    assert_eq!(loaded.item(2).unwrap().get_cost(), 575);
    assert_eq!(save(&loaded), save(&state));
}

#[test]
fn a_broken_save_loads_nothing() {
    assert!(load("").is_none());
    assert!(load("{}").is_none());
    assert!(load("{\"spice\": -1}").is_none());
    let text = save(&sample());
    assert!(load(&text[..text.len() - 1]).is_none());
    assert!(load(&text.replace("\"spc\"", "\"spd\"")).is_none());
    assert!(load(&text).is_some());
}
