//! The items a new game starts with.
use vstd::prelude::*;
use crate::clickeritem::{ClickerItem, ClickerItemView};
use crate::item::{Item, ItemView};
use crate::userstate::{clicker_views, item_views};

verus! {

/// The stackable items of a new game: five tiers, each dearer and worth
/// more than the one before, none owned.
pub open spec fn starting_items() -> Seq<ItemView> {
    seq![
        ItemView { name: "Tools"@, amt: 0, worth: 100_000, cost: 15 },
        ItemView { name: "Fremen"@, amt: 0, worth: 1_000_000, cost: 100 },
        ItemView { name: "Ornithopter"@, amt: 0, worth: 8_000_000, cost: 1_100 },
        ItemView { name: "Spice Harvester"@, amt: 0, worth: 47_000_000, cost: 12_000 },
        ItemView { name: "Sietch"@, amt: 0, worth: 260_000_000, cost: 130_000 },
    ]
}

/// The one-time items of a new game.
pub open spec fn starting_clicker_items() -> Seq<ClickerItemView> {
    seq![
        ClickerItemView { name: "CHOAM Charter"@, multiplier: 2_000_000, cost: 100 },
        ClickerItemView { name: "Guild Satellite"@, multiplier: 3_000_000, cost: 500 },
    ]
}

/// Makes the stackable items of a new game.
pub fn new_items() -> (items: Vec<Item>)
    ensures
        item_views(items@) == starting_items(),
{
    let mut items: Vec<Item> = Vec::new();
    items.push(Item::new("Tools", 0, 100_000, 15));
    items.push(Item::new("Fremen", 0, 1_000_000, 100));
    items.push(Item::new("Ornithopter", 0, 8_000_000, 1_100));
    items.push(Item::new("Spice Harvester", 0, 47_000_000, 12_000));
    items.push(Item::new("Sietch", 0, 260_000_000, 130_000));
    assert(item_views(items@) =~= starting_items());
    items
}

/// Makes the one-time items of a new game.
pub fn new_clicker_items() -> (items: Vec<ClickerItem>)
    ensures
        clicker_views(items@) == starting_clicker_items(),
{
    let mut items: Vec<ClickerItem> = Vec::new();
    items.push(ClickerItem::new("CHOAM Charter", 2_000_000, 100));
    items.push(ClickerItem::new("Guild Satellite", 3_000_000, 500));
    assert(clicker_views(items@) =~= starting_clicker_items());
    items
}

} // verus!
