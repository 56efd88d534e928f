//! One-time items: bought once, each multiplies what one click is worth.
use vstd::prelude::*;
use vstd::string::StringExecFns;
use crate::text::{decimal_text, micros_text, push_decimal, push_micros};

verus! {

/// What a [`ClickerItem`] holds, as plain values.
pub struct ClickerItemView {
    /// The name shown to the player.
    pub name: Seq<char>,
    /// The factor by which a click grows, in millionths.
    pub multiplier: nat,
    /// The price, in whole spice.
    pub cost: nat,
}

/// An item of the shop that can be bought once.
pub struct ClickerItem {
    name: String,
    multiplier: u64,
    cost: u32,
}

impl View for ClickerItem {
    type V = ClickerItemView;

    closed spec fn view(&self) -> ClickerItemView {
        ClickerItemView {
            name: self.name@,
            multiplier: self.multiplier as nat,
            cost: self.cost as nat,
        }
    }
}

/// The line of a one-time item in the inventory.
pub open spec fn clicker_inventory_line(item: ClickerItemView) -> Seq<char> {
    item.name + ": Click Multiplier: "@ + micros_text(item.multiplier)
}

/// The line of a one-time item in the shop.
pub open spec fn clicker_shop_line(item: ClickerItemView) -> Seq<char> {
    item.name + ": Cost: "@ + decimal_text(item.cost) + ", Click Multiplier: "@ + micros_text(
        item.multiplier,
    )
}

impl ClickerItem {
    /// A new one-time item. `multiplier` is in millionths, `cost` in whole
    /// spice.
    pub fn new(name: &str, multiplier: u64, cost: u32) -> (item: ClickerItem)
        ensures
            item@ == (ClickerItemView {
                name: name@,
                multiplier: multiplier as nat,
                cost: cost as nat,
            }),
    {
        ClickerItem { name: String::from_str(name), multiplier, cost }
    }

    /// The name of the item.
    pub fn get_name(&self) -> (name: &str)
        ensures
            name@ == self@.name,
    {
        self.name.as_str()
    }

    /// The factor by which a click grows, in millionths.
    pub fn get_multiplier(&self) -> (multiplier: u64)
        ensures
            multiplier == self@.multiplier,
    {
        self.multiplier
    }

    /// The price, in whole spice.
    pub fn get_cost(&self) -> (cost: u32)
        ensures
            cost == self@.cost,
    {
        self.cost
    }

    /// The line of the item in the inventory.
    pub fn info_in_inventory(&self) -> (line: String)
        ensures
            line@ == clicker_inventory_line(self@),
    {
        let mut line = self.name.clone();
        line.append(": Click Multiplier: ");
        push_micros(&mut line, self.multiplier);
        line
    }

    /// The line of the item in the shop.
    pub fn info_in_shop(&self) -> (line: String)
        ensures
            line@ == clicker_shop_line(self@),
    {
        let mut line = self.name.clone();
        line.append(": Cost: ");
        push_decimal(&mut line, self.cost as u128);
        line.append(", Click Multiplier: ");
        push_micros(&mut line, self.multiplier);
        line
    }
}

} // verus!
