//! Stackable items: bought any number of times, each one owned adds its
//! worth to the rate at which spice gathers.
use vstd::prelude::*;
use vstd::string::StringExecFns;
use crate::text::{decimal_text, micros_text, push_decimal, push_micros};

verus! {

/// What an [`Item`] holds, as plain values.
pub struct ItemView {
    /// The name shown to the player.
    pub name: Seq<char>,
    /// How many the player owns.
    pub amt: nat,
    /// Spice per second that one owned item yields, in millionths.
    pub worth: nat,
    /// The price of the next one, in whole spice.
    pub cost: nat,
}

/// An item of the shop that can be bought again and again.
pub struct Item {
    name: String,
    amt: u32,
    worth: u64,
    cost: u32,
}

impl View for Item {
    type V = ItemView;

    closed spec fn view(&self) -> ItemView {
        ItemView {
            name: self.name@,
            amt: self.amt as nat,
            worth: self.worth as nat,
            cost: self.cost as nat,
        }
    }
}

/// A price raised by fifteen percent and rounded up to a whole number.
pub open spec fn grown_cost(cost: nat) -> nat {
    ((cost * 115 + 99) / 100) as nat
}

/// `n`, or `u32::MAX` where `n` is larger.
pub open spec fn capped_u32(n: nat) -> nat {
    if n > u32::MAX {
        u32::MAX as nat
    } else {
        n
    }
}

/// The item after one purchase: one more owned, the price grown.
pub open spec fn purchased(item: ItemView) -> ItemView {
    ItemView {
        name: item.name,
        amt: capped_u32(item.amt + 1),
        worth: item.worth,
        cost: capped_u32(grown_cost(item.cost)),
    }
}

/// The line of an item in the inventory.
pub open spec fn inventory_line(item: ItemView) -> Seq<char> {
    item.name + ": Amount Owned: "@ + decimal_text(item.amt) + ", Clicks per second: "@
        + micros_text(item.worth)
}

/// The line of an item in the shop.
pub open spec fn shop_line(item: ItemView) -> Seq<char> {
    item.name + ": Cost: "@ + decimal_text(item.cost) + ", Clicks per second: "@ + micros_text(
        item.worth,
    )
}

impl Item {
    /// A new item. `worth` is in millionths of a spice per second, `cost` in
    /// whole spice.
    pub fn new(name: &str, amt: u32, worth: u64, cost: u32) -> (item: Item)
        ensures
            item@ == (ItemView {
                name: name@,
                amt: amt as nat,
                worth: worth as nat,
                cost: cost as nat,
            }),
    {
        Item { name: String::from_str(name), amt, worth, cost }
    }

    /// The name of the item.
    pub fn get_name(&self) -> (name: &str)
        ensures
            name@ == self@.name,
    {
        self.name.as_str()
    }

    /// How many the player owns.
    pub fn get_amt(&self) -> (amt: u32)
        ensures
            amt == self@.amt,
    {
        self.amt
    }

    /// Spice per second that one owned item yields, in millionths.
    pub fn get_worth(&self) -> (worth: u64)
        ensures
            worth == self@.worth,
    {
        self.worth
    }

    /// The price of the next one, in whole spice.
    pub fn get_cost(&self) -> (cost: u32)
        ensures
            cost == self@.cost,
    {
        self.cost
    }

    /// The line of the item in the inventory.
    pub fn info_in_inventory(&self) -> (line: String)
        ensures
            line@ == inventory_line(self@),
    {
        let mut line = self.name.clone();
        line.append(": Amount Owned: ");
        push_decimal(&mut line, self.amt as u128);
        line.append(", Clicks per second: ");
        push_micros(&mut line, self.worth);
        line
    }

    /// The line of the item in the shop.
    pub fn info_in_shop(&self) -> (line: String)
        ensures
            line@ == shop_line(self@),
    {
        let mut line = self.name.clone();
        line.append(": Cost: ");
        push_decimal(&mut line, self.cost as u128);
        line.append(", Clicks per second: ");
        push_micros(&mut line, self.worth);
        line
    }

    /// Takes one more into ownership and raises the price by fifteen
    /// percent, rounded up. The count and the price stay at `u32::MAX` once
    /// they reach it. The caller pays.
    pub fn purchase(&mut self)
        ensures
            final(self)@ == purchased(old(self)@),
    {
        if self.amt < u32::MAX {
            self.amt = self.amt + 1;
        }
        let grown: u64 = (self.cost as u64 * 115 + 99) / 100;
        if grown > u32::MAX as u64 {
            self.cost = u32::MAX;
        } else {
            self.cost = grown as u32;
        }
    }
}

} // verus!
