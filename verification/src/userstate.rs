//! The player's state and the operations that change it: gathering by
//! click and over time, and buying from the shop.
use vstd::prelude::*;
use crate::amount::{add_capped, capped, mul_capped, round_to_hundredths, rounded_hundredths};
use crate::amount::{scale_capped, scaled, UNITS_PER_SPICE};
use crate::clickeritem::{ClickerItem, ClickerItemView};
use crate::clock::now_nanos;
use crate::item::{purchased, Item, ItemView};

verus! {

/// What a [`UserState`] holds, as plain values.
pub struct UserStateView {
    /// The spice the player has, in amount units.
    pub spice: nat,
    /// The stackable items, in the order of the shop.
    pub items: Seq<ItemView>,
    /// The one-time items still for sale, in the order of the shop.
    pub clicker_items: Seq<ClickerItemView>,
    /// The rate as last computed, in hundredths of a spice per second.
    pub sps: nat,
    /// What one click yields, in amount units.
    pub spc: nat,
    /// When the state was last brought up to date, in nanoseconds since the
    /// epoch.
    pub time_last_updated: nat,
    /// The one-time items the player owns, in the order of purchase.
    pub owned_clicker_items: Seq<ClickerItemView>,
}

/// The state of one player.
pub struct UserState {
    spice: u128,
    items: Vec<Item>,
    clicker_items: Vec<ClickerItem>,
    sps: u128,
    spc: u128,
    time_last_updated: u64,
    owned_clicker_items: Vec<ClickerItem>,
}

impl View for UserState {
    type V = UserStateView;

    closed spec fn view(&self) -> UserStateView {
        UserStateView {
            spice: self.spice as nat,
            items: item_views(self.items@),
            clicker_items: clicker_views(self.clicker_items@),
            sps: self.sps as nat,
            spc: self.spc as nat,
            time_last_updated: self.time_last_updated as nat,
            owned_clicker_items: clicker_views(self.owned_clicker_items@),
        }
    }
}

/// The views of a sequence of items.
pub open spec fn item_views(items: Seq<Item>) -> Seq<ItemView> {
    Seq::new(items.len(), |i: int| items[i]@)
}

/// The views of a sequence of one-time items.
pub open spec fn clicker_views(items: Seq<ClickerItem>) -> Seq<ClickerItemView> {
    Seq::new(items.len(), |i: int| items[i]@)
}

/// What all owned items yield together per second, in millionths.
pub open spec fn rate_micros(items: Seq<ItemView>) -> nat
    decreases items.len(),
{
    if items.len() == 0 {
        0
    } else {
        rate_micros(items.drop_last()) + items.last().amt * items.last().worth
    }
}

/// The rate of a catalogue in hundredths of a spice per second: the sum
/// over the items of count times worth, rounded to two decimal places.
pub open spec fn rate_of(items: Seq<ItemView>) -> nat {
    rounded_hundredths(capped(rate_micros(items)))
}

/// A fresh state: no spice, nothing computed, one spice per click.
pub open spec fn fresh(
    items: Seq<ItemView>,
    clicker_items: Seq<ClickerItemView>,
    now: nat,
) -> UserStateView {
    UserStateView {
        spice: 0,
        items,
        clicker_items,
        sps: 0,
        spc: UNITS_PER_SPICE as nat,
        time_last_updated: now,
        owned_clicker_items: Seq::empty(),
    }
}

/// The state after one click.
pub open spec fn clicked(s: UserStateView) -> UserStateView {
    UserStateView { spice: capped(s.spice + s.spc), ..s }
}

/// The state with the rate computed anew.
pub open spec fn with_rate(s: UserStateView) -> UserStateView {
    UserStateView { sps: rate_of(s.items), ..s }
}

/// The state after `dt` nanoseconds have passed: unchanged where `dt` is
/// not positive, else the rate computed anew and rate times `dt` gathered.
pub open spec fn elapsed(s: UserStateView, dt: int) -> UserStateView {
    if dt <= 0 {
        s
    } else {
        UserStateView {
            spice: capped((s.spice + rate_of(s.items) * dt) as nat),
            sps: rate_of(s.items),
            ..s
        }
    }
}

/// The number of all items that can be bought, held at `usize::MAX`.
pub open spec fn total_items(s: UserStateView) -> nat {
    if s.items.len() + s.clicker_items.len() > usize::MAX {
        usize::MAX as nat
    } else {
        s.items.len() + s.clicker_items.len()
    }
}

/// How an attempt to buy ended.
#[derive(Clone, Copy, Debug, PartialEq, Eq, Structural)]
pub enum Purchase {
    /// The price was paid and the item is the player's.
    Purchased,
    /// The price is more than the player has; nothing changed.
    NotEnoughSpice,
    /// The shop has no item at that place; nothing changed.
    NoSuchItem,
}

/// The price of an item in amount units.
pub open spec fn price_units(cost: nat) -> nat {
    cost * (UNITS_PER_SPICE as nat)
}

/// The state after the stackable item at `index` was bought: the price
/// paid, one more owned, the item's price grown. Nothing else changes; the
/// rate is left as it was until it is computed anew.
pub open spec fn bought_item(s: UserStateView, index: int) -> UserStateView
    recommends
        0 <= index < s.items.len(),
        price_units(s.items[index].cost) <= s.spice,
{
    UserStateView {
        spice: (s.spice - price_units(s.items[index].cost)) as nat,
        items: s.items.update(index, purchased(s.items[index])),
        ..s
    }
}

/// The state after the one-time item at `index` was bought: the price
/// paid, the worth of a click multiplied, the item taken out of the shop
/// and put behind the items already owned.
pub open spec fn bought_clicker_item(s: UserStateView, index: int) -> UserStateView
    recommends
        0 <= index < s.clicker_items.len(),
        price_units(s.clicker_items[index].cost) <= s.spice,
{
    UserStateView {
        spice: (s.spice - price_units(s.clicker_items[index].cost)) as nat,
        spc: capped(scaled(s.spc, s.clicker_items[index].multiplier)),
        clicker_items: s.clicker_items.remove(index),
        owned_clicker_items: s.owned_clicker_items.push(s.clicker_items[index]),
        ..s
    }
}

/// How an attempt to buy the stackable item at `index` ends.
pub open spec fn item_outcome(s: UserStateView, index: int) -> Purchase {
    if !(0 <= index < s.items.len()) {
        Purchase::NoSuchItem
    } else if price_units(s.items[index].cost) > s.spice {
        Purchase::NotEnoughSpice
    } else {
        Purchase::Purchased
    }
}

/// How an attempt to buy the one-time item at `index` ends.
pub open spec fn clicker_item_outcome(s: UserStateView, index: int) -> Purchase {
    if !(0 <= index < s.clicker_items.len()) {
        Purchase::NoSuchItem
    } else if price_units(s.clicker_items[index].cost) > s.spice {
        Purchase::NotEnoughSpice
    } else {
        Purchase::Purchased
    }
}

/// The state after an attempt to buy the stackable item at `index`.
pub open spec fn tried_item(s: UserStateView, index: int) -> UserStateView {
    if item_outcome(s, index) == Purchase::Purchased {
        bought_item(s, index)
    } else {
        s
    }
}

/// The state after an attempt to buy the one-time item at `index`.
pub open spec fn tried_clicker_item(s: UserStateView, index: int) -> UserStateView {
    if clicker_item_outcome(s, index) == Purchase::Purchased {
        bought_clicker_item(s, index)
    } else {
        s
    }
}

impl UserState {
    /// A fresh state with the given catalogue, last updated at `now`.
    pub fn new_at(items: Vec<Item>, clicker_items: Vec<ClickerItem>, now: u64) -> (state:
        UserState)
        ensures
            state@ == fresh(item_views(items@), clicker_views(clicker_items@), now as nat),
    {
        let state = UserState {
            spice: 0,
            items,
            clicker_items,
            sps: 0,
            spc: UNITS_PER_SPICE,
            time_last_updated: now,
            owned_clicker_items: Vec::new(),
        };
        assert(state@.owned_clicker_items =~= Seq::empty());
        state
    }

    /// A fresh state with the given catalogue, last updated at the moment
    /// the clock of the machine shows.
    pub fn new(items: Vec<Item>, clicker_items: Vec<ClickerItem>) -> (state: UserState)
        ensures
            state@ == fresh(
                item_views(items@),
                clicker_views(clicker_items@),
                state@.time_last_updated,
            ),
    {
        UserState::new_at(items, clicker_items, now_nanos())
    }

    /// A state put together from what was saved of it.
    pub fn from_saved(
        spice: u128,
        items: Vec<Item>,
        clicker_items: Vec<ClickerItem>,
        sps: u128,
        spc: u128,
        time_last_updated: u64,
        owned_clicker_items: Vec<ClickerItem>,
    ) -> (state: UserState)
        ensures
            state@ == (UserStateView {
                spice: spice as nat,
                items: item_views(items@),
                clicker_items: clicker_views(clicker_items@),
                sps: sps as nat,
                spc: spc as nat,
                time_last_updated: time_last_updated as nat,
                owned_clicker_items: clicker_views(owned_clicker_items@),
            }),
    {
        UserState {
            spice,
            items,
            clicker_items,
            sps,
            spc,
            time_last_updated,
            owned_clicker_items,
        }
    }

    /// The spice the player has, in amount units.
    pub fn get_spice(&self) -> (spice: u128)
        ensures
            spice == self@.spice,
    {
        self.spice
    }

    /// The rate as last computed, in hundredths of a spice per second.
    pub fn get_sps(&self) -> (sps: u128)
        ensures
            sps == self@.sps,
    {
        self.sps
    }

    /// What one click yields, in amount units.
    pub fn get_spc(&self) -> (spc: u128)
        ensures
            spc == self@.spc,
    {
        self.spc
    }

    /// When the state was last brought up to date, in nanoseconds since the
    /// epoch.
    pub fn get_time_last_updated(&self) -> (time: u64)
        ensures
            time == self@.time_last_updated,
    {
        self.time_last_updated
    }

    /// Notes `time` as the moment of the last update.
    pub fn set_time_last_updated(&mut self, time: u64)
        ensures
            final(self)@ == (UserStateView { time_last_updated: time as nat, ..old(self)@ }),
    {
        self.time_last_updated = time;
    }

    /// The number of stackable items in the shop.
    pub fn num_items(&self) -> (n: usize)
        ensures
            n == self@.items.len(),
    {
        self.items.len()
    }

    /// The number of one-time items still for sale.
    pub fn num_clicker_items(&self) -> (n: usize)
        ensures
            n == self@.clicker_items.len(),
    {
        self.clicker_items.len()
    }

    /// The number of all items that can be bought, stackable and one-time;
    /// `usize::MAX` where there are more.
    pub fn total_num_items(&self) -> (n: usize)
        ensures
            n == total_items(self@),
    {
        self.items.len().saturating_add(self.num_clicker_items())
    }

    /// The number of one-time items the player owns.
    pub fn num_owned_clicker_items(&self) -> (n: usize)
        ensures
            n == self@.owned_clicker_items.len(),
    {
        self.owned_clicker_items.len()
    }

    /// Computes the rate anew from the items owned.
    pub fn calculate_sps(&mut self)
        ensures
            final(self)@ == with_rate(old(self)@),
    {
        let mut total: u128 = 0;
        let mut i: usize = 0;
        while i < self.items.len()
            invariant
                i <= self.items.len(),
                total == capped(rate_micros(item_views(self.items@).take(i as int))),
            decreases self.items.len() - i,
        {
            let amt = self.items[i].get_amt();
            let worth = self.items[i].get_worth();
            assert(amt * worth <= 0xffff_ffff * 0xffff_ffff_ffff_ffff) by (nonlinear_arith)
                requires
                    amt <= 0xffff_ffff,
                    worth <= 0xffff_ffff_ffff_ffff,
            ;
            let term: u128 = (amt as u128) * (worth as u128);
            proof {
                let views = item_views(self.items@);
                assert(views.take(i + 1).drop_last() =~= views.take(i as int));
                assert(views.take(i + 1).last() == self.items@[i as int]@);
            }
            total = add_capped(total, term);
            i = i + 1;
        }
        proof {
            let views = item_views(self.items@);
            assert(views.take(i as int) =~= views);
        }
        self.sps = round_to_hundredths(total);
    }

    /// Gathers what one click yields.
    pub fn update_spice_by_click(&mut self)
        ensures
            final(self)@ == clicked(old(self)@),
    {
        self.spice = add_capped(self.spice, self.spc);
    }

    /// Gathers what `dt` nanoseconds yield at the rate of the items owned.
    /// A `dt` that is not positive changes nothing.
    pub fn update_spice(&mut self, dt: i128)
        ensures
            final(self)@ == elapsed(old(self)@, dt as int),
    {
        if dt <= 0 {
            return ;
        }
        self.calculate_sps();
        let gain = mul_capped(self.sps, dt as u128);
        self.spice = add_capped(self.spice, gain);
    }
    /// The stackable item at `index` of the shop.
    pub fn item(&self, index: usize) -> (item: Option<&Item>)
        ensures
            index < self@.items.len() ==> item.is_some() && item.unwrap()@
                == self@.items[index as int],
            index >= self@.items.len() ==> item.is_none(),
    {
        if index < self.items.len() {
            Some(&self.items[index])
        } else {
            None
        }
    }

    /// The one-time item at `index` of those still for sale.
    pub fn clicker_item(&self, index: usize) -> (item: Option<&ClickerItem>)
        ensures
            index < self@.clicker_items.len() ==> item.is_some() && item.unwrap()@
                == self@.clicker_items[index as int],
            index >= self@.clicker_items.len() ==> item.is_none(),
    {
        if index < self.clicker_items.len() {
            Some(&self.clicker_items[index])
        } else {
            None
        }
    }

    /// The one-time item at `index` of those the player owns.
    pub fn owned_clicker_item(&self, index: usize) -> (item: Option<&ClickerItem>)
        ensures
            index < self@.owned_clicker_items.len() ==> item.is_some() && item.unwrap()@
                == self@.owned_clicker_items[index as int],
            index >= self@.owned_clicker_items.len() ==> item.is_none(),
    {
        if index < self.owned_clicker_items.len() {
            Some(&self.owned_clicker_items[index])
        } else {
            None
        }
    }

    /// Tries to buy the stackable item at `item_index`. Where the shop has
    /// no such item, or its price is more than the player has, nothing
    /// changes.
    pub fn buy_item(&mut self, item_index: usize) -> (outcome: Purchase)
        ensures
            outcome == item_outcome(old(self)@, item_index as int),
            final(self)@ == tried_item(old(self)@, item_index as int),
    {
        if item_index >= self.items.len() {
            return Purchase::NoSuchItem;
        }
        let price: u128 = (self.items[item_index].get_cost() as u128) * UNITS_PER_SPICE;
        if price > self.spice {
            return Purchase::NotEnoughSpice;
        }
        self.spice = self.spice - price;
        self.items[item_index].purchase();
        proof {
            assert(item_views(self.items@) =~= item_views(old(self).items@).update(
                item_index as int,
                purchased(old(self).items@[item_index as int]@),
            ));
        }
        Purchase::Purchased
    }

    /// Tries to buy the one-time item at `clicker_item_index` of those still
    /// for sale. Where there is no such item, or its price is more than the
    /// player has, nothing changes.
    pub fn buy_clicker_item(&mut self, clicker_item_index: usize) -> (outcome: Purchase)
        ensures
            outcome == clicker_item_outcome(old(self)@, clicker_item_index as int),
            final(self)@ == tried_clicker_item(old(self)@, clicker_item_index as int),
    {
        if clicker_item_index >= self.clicker_items.len() {
            return Purchase::NoSuchItem;
        }
        let price: u128 = (self.clicker_items[clicker_item_index].get_cost() as u128)
            * UNITS_PER_SPICE;
        if price > self.spice {
            return Purchase::NotEnoughSpice;
        }
        self.spice = self.spice - price;
        self.spc = scale_capped(
            self.spc,
            self.clicker_items[clicker_item_index].get_multiplier(),
        );
        let bought = self.clicker_items.remove(clicker_item_index);
        self.owned_clicker_items.push(bought);
        proof {
            assert(clicker_views(self.clicker_items@) =~= clicker_views(
                old(self).clicker_items@,
            ).remove(clicker_item_index as int));
            assert(clicker_views(self.owned_clicker_items@) =~= clicker_views(
                old(self).owned_clicker_items@,
            ).push(old(self).clicker_items@[clicker_item_index as int]@));
        }
        Purchase::Purchased
    }
}

} // verus!
