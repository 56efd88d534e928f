//! What holds of the game whatever the player does.
use vstd::prelude::*;
use crate::amount::scaled;
use crate::command::{selection_of, Selection};
use crate::item::{grown_cost, purchased, ItemView};
use crate::userstate::{clicked, elapsed, price_units, rate_of};
use crate::userstate::{clicker_item_outcome, item_outcome, tried_clicker_item, tried_item};
use crate::userstate::{total_items, with_rate, Purchase, UserStateView};

verus! {

/// An item after `n` purchases in a row.
pub open spec fn purchased_times(item: ItemView, n: nat) -> ItemView
    decreases n,
{
    if n == 0 {
        item
    } else {
        purchased(purchased_times(item, (n - 1) as nat))
    }
}

/// The grown price is the old price times 1.15, rounded up to a whole
/// number: the least whole number that is no less than that product.
pub proof fn lemma_grown_cost_is_ceiling(cost: nat)
    ensures
        100 * grown_cost(cost) >= 115 * cost,
        100 * (grown_cost(cost) - 1) < 115 * cost,
{
}

/// After a purchase the price is the old price times 1.15, rounded up,
/// unless that is more than the price can hold, and it is never less than
/// the old price.
pub proof fn lemma_purchase_grows_cost(item: ItemView)
    requires
        item.cost <= u32::MAX,
    ensures
        grown_cost(item.cost) <= u32::MAX ==> purchased(item).cost == grown_cost(item.cost),
        purchased(item).cost >= item.cost,
        purchased(item).cost <= u32::MAX,
{
}

/// Over any run of purchases the price never falls.
pub proof fn lemma_cost_never_falls(item: ItemView, m: nat, n: nat)
    requires
        item.cost <= u32::MAX,
        m <= n,
    ensures
        purchased_times(item, m).cost <= purchased_times(item, n).cost,
        purchased_times(item, n).cost <= u32::MAX,
    decreases n,
{
    if n == 0 {
    } else if m == n {
        lemma_cost_never_falls(item, (n - 1) as nat, (n - 1) as nat);
        lemma_purchase_grows_cost(purchased_times(item, (n - 1) as nat));
    } else {
        lemma_cost_never_falls(item, m, (n - 1) as nat);
        lemma_purchase_grows_cost(purchased_times(item, (n - 1) as nat));
    }
}

/// Computing the rate twice in a row gives what computing it once gives.
pub proof fn lemma_rate_is_idempotent(s: UserStateView)
    ensures
        with_rate(with_rate(s)) == with_rate(s),
{
}

/// The rate depends on the stackable items alone.
pub proof fn lemma_rate_follows_items(s: UserStateView, t: UserStateView)
    requires
        s.items == t.items,
    ensures
        with_rate(s).sps == with_rate(t).sps,
{
}

/// Time that is not positive changes nothing.
pub proof fn lemma_no_time_no_change(s: UserStateView, dt: int)
    requires
        dt <= 0,
    ensures
        elapsed(s, dt) == s,
{
}

/// Positive time adds exactly rate times time to the spice, the rate being
/// the one computed anew, as long as the amount can hold the sum. Nothing
/// but the spice and the rate changes.
pub proof fn lemma_elapsed_gain(s: UserStateView, dt: int)
    requires
        dt > 0,
        s.spice + rate_of(s.items) * dt <= u128::MAX,
    ensures
        elapsed(s, dt).sps == rate_of(s.items),
        elapsed(s, dt).spice == s.spice + elapsed(s, dt).sps * dt,
        elapsed(s, dt) == (UserStateView {
            spice: elapsed(s, dt).spice,
            sps: elapsed(s, dt).sps,
            ..s
        }),
{
    assert(rate_of(s.items) * dt >= 0) by (nonlinear_arith)
        requires
            rate_of(s.items) >= 0,
            dt > 0,
    ;
}

/// Many short spans of time yield what one long span yields: two spans one
/// after the other leave the state that their sum leaves.
pub proof fn lemma_elapsed_adds(s: UserStateView, a: int, b: int)
    requires
        a > 0,
        b > 0,
        s.spice + rate_of(s.items) * (a + b) <= u128::MAX,
    ensures
        elapsed(elapsed(s, a), b) == elapsed(s, a + b),
{
    let r = rate_of(s.items);
    assert(r * (a + b) == r * a + r * b) by (nonlinear_arith);
    assert(r * a >= 0 && r * b >= 0) by (nonlinear_arith)
        requires
            r >= 0,
            a > 0,
            b > 0,
    ;
}

/// An attempt to buy a stackable item never takes more spice than the
/// player has: where it succeeds, what is left and the price make up what
/// was there.
pub proof fn lemma_item_price_is_paid(s: UserStateView, index: int)
    requires
        item_outcome(s, index) == Purchase::Purchased,
    ensures
        tried_item(s, index).spice + price_units(s.items[index].cost) == s.spice,
        tried_item(s, index).items[index] == purchased(s.items[index]),
        tried_item(s, index).items.len() == s.items.len(),
        forall|j: int|
            0 <= j < s.items.len() && j != index ==> tried_item(s, index).items[j] == s.items[j],
{
}

/// An attempt to buy a stackable item that costs more than the player has
/// changes nothing.
pub proof fn lemma_item_too_dear(s: UserStateView, index: int)
    requires
        0 <= index < s.items.len(),
        price_units(s.items[index].cost) > s.spice,
    ensures
        item_outcome(s, index) == Purchase::NotEnoughSpice,
        tried_item(s, index) == s,
{
}

/// An attempt to buy a one-time item never takes more spice than the player
/// has: where it succeeds, what is left and the price make up what was
/// there, and the item has gone from the shop to the end of what is owned,
/// the order of the others kept.
pub proof fn lemma_clicker_item_price_is_paid(s: UserStateView, index: int)
    requires
        clicker_item_outcome(s, index) == Purchase::Purchased,
    ensures
        tried_clicker_item(s, index).spice + price_units(s.clicker_items[index].cost)
            == s.spice,
        tried_clicker_item(s, index).clicker_items.len() + 1 == s.clicker_items.len(),
        tried_clicker_item(s, index).owned_clicker_items.len() == s.owned_clicker_items.len()
            + 1,
        tried_clicker_item(s, index).owned_clicker_items.last() == s.clicker_items[index],
        forall|j: int|
            0 <= j < index ==> tried_clicker_item(s, index).clicker_items[j]
                == s.clicker_items[j],
        forall|j: int|
            index <= j < s.clicker_items.len() - 1 ==> tried_clicker_item(
                s,
                index,
            ).clicker_items[j] == s.clicker_items[j + 1],
        forall|j: int|
            0 <= j < s.owned_clicker_items.len() ==> tried_clicker_item(
                s,
                index,
            ).owned_clicker_items[j] == s.owned_clicker_items[j],
{
}

/// An attempt to buy a one-time item that costs more than the player has
/// changes nothing.
pub proof fn lemma_clicker_item_too_dear(s: UserStateView, index: int)
    requires
        0 <= index < s.clicker_items.len(),
        price_units(s.clicker_items[index].cost) > s.spice,
    ensures
        clicker_item_outcome(s, index) == Purchase::NotEnoughSpice,
        tried_clicker_item(s, index) == s,
{
}

/// Nothing but the purchase of a one-time item changes the worth of a
/// click.
pub proof fn lemma_click_worth_is_kept(s: UserStateView, index: int, dt: int)
    ensures
        clicked(s).spc == s.spc,
        elapsed(s, dt).spc == s.spc,
        with_rate(s).spc == s.spc,
        tried_item(s, index).spc == s.spc,
        clicker_item_outcome(s, index) != Purchase::Purchased ==> tried_clicker_item(
            s,
            index,
        ).spc == s.spc,
{
}

/// The purchase of a one-time item multiplies the worth of a click by the
/// item's multiplier, and a multiplier of one or more never lowers it.
pub proof fn lemma_click_worth_never_falls(s: UserStateView, index: int)
    requires
        s.spc <= u128::MAX,
        clicker_item_outcome(s, index) == Purchase::Purchased,
    ensures
        scaled(s.spc, s.clicker_items[index].multiplier) <= u128::MAX ==> tried_clicker_item(
            s,
            index,
        ).spc == scaled(s.spc, s.clicker_items[index].multiplier),
        s.clicker_items[index].multiplier >= 1_000_000 ==> tried_clicker_item(s, index).spc
            >= s.spc,
        s.clicker_items[index].multiplier == 1_000_000 ==> tried_clicker_item(s, index).spc
            == s.spc,
{
    let m = s.clicker_items[index].multiplier;
    if m >= 1_000_000 {
        assert(s.spc * m >= s.spc * 1_000_000) by (nonlinear_arith)
            requires
                m >= 1_000_000,
                s.spc >= 0,
        ;
        assert(scaled(s.spc, m) >= s.spc);
    }
}

/// Every number that the shop shows chooses an item that is there, the
/// stackable items first and the one-time items behind them without a gap;
/// every other number chooses none.
pub proof fn lemma_selection_matches_shop(s: UserStateView, number: nat)
    requires
        s.items.len() + s.clicker_items.len() <= usize::MAX,
    ensures
        1 <= number <= s.items.len() ==> selection_of(number, s.items.len(), total_items(s))
            == Selection::Item((number - 1) as usize),
        s.items.len() < number <= s.items.len() + s.clicker_items.len() ==> selection_of(
            number,
            s.items.len(),
            total_items(s),
        ) == Selection::ClickerItem((number - s.items.len() - 1) as usize),
        number == 0 || number > s.items.len() + s.clicker_items.len() ==> selection_of(
            number,
            s.items.len(),
            total_items(s),
        ) == Selection::Invalid,
{
}

} // verus!
