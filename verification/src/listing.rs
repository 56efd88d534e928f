//! The inventory and the shop as text.
use vstd::prelude::*;
use vstd::string::StringExecFns;
use crate::clickeritem::{clicker_inventory_line, clicker_shop_line, ClickerItemView};
use crate::item::{inventory_line, shop_line, ItemView};
use crate::text::{decimal_text, push_char, push_decimal};
use crate::userstate::{UserState, UserStateView};

verus! {

/// One inventory line, closed by a line feed, for each stackable item of
/// which at least one is owned, in the order of the shop.
pub open spec fn owned_items_text(items: Seq<ItemView>) -> Seq<char>
    decreases items.len(),
{
    if items.len() == 0 {
        Seq::<char>::empty()
    } else if items.last().amt == 0 {
        owned_items_text(items.drop_last())
    } else {
        owned_items_text(items.drop_last()) + inventory_line(items.last()) + seq!['\n']
    }
}

/// One inventory line, closed by a line feed, for each one-time item owned,
/// in the order of purchase.
pub open spec fn owned_clickers_text(owned: Seq<ClickerItemView>) -> Seq<char>
    decreases owned.len(),
{
    if owned.len() == 0 {
        Seq::<char>::empty()
    } else {
        owned_clickers_text(owned.drop_last()) + clicker_inventory_line(owned.last())
            + seq!['\n']
    }
}

/// The player owns nothing: no stackable item and no one-time item.
pub open spec fn nothing_owned(s: UserStateView) -> bool {
    &&& forall|i: int| 0 <= i < s.items.len() ==> (#[trigger] s.items[i]).amt == 0
    &&& s.owned_clicker_items.len() == 0
}

/// The inventory: a heading, then what is owned, stackable items first, or
/// a line that says that nothing is.
pub open spec fn inventory_text(s: UserStateView) -> Seq<char> {
    if nothing_owned(s) {
        "---Inventory---\n"@ + "Inventory is empty\n"@
    } else {
        "---Inventory---\n"@ + owned_items_text(s.items) + owned_clickers_text(
            s.owned_clicker_items,
        )
    }
}

/// One shop line for each stackable item, numbered from `first` on.
pub open spec fn numbered_items_text(items: Seq<ItemView>, first: nat) -> Seq<char>
    decreases items.len(),
{
    if items.len() == 0 {
        Seq::<char>::empty()
    } else {
        numbered_items_text(items.drop_last(), first) + decimal_text(
            (first + items.len() - 1) as nat,
        ) + ". "@ + shop_line(items.last()) + seq!['\n']
    }
}

/// One shop line for each one-time item, numbered from `first` on.
pub open spec fn numbered_clickers_text(items: Seq<ClickerItemView>, first: nat) -> Seq<char>
    decreases items.len(),
{
    if items.len() == 0 {
        Seq::<char>::empty()
    } else {
        numbered_clickers_text(items.drop_last(), first) + decimal_text(
            (first + items.len() - 1) as nat,
        ) + ". "@ + clicker_shop_line(items.last()) + seq!['\n']
    }
}

/// The shop: a heading, then every stackable item and behind them every
/// one-time item still for sale, numbered from one on without a gap.
pub open spec fn shop_text(s: UserStateView) -> Seq<char> {
    "---Shop---\n"@ + numbered_items_text(s.items, 1) + numbered_clickers_text(
        s.clicker_items,
        1 + s.items.len(),
    )
}

impl UserState {
    /// The inventory as text.
    pub fn list_inventory(&self) -> (text: String)
        ensures
            text@ == inventory_text(self@),
    {
        let mut text = String::from_str("---Inventory---\n");
        let mut any = false;
        let n = self.num_items();
        let mut i: usize = 0;
        while i < n
            invariant
                i <= n,
                n == self@.items.len(),
                text@ == "---Inventory---\n"@ + owned_items_text(self@.items.take(i as int)),
                any <==> exists|j: int| 0 <= j < i && (#[trigger] self@.items[j]).amt != 0,
            decreases n - i,
        {
            proof {
                assert(self@.items.take(i + 1).drop_last() =~= self@.items.take(i as int));
            }
            match self.item(i) {
                Some(item) => {
                    if item.get_amt() != 0 {
                        let line = item.info_in_inventory();
                        text.append(line.as_str());
                        push_char(&mut text, '\n');
                        any = true;
                    }
                },
                None => {},
            }
            i = i + 1;
        }
        proof {
            assert(self@.items.take(n as int) =~= self@.items);
        }
        let m = self.num_owned_clicker_items();
        let mut k: usize = 0;
        while k < m
            invariant
                k <= m,
                m == self@.owned_clicker_items.len(),
                text@ == "---Inventory---\n"@ + owned_items_text(self@.items)
                    + owned_clickers_text(self@.owned_clicker_items.take(k as int)),
            decreases m - k,
        {
            proof {
                assert(self@.owned_clicker_items.take(k + 1).drop_last()
                    =~= self@.owned_clicker_items.take(k as int));
            }
            match self.owned_clicker_item(k) {
                Some(item) => {
                    let line = item.info_in_inventory();
                    text.append(line.as_str());
                    push_char(&mut text, '\n');
                },
                None => {},
            }
            k = k + 1;
        }
        proof {
            assert(self@.owned_clicker_items.take(m as int) =~= self@.owned_clicker_items);
        }
        if !any && m == 0 {
            proof {
                lemma_nothing_listed(self@.items);
            }
            text.append("Inventory is empty\n");
        }
        text
    }

    /// The shop as text.
    pub fn list_shop(&self) -> (text: String)
        ensures
            text@ == shop_text(self@),
    {
        let mut text = String::from_str("---Shop---\n");
        let n = self.num_items();
        let mut i: usize = 0;
        while i < n
            invariant
                i <= n,
                n == self@.items.len(),
                text@ == "---Shop---\n"@ + numbered_items_text(self@.items.take(i as int), 1),
            decreases n - i,
        {
            proof {
                assert(self@.items.take(i + 1).drop_last() =~= self@.items.take(i as int));
            }
            match self.item(i) {
                Some(item) => {
                    push_decimal(&mut text, i as u128 + 1);
                    text.append(". ");
                    let line = item.info_in_shop();
                    text.append(line.as_str());
                    push_char(&mut text, '\n');
                },
                None => {},
            }
            i = i + 1;
        }
        proof {
            assert(self@.items.take(n as int) =~= self@.items);
        }
        let m = self.num_clicker_items();
        let mut k: usize = 0;
        while k < m
            invariant
                k <= m,
                n == self@.items.len(),
                m == self@.clicker_items.len(),
                text@ == "---Shop---\n"@ + numbered_items_text(self@.items, 1)
                    + numbered_clickers_text(
                    self@.clicker_items.take(k as int),
                    1 + self@.items.len(),
                ),
            decreases m - k,
        {
            proof {
                assert(self@.clicker_items.take(k + 1).drop_last() =~= self@.clicker_items.take(
                    k as int,
                ));
            }
            match self.clicker_item(k) {
                Some(item) => {
                    push_decimal(&mut text, n as u128 + k as u128 + 1);
                    text.append(". ");
                    let line = item.info_in_shop();
                    text.append(line.as_str());
                    push_char(&mut text, '\n');
                },
                None => {},
            }
            k = k + 1;
        }
        proof {
            assert(self@.clicker_items.take(m as int) =~= self@.clicker_items);
        }
        text
    }
}

/// Where no stackable item is owned, none is listed.
pub proof fn lemma_nothing_listed(items: Seq<ItemView>)
    requires
        forall|i: int| 0 <= i < items.len() ==> (#[trigger] items[i]).amt == 0,
    ensures
        owned_items_text(items) == Seq::<char>::empty(),
    decreases items.len(),
{
    if items.len() > 0 {
        lemma_nothing_listed(items.drop_last());
    }
}

} // verus!
