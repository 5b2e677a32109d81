use vstd::prelude::*;
use std::collections::BTreeMap;

verus! {

broadcast use vstd::laws_cmp::group_laws_cmp;

/// One price level of an order book message. `price` is a key that orders
/// as the prices do (one key for each price, zero of either sign being one
/// price), so a price level is ordered and found by its key; `qty` holds the
/// IEEE-754 bit pattern of the quantity the exchange sent.
#[derive(Debug, Clone, Copy, PartialEq, Eq, Structural)]
pub struct Order {
    pub price: u32,
    pub qty: u32,
}

/// Whether a quantity bit pattern stands for zero (either sign).
pub open spec fn is_zero_qty(qty: u32) -> bool {
    qty & 0x7fff_ffffu32 == 0
}

/// One price level applied as a diff: a zero quantity removes the level,
/// any other quantity sets it.
pub open spec fn apply_level(m: Map<u32, u32>, o: Order) -> Map<u32, u32> {
    if is_zero_qty(o.qty) {
        m.remove(o.price)
    } else {
        m.insert(o.price, o.qty)
    }
}

/// A sequence of levels applied as a diff, first to last.
pub open spec fn apply_levels(m: Map<u32, u32>, orders: Seq<Order>) -> Map<u32, u32>
    decreases orders.len(),
{
    if orders.len() == 0 {
        m
    } else {
        apply_level(apply_levels(m, orders.drop_last()), orders.last())
    }
}

/// The book side a snapshot describes: every level is taken as given, a
/// later level for the same price replacing an earlier one.
pub open spec fn snapshot_levels(orders: Seq<Order>) -> Map<u32, u32>
    decreases orders.len(),
{
    if orders.len() == 0 {
        Map::empty()
    } else {
        snapshot_levels(orders.drop_last()).insert(orders.last().price, orders.last().qty)
    }
}

/// A depth message: the update id it brings the book to, its time, and the
/// bid and ask levels.
#[derive(Debug, Clone)]
pub struct DepthPayload {
    pub last_update_id: u64,
    pub time: u64,
    pub bids: Vec<Order>,
    pub asks: Vec<Order>,
}

/// A full order book snapshot, or a diff against the current book.
#[derive(Debug, Clone)]
pub enum DepthUpdate {
    Snapshot(DepthPayload),
    Diff(DepthPayload),
}

/// Both sides of an order book, price level to quantity.
#[derive(Clone, Default)]
pub struct Depth {
    pub bids: BTreeMap<u32, u32>,
    pub asks: BTreeMap<u32, u32>,
}

fn is_zero_quantity(qty: u32) -> (z: bool)
    ensures
        z == is_zero_qty(qty),
{
    qty & 0x7fff_ffffu32 == 0
}

impl Depth {
    /// Applies the bid and ask levels of a diff.
    pub fn update(&mut self, diff: &DepthPayload)
        ensures
            final(self).bids@ == apply_levels(old(self).bids@, diff.bids@),
            final(self).asks@ == apply_levels(old(self).asks@, diff.asks@),
    {
        Self::diff_price_levels(&mut self.bids, &diff.bids);
        Self::diff_price_levels(&mut self.asks, &diff.asks);
    }

    fn diff_price_levels(price_map: &mut BTreeMap<u32, u32>, orders: &Vec<Order>)
        ensures
            final(price_map)@ == apply_levels(old(price_map)@, orders@),
    {
        let mut i: usize = 0;
        while i < orders.len()
            invariant
                0 <= i <= orders.len(),
                price_map@ == apply_levels(old(price_map)@, orders@.subrange(0, i as int)),
            decreases orders.len() - i,
        {
            let order = orders[i];
            if is_zero_quantity(order.qty) {
                price_map.remove(&order.price);
            } else {
                price_map.insert(order.price, order.qty);
            }
            assert(orders@.subrange(0, i + 1).drop_last() =~= orders@.subrange(0, i as int));
            i = i + 1;
        }
        assert(orders@.subrange(0, orders.len() as int) =~= orders@);
    }

    fn levels_from(orders: &Vec<Order>) -> (m: BTreeMap<u32, u32>)
        ensures
            m@ == snapshot_levels(orders@),
    {
        let mut m: BTreeMap<u32, u32> = BTreeMap::new();
        let mut i: usize = 0;
        while i < orders.len()
            invariant
                0 <= i <= orders.len(),
                m@ == snapshot_levels(orders@.subrange(0, i as int)),
            decreases orders.len() - i,
        {
            let order = orders[i];
            m.insert(order.price, order.qty);
            assert(orders@.subrange(0, i + 1).drop_last() =~= orders@.subrange(0, i as int));
            i = i + 1;
        }
        assert(orders@.subrange(0, orders.len() as int) =~= orders@);
        m
    }

    /// Replaces both sides with the levels of a snapshot.
    pub fn replace_all(&mut self, snapshot: &DepthPayload)
        ensures
            final(self).bids@ == snapshot_levels(snapshot.bids@),
            final(self).asks@ == snapshot_levels(snapshot.asks@),
    {
        self.bids = Self::levels_from(&snapshot.bids);
        self.asks = Self::levels_from(&snapshot.asks);
    }
}

/// An order book with the id and time of the last message applied.
#[derive(Default)]
pub struct LocalDepthCache {
    pub last_update_id: u64,
    pub time: u64,
    pub depth: Depth,
}

impl LocalDepthCache {
    /// Applies a snapshot or a diff, and takes over its id and time.
    pub fn update(&mut self, new_depth: DepthUpdate)
        ensures
            match new_depth {
                DepthUpdate::Snapshot(p) => {
                    &&& final(self).last_update_id == p.last_update_id
                    &&& final(self).time == p.time
                    &&& final(self).depth.bids@ == snapshot_levels(p.bids@)
                    &&& final(self).depth.asks@ == snapshot_levels(p.asks@)
                },
                DepthUpdate::Diff(p) => {
                    &&& final(self).last_update_id == p.last_update_id
                    &&& final(self).time == p.time
                    &&& final(self).depth.bids@ == apply_levels(old(self).depth.bids@, p.bids@)
                    &&& final(self).depth.asks@ == apply_levels(old(self).depth.asks@, p.asks@)
                },
            },
    {
        match new_depth {
            DepthUpdate::Snapshot(snapshot) => {
                self.last_update_id = snapshot.last_update_id;
                self.time = snapshot.time;
                self.depth.replace_all(&snapshot);
            },
            DepthUpdate::Diff(diff) => {
                self.last_update_id = diff.last_update_id;
                self.time = diff.time;
                self.depth.update(&diff);
            },
        }
    }
}


/// The last level for `price` in a message, if it names that price.
pub open spec fn last_level_at(orders: Seq<Order>, price: u32) -> Option<Order>
    decreases orders.len(),
{
    if orders.len() == 0 {
        None
    } else if orders.last().price == price {
        Some(orders.last())
    } else {
        last_level_at(orders.drop_last(), price)
    }
}

/// A diff writes each price it names, the last level for a price wins, and
/// every price it does not name keeps its quantity.
pub proof fn law_diff_last_level_wins(m: Map<u32, u32>, orders: Seq<Order>, price: u32)
    ensures
        ({
            let r = apply_levels(m, orders);
            match last_level_at(orders, price) {
                Some(o) => if is_zero_qty(o.qty) {
                    !r.contains_key(price)
                } else {
                    r.contains_key(price) && r[price] == o.qty
                },
                None => r.contains_key(price) == m.contains_key(price) && (m.contains_key(price)
                    ==> r[price] == m[price]),
            }
        }),
    decreases orders.len(),
{
    if orders.len() > 0 {
        law_diff_last_level_wins(m, orders.drop_last(), price);
    }
}

/// A snapshot holds exactly the prices it names, each with the quantity of
/// its last level.
pub proof fn law_snapshot_holds_last_levels(orders: Seq<Order>, price: u32)
    ensures
        ({
            let r = snapshot_levels(orders);
            match last_level_at(orders, price) {
                Some(o) => r.contains_key(price) && r[price] == o.qty,
                None => !r.contains_key(price),
            }
        }),
    decreases orders.len(),
{
    if orders.len() > 0 {
        law_snapshot_holds_last_levels(orders.drop_last(), price);
    }
}

/// A book side with no level of zero quantity keeps none after any diff.
pub proof fn law_diff_keeps_no_zero_levels(m: Map<u32, u32>, orders: Seq<Order>)
    requires
        forall|p: u32| #[trigger] m.contains_key(p) ==> !is_zero_qty(m[p]),
    ensures
        forall|p: u32| #[trigger] apply_levels(m, orders).contains_key(p) ==> !is_zero_qty(
            apply_levels(m, orders)[p],
        ),
    decreases orders.len(),
{
    if orders.len() > 0 {
        law_diff_keeps_no_zero_levels(m, orders.drop_last());
        let r0 = apply_levels(m, orders.drop_last());
        let r = apply_levels(m, orders);
        assert(r == apply_level(r0, orders.last()));
        assert forall|p: u32| #[trigger] r.contains_key(p) implies !is_zero_qty(r[p]) by {
            if p != orders.last().price {
                assert(r0.contains_key(p));
            }
        }
    }
}

} // verus!
