use vstd::prelude::*;
use std::collections::BTreeMap;

pub use crate::exchange::depth::{Depth, Order};
use crate::exchange::depth::{apply_levels, snapshot_levels, is_zero_qty};

verus! {

broadcast use vstd::laws_cmp::group_laws_cmp;

/// A depth message as fetched or streamed, before it is applied.
#[derive(Debug, Clone, Default)]
pub struct TempLocalDepth {
    pub last_update_id: u64,
    pub time: u64,
    pub bids: Vec<Order>,
    pub asks: Vec<Order>,
}

/// An order book with the id and time of the last message applied.
#[derive(Debug, Clone, Default)]
pub struct LocalDepthCache {
    pub last_update_id: u64,
    pub time: u64,
    pub bids: BTreeMap<u32, u32>,
    pub asks: BTreeMap<u32, u32>,
}

impl LocalDepthCache {
    /// An empty book that has applied no message.
    pub fn new() -> (c: Self)
        ensures
            c.last_update_id == 0,
            c.time == 0,
            c.bids@ == Map::<u32, u32>::empty(),
            c.asks@ == Map::<u32, u32>::empty(),
    {
        Self { last_update_id: 0, time: 0, bids: BTreeMap::new(), asks: BTreeMap::new() }
    }

    /// Replaces the book with a fetched snapshot.
    pub fn fetched(&mut self, new_depth: &TempLocalDepth)
        ensures
            final(self).last_update_id == new_depth.last_update_id,
            final(self).time == new_depth.time,
            final(self).bids@ == snapshot_levels(new_depth.bids@),
            final(self).asks@ == snapshot_levels(new_depth.asks@),
    {
        self.last_update_id = new_depth.last_update_id;
        self.time = new_depth.time;
        let mut snapshot = Depth { bids: BTreeMap::new(), asks: BTreeMap::new() };
        let payload = crate::exchange::depth::DepthPayload {
            last_update_id: new_depth.last_update_id,
            time: new_depth.time,
            bids: new_depth.bids.clone(),
            asks: new_depth.asks.clone(),
        };
        snapshot.replace_all(&payload);
        self.bids = snapshot.bids;
        self.asks = snapshot.asks;
    }

    /// Applies a streamed diff.
    pub fn update_depth_cache(&mut self, new_depth: &TempLocalDepth)
        ensures
            final(self).last_update_id == new_depth.last_update_id,
            final(self).time == new_depth.time,
            final(self).bids@ == apply_levels(old(self).bids@, new_depth.bids@),
            final(self).asks@ == apply_levels(old(self).asks@, new_depth.asks@),
    {
        self.last_update_id = new_depth.last_update_id;
        self.time = new_depth.time;
        Self::update_price_levels(&mut self.bids, &new_depth.bids);
        Self::update_price_levels(&mut self.asks, &new_depth.asks);
    }

    fn update_price_levels(price_map: &mut BTreeMap<u32, u32>, orders: &Vec<Order>)
        ensures
            final(price_map)@ == apply_levels(old(price_map)@, orders@),
    {
        let mut i: usize = 0;
        while i < orders.len()
            invariant
                0 <= i <= orders.len(),
                price_map@ == apply_levels(old(price_map)@, orders@.subrange(0, i as int)),
            decreases orders.len() - i,
        {
            let order = orders[i];
            if order.qty & 0x7fff_ffffu32 == 0 {
                price_map.remove(&order.price);
            } else {
                price_map.insert(order.price, order.qty);
            }
            assert(orders@.subrange(0, i + 1).drop_last() =~= orders@.subrange(0, i as int));
            i = i + 1;
        }
        assert(orders@.subrange(0, orders.len() as int) =~= orders@);
    }

    /// The update id of the last message applied.
    pub fn get_fetch_id(&self) -> (id: u64)
        ensures
            id == self.last_update_id,
    {
        self.last_update_id
    }

    /// A copy of both sides of the book.
    pub fn get_depth(&self) -> (d: Depth)
        ensures
            d.bids@ == self.bids@,
            d.asks@ == self.asks@,
    {
        Depth { bids: self.bids.clone(), asks: self.asks.clone() }
    }
}

} // verus!
