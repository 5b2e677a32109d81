use flowsurface::exchange::depth::{Depth, DepthPayload, DepthUpdate, LocalDepthCache, Order};
use flowsurface::exchanges::depth::{LocalDepthCache as CacheB, TempLocalDepth};

fn o(price: f32, qty: f32) -> Order {
    Order { price: price.to_bits(), qty: qty.to_bits() }
}

fn payload(id: u64, bids: Vec<Order>, asks: Vec<Order>) -> DepthPayload {
    DepthPayload { last_update_id: id, time: id * 10, bids, asks }
}

#[test]
fn snapshot_then_diff() {
    let mut cache = LocalDepthCache::default();
    cache.update(DepthUpdate::Snapshot(payload(
        5,
        vec![o(100.0, 1.0), o(99.5, 2.0)],
        vec![o(100.5, 3.0)],
    )));
    assert_eq!(cache.last_update_id, 5);
    assert_eq!(cache.depth.bids.len(), 2);
    cache.update(DepthUpdate::Diff(payload(
        6,
        vec![o(100.0, 0.0), o(99.0, 4.0)],
        vec![o(100.5, 1.5)],
    )));
    assert_eq!(cache.last_update_id, 6);
    assert_eq!(cache.time, 60);
    assert!(!cache.depth.bids.contains_key(&100.0f32.to_bits()));
    assert_eq!(cache.depth.bids[&99.0f32.to_bits()], 4.0f32.to_bits());
    assert_eq!(cache.depth.asks[&100.5f32.to_bits()], 1.5f32.to_bits());
}

#[test]
fn diff_last_level_wins_and_negative_zero_removes() {
    let mut d = Depth::default();
    d.update(&payload(1, vec![o(10.0, 1.0), o(10.0, 2.0)], vec![]));
    assert_eq!(d.bids[&10.0f32.to_bits()], 2.0f32.to_bits());
    d.update(&payload(2, vec![o(10.0, -0.0)], vec![]));
    assert!(d.bids.is_empty());
}

#[test]
fn snapshot_keeps_zero_levels() {
    let mut d = Depth::default();
    d.replace_all(&payload(1, vec![o(10.0, 0.0)], vec![]));
    assert_eq!(d.bids.len(), 1);
}

#[test]
fn bit_order_is_price_order() {
    assert!(99.5f32.to_bits() < 100.0f32.to_bits());
    assert!(0.0001f32.to_bits() < 65000.0f32.to_bits());
}

#[test]
fn second_cache_fetched_and_updated() {
    let mut c = CacheB::new();
    assert_eq!(c.get_fetch_id(), 0);
    c.fetched(&TempLocalDepth {
        last_update_id: 7,
        time: 70,
        bids: vec![o(1.0, 1.0)],
        asks: vec![o(2.0, 1.0)],
    });
    assert_eq!(c.get_fetch_id(), 7);
    c.update_depth_cache(&TempLocalDepth {
        last_update_id: 8,
        time: 80,
        bids: vec![o(1.0, 0.0)],
        asks: vec![o(2.5, 3.0)],
    });
    let d = c.get_depth();
    assert!(d.bids.is_empty());
    assert_eq!(d.asks.len(), 2);
    assert_eq!(c.time, 80);
}
