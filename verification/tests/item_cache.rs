use std::cell::Cell;

use sixtyfps_gl_backend::image_cache::GpuImage;
use sixtyfps_gl_backend::item_cache::{CachedImage, GPUCachedData, ItemRenderingCache};

fn image(handle: u64) -> GpuImage {
    GpuImage { handle, width: 10, height: 10 }
}

#[test]
fn ensure_up_to_date_computes_exactly_once_until_released() {
    let mut cache = ItemRenderingCache::new();
    let slot = cache.allocate();
    let calls = Cell::new(0u32);
    let compute = || {
        calls.set(calls.get() + 1);
        Some(GPUCachedData::Image(CachedImage { key: None, image: image(5) }))
    };
    let first = cache.ensure_up_to_date(slot, compute);
    assert_eq!(first, Some(image(5)));
    assert_eq!(calls.get(), 1);

    // A second request answers from the slot: the callback is not
    // invoked, whatever it would produce.
    let second = cache.ensure_up_to_date(slot, || {
        calls.set(calls.get() + 1);
        Some(GPUCachedData::Image(CachedImage { key: None, image: image(99) }))
    });
    assert_eq!(second, Some(image(5)));
    assert_eq!(calls.get(), 1);

    // After a release the next request computes again.
    let dropped = cache.release(slot);
    assert_eq!(dropped.map(|ci| ci.image), Some(image(5)));
    let third = cache.ensure_up_to_date(slot, || {
        calls.set(calls.get() + 1);
        Some(GPUCachedData::Image(CachedImage { key: None, image: image(6) }))
    });
    assert_eq!(third, Some(image(6)));
    assert_eq!(calls.get(), 2);
}

#[test]
fn a_computation_without_result_stores_nothing() {
    let mut cache = ItemRenderingCache::new();
    let slot = cache.allocate();
    let calls = Cell::new(0u32);
    assert_eq!(cache.ensure_up_to_date(slot, || {
        calls.set(calls.get() + 1);
        None
    }), None);
    // Nothing was stored, so the next request computes again.
    assert_eq!(cache.ensure_up_to_date(slot, || {
        calls.set(calls.get() + 1);
        Some(GPUCachedData::Image(CachedImage { key: None, image: image(1) }))
    }), Some(image(1)));
    assert_eq!(calls.get(), 2);
}

#[test]
fn releasing_an_empty_slot_changes_nothing() {
    let mut cache = ItemRenderingCache::new();
    let slot = cache.allocate();
    assert!(cache.release(slot).is_none());
    assert_eq!(cache.cached_image(slot), None);
}

#[test]
fn slots_are_independent() {
    let mut cache = ItemRenderingCache::new();
    let a = cache.allocate();
    let b = cache.allocate();
    assert_ne!(a, b);
    cache.ensure_up_to_date(a, || {
        Some(GPUCachedData::Image(CachedImage { key: None, image: image(1) }))
    });
    assert_eq!(cache.cached_image(a), Some(image(1)));
    assert_eq!(cache.cached_image(b), None);
    cache.release(a);
    assert_eq!(cache.cached_image(a), None);
}
