//! Per-item cache of GPU resources, one slot per drawable item.
//!
//! A slot memoizes the single GPU resource an item draws with. It is
//! filled lazily by the first draw's compute callback and cleared only
//! by an explicit release from whoever owns the item: the cache never
//! re-checks the item's source itself. What a released slot held is
//! handed back to the caller, so the image cache's holder accounting
//! and the deterministic deletion of the GPU image stay exact.

use vstd::prelude::*;
use crate::image_cache::{GpuImage, ImageCacheKey, ImageKeyView};

verus! {

/// A GPU image held by a slot: the image and, when the image cache
/// accounts for it, the content key it is accounted under. An image
/// uploaded directly for one item (a pixmap) has no key and is owned
/// by its slot alone.
#[derive(Debug)]
pub struct CachedImage {
    pub key: Option<ImageCacheKey>,
    pub image: GpuImage,
}

/// Mathematical value of a slot's image.
pub struct CachedImageView {
    pub key: Option<ImageKeyView>,
    pub image: GpuImage,
}

impl View for CachedImage {
    type V = CachedImageView;

    open spec fn view(&self) -> CachedImageView {
        CachedImageView {
            key: match self.key {
                Some(ref k) => Some(k@),
                None => None,
            },
            image: self.image,
        }
    }
}

impl CachedImage {
    /// A copy holding the same image under the same accounting key.
    pub fn clone_cached(&self) -> (r: CachedImage)
        ensures
            r@ == self@,
    {
        CachedImage {
            key: match &self.key {
                Some(k) => Some(k.clone_key()),
                None => None,
            },
            image: self.image,
        }
    }
}

/// One GPU resource of a drawable item; in this generation of the
/// backend every cached resource is an image.
#[derive(Debug)]
pub enum GPUCachedData {
    Image(CachedImage),
}

/// Mathematical value of a slot's resource.
pub enum GPUCachedDataView {
    Image(CachedImageView),
}

impl View for GPUCachedData {
    type V = GPUCachedDataView;

    open spec fn view(&self) -> GPUCachedDataView {
        match self {
            GPUCachedData::Image(ci) => GPUCachedDataView::Image(ci@),
        }
    }
}

impl GPUCachedData {
    /// The GPU image of the resource.
    pub open spec fn spec_as_image(&self) -> GpuImage {
        match self {
            GPUCachedData::Image(ci) => ci.image,
        }
    }

    pub fn as_image(&self) -> (r: GpuImage)
        ensures
            r == self.spec_as_image(),
    {
        match self {
            GPUCachedData::Image(ci) => ci.image,
        }
    }
}

impl GPUCachedDataView {
    /// The GPU image of the resource.
    pub open spec fn image(self) -> GpuImage {
        match self {
            GPUCachedDataView::Image(ci) => ci.image,
        }
    }

    /// The accounting key of the resource.
    pub open spec fn key(self) -> Option<ImageKeyView> {
        match self {
            GPUCachedDataView::Image(ci) => ci.key,
        }
    }
}

/// Mathematical value of one slot.
pub open spec fn slot_view(s: &Option<GPUCachedData>) -> Option<GPUCachedDataView> {
    match s {
        Some(d) => Some(d@),
        None => None,
    }
}

/// The arena of per-item slots. A slot is a position in the sequence;
/// `None` is an empty (never filled, or released) slot.
pub struct ItemRenderingCache {
    slots: Vec<Option<GPUCachedData>>,
}

impl View for ItemRenderingCache {
    type V = Seq<Option<GPUCachedDataView>>;

    closed spec fn view(&self) -> Seq<Option<GPUCachedDataView>> {
        self.slots@.map_values(|s: Option<GPUCachedData>| slot_view(&s))
    }
}

impl ItemRenderingCache {
    /// A fresh cache with no slots.
    pub fn new() -> (r: ItemRenderingCache)
        ensures
            r@ == Seq::<Option<GPUCachedDataView>>::empty(),
    {
        let r = ItemRenderingCache { slots: Vec::new() };
        proof {
            assert(r@ =~= Seq::<Option<GPUCachedDataView>>::empty());
        }
        r
    }

    /// The number of slots ever handed out.
    pub fn len(&self) -> (r: usize)
        ensures
            r == self@.len(),
    {
        self.slots.len()
    }

    /// Attaches a new, empty slot to an item and names it.
    pub fn allocate(&mut self) -> (id: usize)
        ensures
            id == old(self)@.len(),
            final(self)@ == old(self)@.push(None),
    {
        let id = self.slots.len();
        self.slots.push(None);
        proof {
            assert(self@ =~= old(self)@.push(None));
        }
        id
    }

    /// The image a slot currently holds, if the slot is filled.
    pub fn cached_image(&self, id: usize) -> (r: Option<GpuImage>)
        requires
            id < self@.len(),
        ensures
            r == match self@[id as int] {
                Some(d) => Some(d.image()),
                None => None::<GpuImage>,
            },
    {
        match &self.slots[id] {
            Some(d) => Some(d.as_image()),
            None => None,
        }
    }

    /// Returns the slot's image, computing it on the first request
    /// after the slot was attached or released: a filled slot answers
    /// from memory, whatever the callback would do, and an empty slot
    /// stores the callback's image, if the callback yields one.
    pub fn ensure_up_to_date<F: FnOnce() -> Option<GPUCachedData>>(
        &mut self,
        id: usize,
        compute: F,
    ) -> (r: Option<GpuImage>)
        requires
            id < old(self)@.len(),
            call_requires(compute, ()),
        ensures
            final(self)@.len() == old(self)@.len(),
            forall|j: int| 0 <= j < old(self)@.len() && j != id ==> final(self)@[j] == old(
                self,
            )@[j],
            match old(self)@[id as int] {
                Some(d) => final(self)@[id as int] == old(self)@[id as int] && r == Some(
                    d.image(),
                ),
                None => exists|out: Option<GPUCachedData>|
                    {
                        &&& #[trigger] call_ensures(compute, (), out)
                        &&& final(self)@[id as int] == slot_view(&out)
                        &&& r == match out {
                            Some(d) => Some(d.spec_as_image()),
                            None => None::<GpuImage>,
                        }
                    },
            },
    {
        match &self.slots[id] {
            Some(d) => Some(d.as_image()),
            None => {
                let out = compute();
                let ghost out_value = out;
                match out {
                    Some(d) => {
                        let img = d.as_image();
                        self.slots.set(id, Some(d));
                        proof {
                            assert(self@ =~= old(self)@.update(id as int, slot_view(&out_value)));
                        }
                        Some(img)
                    },
                    None => None,
                }
            },
        }
    }

    /// Stores a freshly computed resource in an empty slot.
    pub fn fill(&mut self, id: usize, data: GPUCachedData)
        requires
            id < old(self)@.len(),
            old(self)@[id as int] is None,
        ensures
            final(self)@ == old(self)@.update(id as int, Some(data@)),
    {
        let ghost data_view = data@;
        self.slots.set(id, Some(data));
        proof {
            assert(self@ =~= old(self)@.update(id as int, Some(data_view)));
        }
    }

    /// Clears the slot at once and hands back a copy of what it held,
    /// so the caller can settle the image cache's accounting and delete
    /// a solely owned GPU image. Releasing an empty slot changes
    /// nothing.
    pub fn release(&mut self, id: usize) -> (r: Option<CachedImage>)
        requires
            id < old(self)@.len(),
        ensures
            final(self)@ == old(self)@.update(id as int, None),
            match old(self)@[id as int] {
                Some(GPUCachedDataView::Image(ci)) => r matches Some(c) && c@ == ci,
                None => r is None,
            },
    {
        let dropped = match &self.slots[id] {
            Some(GPUCachedData::Image(ci)) => Some(ci.clone_cached()),
            None => None,
        };
        self.slots.set(id, None);
        proof {
            assert(self@ =~= old(self)@.update(id as int, None));
        }
        dropped
    }
}

} // verus!
