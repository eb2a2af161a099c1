//! The rendering backend and the per-frame renderer.
//!
//! `GLRenderer` owns the GPU context between frames and the three
//! caches that persist across frames. `new_renderer` makes the context
//! current and hands everything to a `GLItemRenderer`, which turns the
//! frame's items into an exact list of canvas commands while it keeps
//! the clip stack and the caches in step; `flush_renderer` hands the
//! commands out for execution, releases the context and sheds the dead
//! image cache entries.

use vstd::prelude::*;
use crate::commands::{
    fold_scissor, reset_scissor_commands, scissor_after, DrawCommand,
    lemma_reset_scissor_replays_stack,
};
use crate::context::{ActiveContext, ContextHolder};
use crate::fonts::{FontDatabase, FontKeyView, FontRequest};
use crate::graphics::{Color, Point, Rect, GEOM_LIMIT, TRANSLATED_LIMIT};
use crate::image_cache::{
    live, spec_acquire, spec_collect, spec_store, GpuImage, ImageCache, ImageCacheKey,
    ImageCacheView, ImageKeyView,
};
use crate::item_cache::{
    CachedImage, CachedImageView, GPUCachedData, GPUCachedDataView, ItemRenderingCache,
};
use crate::items::{
    ClipItem, ClippedImageItem, ImageItem, PathItem, RectangleItem, Resource, TextItem,
    TextInputItem, TextMetrics, TextHorizontalAlignment, TextVerticalAlignment,
    BorderRectangleItem,
};

verus! {

/// The content identity a resource names, if it names any.
pub open spec fn resource_key_view(r: Resource) -> Option<ImageKeyView> {
    match r {
        Resource::Empty => None,
        Resource::AbsoluteFilePath(p) => Some(ImageKeyView::Path(p@)),
        Resource::EmbeddedData { address, length } => Some(
            ImageKeyView::EmbeddedData(address, length),
        ),
    }
}

/// The cache key a resource names, if it names any.
fn resource_key(source: &Resource) -> (r: Option<ImageCacheKey>)
    ensures
        match r {
            Some(k) => resource_key_view(*source) == Some(k@),
            None => resource_key_view(*source) is None,
        },
{
    match source {
        Resource::Empty => None,
        Resource::AbsoluteFilePath(p) => Some(ImageCacheKey::Path(p.clone())),
        Resource::EmbeddedData { address, length } => Some(
            ImageCacheKey::EmbeddedData(*address, *length),
        ),
    }
}

/// The rectangle covering a GPU image's full native extent.
pub open spec fn full_extent(img: GpuImage) -> Rect {
    Rect { x: 0, y: 0, width: img.width as i64, height: img.height as i64 }
}

/// The inner path of a border rectangle: the outer box shrunk by half
/// the border width on each side, so the stroked border, centered on
/// that path, lies entirely inside the box.
pub open spec fn border_inner_rect(outer: Rect, border_width: i64) -> Rect {
    Rect {
        x: (outer.x + border_width / 2) as i64,
        y: (outer.y + border_width / 2) as i64,
        width: (outer.width - border_width) as i64,
        height: (outer.height - border_width) as i64,
    }
}

/// The horizontal offset of a text run within its box: flush left,
/// centered, or flush right.
pub open spec fn spec_horizontal_text_offset(
    alignment: TextHorizontalAlignment,
    max_width: int,
    text_width: int,
) -> int {
    match alignment {
        TextHorizontalAlignment::AlignLeft => 0,
        TextHorizontalAlignment::AlignCenter => max_width / 2 - text_width / 2,
        TextHorizontalAlignment::AlignRight => max_width - text_width,
    }
}

/// The vertical offset of a text run within its box: flush top,
/// centered, or flush bottom.
pub open spec fn spec_vertical_text_offset(
    alignment: TextVerticalAlignment,
    max_height: int,
    text_height: int,
) -> int {
    match alignment {
        TextVerticalAlignment::AlignTop => 0,
        TextVerticalAlignment::AlignCenter => max_height / 2 - text_height / 2,
        TextVerticalAlignment::AlignBottom => max_height - text_height,
    }
}

pub fn horizontal_text_offset(
    alignment: TextHorizontalAlignment,
    max_width: i64,
    text_width: i64,
) -> (r: i64)
    requires
        0 <= max_width <= GEOM_LIMIT,
        0 <= text_width <= GEOM_LIMIT,
    ensures
        r == spec_horizontal_text_offset(alignment, max_width as int, text_width as int),
        -GEOM_LIMIT <= r <= GEOM_LIMIT,
{
    match alignment {
        TextHorizontalAlignment::AlignLeft => 0,
        TextHorizontalAlignment::AlignCenter => max_width / 2 - text_width / 2,
        TextHorizontalAlignment::AlignRight => max_width - text_width,
    }
}

pub fn vertical_text_offset(
    alignment: TextVerticalAlignment,
    max_height: i64,
    text_height: i64,
) -> (r: i64)
    requires
        0 <= max_height <= GEOM_LIMIT,
        0 <= text_height <= GEOM_LIMIT,
    ensures
        r == spec_vertical_text_offset(alignment, max_height as int, text_height as int),
        -GEOM_LIMIT <= r <= GEOM_LIMIT,
{
    match alignment {
        TextVerticalAlignment::AlignTop => 0,
        TextVerticalAlignment::AlignCenter => max_height / 2 - text_height / 2,
        TextVerticalAlignment::AlignBottom => max_height - text_height,
    }
}

/// The image a slot resolves to: that of its resource, if it holds one.
pub open spec fn slot_image(s: Option<GPUCachedDataView>) -> Option<GpuImage> {
    match s {
        Some(d) => Some(d.image()),
        None => None,
    }
}

/// Whether resolving an item's image has to decode: only when the
/// item's slot is empty and the content key has no live cache entry.
pub open spec fn decode_needed(
    items0: Seq<Option<GPUCachedDataView>>,
    images0: ImageCacheView,
    slot: int,
    skey: Option<ImageKeyView>,
) -> bool {
    items0[slot] is None && match skey {
        Some(k) => !live(images0, k),
        None => false,
    }
}

/// How resolving an item's image changes the two caches. A filled slot
/// answers by itself; an empty slot consults the image cache under the
/// item's content key, becoming one more holder on a live entry; only
/// when both miss is `decoded` — what the decode handed back — stored
/// in both, the slot holding the image under its key. `decoded` means
/// nothing unless the decode was needed.
pub open spec fn load_cases(
    items0: Seq<Option<GPUCachedDataView>>,
    images0: ImageCacheView,
    slot: int,
    skey: Option<ImageKeyView>,
    decoded: Option<GpuImage>,
    items1: Seq<Option<GPUCachedDataView>>,
    images1: ImageCacheView,
) -> bool {
    match items0[slot] {
        Some(_) => items1 == items0 && images1 == images0,
        None => match skey {
            None => items1 == items0 && images1 == images0,
            Some(k) => {
                if live(images0, k) {
                    &&& images1 == spec_acquire(images0, k).0
                    &&& items1 == items0.update(
                        slot,
                        Some(
                            GPUCachedDataView::Image(
                                CachedImageView { key: Some(k), image: images0[k].0 },
                            ),
                        ),
                    )
                } else {
                    match decoded {
                        None => items1 == items0 && images1 == images0,
                        Some(img) => {
                            &&& images1 == spec_store(images0, k, img)
                            &&& items1 == items0.update(
                                slot,
                                Some(
                                    GPUCachedDataView::Image(
                                        CachedImageView { key: Some(k), image: img },
                                    ),
                                ),
                            )
                        },
                    }
                }
            },
        },
    }
}

/// How drawing a caller-supplied pixmap changes an item's slot: a
/// filled slot is reused untouched; an empty one stores `uploaded` —
/// the image the upload handed back — owned by the slot alone.
pub open spec fn pixmap_cases(
    items0: Seq<Option<GPUCachedDataView>>,
    slot: int,
    uploaded: Option<GpuImage>,
    items1: Seq<Option<GPUCachedDataView>>,
) -> bool {
    match items0[slot] {
        Some(_) => items1 == items0,
        None => match uploaded {
            None => items1 == items0,
            Some(img) => items1 == items0.update(
                slot,
                Some(GPUCachedDataView::Image(CachedImageView { key: None, image: img })),
            ),
        },
    }
}

/// Where a text run is drawn: the draw position, plus the item's own
/// offset, plus the alignment offsets its measured metrics give it
/// within the item's box.
pub open spec fn spec_text_origin(pos: Point, item: TextItem, metrics: TextMetrics) -> Point {
    Point {
        x: (pos.x + item.geometry.x + spec_horizontal_text_offset(
            item.horizontal_alignment,
            item.geometry.width as int,
            metrics.text_width as int,
        )) as i64,
        y: (pos.y + item.geometry.y + spec_vertical_text_offset(
            item.vertical_alignment,
            item.geometry.height as int,
            metrics.line_height as int,
        )) as i64,
    }
}

/// The backend: the GPU context, idle between frames, and the caches
/// that persist across frames.
pub struct GLRenderer {
    context: ContextHolder,
    item_rendering_cache: ItemRenderingCache,
    image_cache: ImageCache,
    loaded_fonts: FontDatabase,
}

/// The per-frame renderer: holds the context while it draws.
pub struct GLItemRenderer {
    context: ContextHolder,
    token: ActiveContext,
    item_rendering_cache: ItemRenderingCache,
    image_cache: ImageCache,
    loaded_fonts: FontDatabase,
    clip_rects: Vec<Rect>,
    commands: Vec<DrawCommand>,
    scale_factor_percent: u32,
}

impl GLRenderer {
    /// Whether the context is handed out; it never is between calls on
    /// the backend itself.
    pub closed spec fn context_is_current(&self) -> bool {
        self.context.is_current()
    }

    /// The image cache's contents.
    pub closed spec fn image_cache_view(&self) -> ImageCacheView {
        self.image_cache@
    }

    /// The per-item slots.
    pub closed spec fn item_cache_view(&self) -> Seq<Option<GPUCachedDataView>> {
        self.item_rendering_cache@
    }

    /// The fonts loaded so far.
    pub closed spec fn fonts_view(&self) -> Map<FontKeyView, u64> {
        self.loaded_fonts@
    }

    /// Validity of the caches.
    pub closed spec fn wf(&self) -> bool {
        self.image_cache.wf() && self.loaded_fonts.wf()
    }

    /// A fresh backend: idle context, nothing cached.
    pub fn new() -> (r: GLRenderer)
        ensures
            r.wf(),
            !r.context_is_current(),
            r.image_cache_view() == Map::<ImageKeyView, (GpuImage, u64)>::empty(),
            r.item_cache_view() == Seq::<Option<GPUCachedDataView>>::empty(),
            r.fonts_view() == Map::<FontKeyView, u64>::empty(),
    {
        GLRenderer {
            context: ContextHolder::new(),
            item_rendering_cache: ItemRenderingCache::new(),
            image_cache: ImageCache::new(),
            loaded_fonts: FontDatabase::new(),
        }
    }

    /// Attaches a fresh per-item cache slot to an item and names it.
    pub fn allocate_item_cache_slot(&mut self) -> (id: usize)
        requires
            old(self).wf(),
        ensures
            final(self).wf(),
            id == old(self).item_cache_view().len(),
            final(self).item_cache_view() == old(self).item_cache_view().push(None),
            final(self).image_cache_view() == old(self).image_cache_view(),
            final(self).fonts_view() == old(self).fonts_view(),
            final(self).context_is_current() == old(self).context_is_current(),
    {
        self.item_rendering_cache.allocate()
    }

    /// Clears an item's slot because its source is about to change,
    /// settling the image cache's accounting; returns the GPU image to
    /// delete now if the slot held its image's last holder.
    pub fn release_item_graphics_cache(&mut self, slot: usize) -> (deleted: Option<u64>)
        requires
            old(self).wf(),
            slot < old(self).item_cache_view().len(),
        ensures
            final(self).wf(),
            final(self).item_cache_view() == old(self).item_cache_view().update(
                slot as int,
                None,
            ),
            final(self).fonts_view() == old(self).fonts_view(),
            final(self).context_is_current() == old(self).context_is_current(),
            match old(self).item_cache_view()[slot as int] {
                Some(GPUCachedDataView::Image(ci)) => match ci.key {
                    Some(k) => final(self).image_cache_view() == crate::image_cache::spec_release(
                        old(self).image_cache_view(),
                        k,
                    ).0 && deleted == crate::image_cache::spec_release(
                        old(self).image_cache_view(),
                        k,
                    ).1,
                    None => final(self).image_cache_view() == old(self).image_cache_view()
                        && deleted == Some(ci.image.handle),
                },
                None => final(self).image_cache_view() == old(self).image_cache_view()
                    && deleted == None::<u64>,
            },
    {
        match self.item_rendering_cache.release(slot) {
            Some(ci) => match ci.key {
                Some(k) => self.image_cache.release(&k),
                None => Some(ci.image.handle),
            },
            None => None,
        }
    }

    /// The font for a request, loaded through `load` only on the first
    /// request for its family and weight.
    pub fn font<F: FnOnce() -> u64>(&mut self, request: &FontRequest, load: F) -> (r: u64)
        requires
            old(self).wf(),
            call_requires(load, ()),
        ensures
            final(self).wf(),
            final(self).image_cache_view() == old(self).image_cache_view(),
            final(self).item_cache_view() == old(self).item_cache_view(),
            final(self).context_is_current() == old(self).context_is_current(),
            old(self).fonts_view().contains_key((request.family@, request.weight)) ==> r == old(
                self,
            ).fonts_view()[(request.family@, request.weight)] && final(self).fonts_view() == old(
                self,
            ).fonts_view(),
            !old(self).fonts_view().contains_key((request.family@, request.weight))
                ==> call_ensures(load, (), r) && final(self).fonts_view() == old(
                self,
            ).fonts_view().insert((request.family@, request.weight), r),
    {
        self.loaded_fonts.font(request, load)
    }

    /// Starts a frame: makes the context current, sizes and clears the
    /// surface, and hands everything to the frame renderer. Starting a
    /// frame while one is in flight would be fatal and is excluded.
    pub fn new_renderer(
        self,
        clear_color: Color,
        width: u32,
        height: u32,
        scale_factor_percent: u32,
    ) -> (r: GLItemRenderer)
        requires
            self.wf(),
            !self.context_is_current(),
        ensures
            r.wf(),
            r.image_cache_view() == self.image_cache_view(),
            r.item_cache_view() == self.item_cache_view(),
            r.fonts_view() == self.fonts_view(),
            r.clip_rects_view() == Seq::<Rect>::empty(),
            r.commands_view() == seq![
                (DrawCommand::ClearRect { width, height, color: clear_color }),
            ],
            r.spec_scale_factor() == scale_factor_percent,
    {
        let GLRenderer { mut context, item_rendering_cache, image_cache, loaded_fonts } = self;
        let token = context.acquire();
        let mut commands: Vec<DrawCommand> = Vec::new();
        commands.push(DrawCommand::ClearRect { width, height, color: clear_color });
        let r = GLItemRenderer {
            context,
            token,
            item_rendering_cache,
            image_cache,
            loaded_fonts,
            clip_rects: Vec::new(),
            commands,
            scale_factor_percent,
        };
        proof {
            assert(r.clip_rects@ =~= Seq::<Rect>::empty());
            assert(r.commands@.drop_last() =~= Seq::<DrawCommand>::empty());
            assert(scissor_after(r.commands@.drop_last()) is None);
            assert(scissor_after(r.commands@) is None);
            assert(fold_scissor(r.clip_rects@) is None);
            assert(r.commands_view() =~= seq![
                (DrawCommand::ClearRect { width, height, color: clear_color }),
            ]);
        }
        r
    }

    /// Ends a frame: hands the frame's commands out for execution and
    /// the buffer swap, releases the context, and sheds the image
    /// cache entries nothing holds any more.
    pub fn flush_renderer(renderer: GLItemRenderer) -> (r: (GLRenderer, Vec<DrawCommand>))
        requires
            renderer.wf(),
        ensures
            r.0.wf(),
            !r.0.context_is_current(),
            r.0.image_cache_view() == spec_collect(renderer.image_cache_view()),
            r.0.item_cache_view() == renderer.item_cache_view(),
            r.0.fonts_view() == renderer.fonts_view(),
            r.1@ == renderer.commands_view(),
    {
        let GLItemRenderer {
            mut context,
            token,
            item_rendering_cache,
            mut image_cache,
            loaded_fonts,
            clip_rects: _clip_rects,
            commands,
            scale_factor_percent: _scale,
        } = renderer;
        context.release(token);
        image_cache.collect_garbage();
        (
            GLRenderer { context, item_rendering_cache, image_cache, loaded_fonts },
            commands,
        )
    }
}

impl GLItemRenderer {
    /// The commands the frame has produced so far.
    pub closed spec fn commands_view(&self) -> Seq<DrawCommand> {
        self.commands@
    }

    /// The clip stack, in push order.
    pub closed spec fn clip_rects_view(&self) -> Seq<Rect> {
        self.clip_rects@
    }

    /// The image cache's contents.
    pub closed spec fn image_cache_view(&self) -> ImageCacheView {
        self.image_cache@
    }

    /// The per-item slots.
    pub closed spec fn item_cache_view(&self) -> Seq<Option<GPUCachedDataView>> {
        self.item_rendering_cache@
    }

    /// The fonts loaded so far.
    pub closed spec fn fonts_view(&self) -> Map<FontKeyView, u64> {
        self.loaded_fonts@
    }

    /// The device scale factor, in percent.
    pub closed spec fn spec_scale_factor(&self) -> u32 {
        self.scale_factor_percent
    }

    /// Validity: the renderer holds the current context, the caches
    /// are valid, every stacked clip rectangle is in bounds, and the
    /// scissor the commands replay to is exactly the one the clip
    /// stack denotes.
    pub closed spec fn wf(&self) -> bool {
        &&& self.context.is_current()
        &&& self.image_cache.wf()
        &&& self.loaded_fonts.wf()
        &&& forall|i: int|
            0 <= i < self.clip_rects@.len() ==> #[trigger] self.clip_rects@[i].bounded(
                TRANSLATED_LIMIT as int,
            )
        &&& scissor_after(self.commands@) == fold_scissor(self.clip_rects@)
    }

    /// The device scale factor, in percent.
    pub fn scale_factor(&self) -> (r: u32)
        ensures
            r == self.spec_scale_factor(),
    {
        self.scale_factor_percent
    }

    /// Fills the item's rectangle, translated to the draw position,
    /// with the item's color.
    pub fn draw_rectangle(&mut self, pos: Point, item: &RectangleItem)
        requires
            old(self).wf(),
            pos.bounded(GEOM_LIMIT as int),
            item.geometry.bounded(GEOM_LIMIT as int),
        ensures
            final(self).wf(),
            final(self).commands_view() == old(self).commands_view().push(
                (DrawCommand::FillRect {
                    rect: item.geometry.spec_translate(pos),
                    color: item.color,
                }),
            ),
            same_but_commands(*final(self), *old(self)),
    {
        let rect = item.geometry.translate(pos);
        self.commands.push(DrawCommand::FillRect { rect, color: item.color });
        proof {
            assert(self.commands@.drop_last() =~= old(self).commands@);
        }
    }

    /// Fills and strokes the inner path of a border rectangle: the
    /// item's box, translated to the draw position, shrunk by half the
    /// border width on each side.
    pub fn draw_border_rectangle(&mut self, pos: Point, item: &BorderRectangleItem)
        requires
            old(self).wf(),
            pos.bounded(GEOM_LIMIT as int),
            item.geometry.bounded(GEOM_LIMIT as int),
            0 <= item.border_width <= GEOM_LIMIT,
        ensures
            final(self).wf(),
            final(self).commands_view() == old(self).commands_view().push(
                (DrawCommand::FillBorderRect {
                    rect: border_inner_rect(item.geometry.spec_translate(pos), item.border_width),
                    radius: item.border_radius,
                    fill: item.color,
                    border: item.border_color,
                    border_width: item.border_width,
                }),
            ),
            same_but_commands(*final(self), *old(self)),
    {
        let outer = item.geometry.translate(pos);
        let half: i64 = item.border_width / 2;
        let rect = Rect {
            x: outer.x + half,
            y: outer.y + half,
            width: outer.width - item.border_width,
            height: outer.height - item.border_width,
        };
        self.commands.push(DrawCommand::FillBorderRect {
            rect,
            radius: item.border_radius,
            fill: item.color,
            border: item.border_color,
            border_width: item.border_width,
        });
        proof {
            assert(self.commands@.drop_last() =~= old(self).commands@);
        }
    }

    /// Resolves the image an item draws, through the item's slot and
    /// the image cache; `decode` is invoked only when both miss, and
    /// its failure leaves every cache as it was.
    pub fn load_cached_item_image<F: FnOnce() -> Option<GpuImage>>(
        &mut self,
        slot: usize,
        source: &Resource,
        decode: F,
    ) -> (r: Option<GpuImage>)
        requires
            old(self).wf(),
            slot < old(self).item_cache_view().len(),
            call_requires(decode, ()),
        ensures
            final(self).wf(),
            final(self).commands_view() == old(self).commands_view(),
            final(self).clip_rects_view() == old(self).clip_rects_view(),
            final(self).fonts_view() == old(self).fonts_view(),
            final(self).spec_scale_factor() == old(self).spec_scale_factor(),
            final(self).item_cache_view().len() == old(self).item_cache_view().len(),
            r == slot_image(final(self).item_cache_view()[slot as int]),
            !decode_needed(
                old(self).item_cache_view(),
                old(self).image_cache_view(),
                slot as int,
                resource_key_view(*source),
            ) ==> load_cases(
                old(self).item_cache_view(),
                old(self).image_cache_view(),
                slot as int,
                resource_key_view(*source),
                None::<GpuImage>,
                final(self).item_cache_view(),
                final(self).image_cache_view(),
            ),
            decode_needed(
                old(self).item_cache_view(),
                old(self).image_cache_view(),
                slot as int,
                resource_key_view(*source),
            ) ==> exists|decoded: Option<GpuImage>|
                #[trigger] call_ensures(decode, (), decoded) && load_cases(
                    old(self).item_cache_view(),
                    old(self).image_cache_view(),
                    slot as int,
                    resource_key_view(*source),
                    decoded,
                    final(self).item_cache_view(),
                    final(self).image_cache_view(),
                ),
    {
        match self.item_rendering_cache.cached_image(slot) {
            Some(img) => {
                proof {
                    assert(load_cases(
                        old(self).item_cache_view(),
                        old(self).image_cache_view(),
                        slot as int,
                        resource_key_view(*source),
                        None::<GpuImage>,
                        self.item_cache_view(),
                        self.image_cache_view(),
                    ));
                }
                Some(img)
            },
            None => match resource_key(source) {
                None => {
                    proof {
                        assert(load_cases(
                            old(self).item_cache_view(),
                            old(self).image_cache_view(),
                            slot as int,
                            resource_key_view(*source),
                            None::<GpuImage>,
                            self.item_cache_view(),
                            self.image_cache_view(),
                        ));
                    }
                    None
                },
                Some(key) => {
                    let ghost kv = key@;
                    match self.image_cache.lookup_live(&key) {
                        Some(img) => {
                            self.item_rendering_cache.fill(
                                slot,
                                GPUCachedData::Image(CachedImage { key: Some(key), image: img }),
                            );
                            proof {
                                assert(load_cases(
                                    old(self).item_cache_view(),
                                    old(self).image_cache_view(),
                                    slot as int,
                                    resource_key_view(*source),
                                    None::<GpuImage>,
                                    self.item_cache_view(),
                                    self.image_cache_view(),
                                ));
                            }
                            Some(img)
                        },
                        None => match decode() {
                            None => {
                                proof {
                                    assert(load_cases(
                                        old(self).item_cache_view(),
                                        old(self).image_cache_view(),
                                        slot as int,
                                        resource_key_view(*source),
                                        None::<GpuImage>,
                                        self.item_cache_view(),
                                        self.image_cache_view(),
                                    ));
                                }
                                None
                            },
                            Some(img) => {
                                let key_for_slot = key.clone_key();
                                self.image_cache.store(key, img);
                                self.item_rendering_cache.fill(
                                    slot,
                                    GPUCachedData::Image(
                                        CachedImage { key: Some(key_for_slot), image: img },
                                    ),
                                );
                                proof {
                                    assert(load_cases(
                                        old(self).item_cache_view(),
                                        old(self).image_cache_view(),
                                        slot as int,
                                        resource_key_view(*source),
                                        Some(img),
                                        self.item_cache_view(),
                                        self.image_cache_view(),
                                    ));
                                }
                                Some(img)
                            },
                        },
                    }
                },
            },
        }
    }

    /// Draws an item's image at the draw position plus the item's own
    /// offset, scaled to the item's size when both its sides are
    /// positive and at native size otherwise; an item whose source is
    /// empty or fails to decode draws nothing.
    pub fn draw_image<F: FnOnce() -> Option<GpuImage>>(
        &mut self,
        pos: Point,
        item: &ImageItem,
        decode: F,
    )
        requires
            old(self).wf(),
            pos.bounded(GEOM_LIMIT as int),
            item.geometry.bounded(GEOM_LIMIT as int),
            item.cache_slot < old(self).item_cache_view().len(),
            call_requires(decode, ()),
        ensures
            final(self).wf(),
            final(self).clip_rects_view() == old(self).clip_rects_view(),
            final(self).fonts_view() == old(self).fonts_view(),
            final(self).spec_scale_factor() == old(self).spec_scale_factor(),
            final(self).item_cache_view().len() == old(self).item_cache_view().len(),
            !decode_needed(
                old(self).item_cache_view(),
                old(self).image_cache_view(),
                item.cache_slot as int,
                resource_key_view(item.source),
            ) ==> load_cases(
                old(self).item_cache_view(),
                old(self).image_cache_view(),
                item.cache_slot as int,
                resource_key_view(item.source),
                None::<GpuImage>,
                final(self).item_cache_view(),
                final(self).image_cache_view(),
            ),
            decode_needed(
                old(self).item_cache_view(),
                old(self).image_cache_view(),
                item.cache_slot as int,
                resource_key_view(item.source),
            ) ==> exists|decoded: Option<GpuImage>|
                #[trigger] call_ensures(decode, (), decoded) && load_cases(
                    old(self).item_cache_view(),
                    old(self).image_cache_view(),
                    item.cache_slot as int,
                    resource_key_view(item.source),
                    decoded,
                    final(self).item_cache_view(),
                    final(self).image_cache_view(),
                ),
            match slot_image(final(self).item_cache_view()[item.cache_slot as int]) {
                Some(img) => final(self).commands_view() == old(self).commands_view().push(
                    (DrawCommand::DrawImage {
                        image: img,
                        source: full_extent(img),
                        origin: (Point {
                            x: (pos.x + item.geometry.x) as i64,
                            y: (pos.y + item.geometry.y) as i64,
                        }),
                        requested_width: item.geometry.width,
                        requested_height: item.geometry.height,
                    }),
                ),
                None => final(self).commands_view() == old(self).commands_view(),
            },
    {
        match self.load_cached_item_image(item.cache_slot, &item.source, decode) {
            None => {},
            Some(img) => {
                let origin = Point { x: pos.x + item.geometry.x, y: pos.y + item.geometry.y };
                let source_rect = Rect {
                    x: 0,
                    y: 0,
                    width: img.width as i64,
                    height: img.height as i64,
                };
                self.commands.push(DrawCommand::DrawImage {
                    image: img,
                    source: source_rect,
                    origin,
                    requested_width: item.geometry.width,
                    requested_height: item.geometry.height,
                });
                proof {
                    assert(self.commands@.drop_last() =~= old(self).commands@);
                }
            },
        }
    }

    /// As `draw_image`, but the source paint reads through the item's
    /// clip window into the image; an empty window means the whole
    /// image.
    pub fn draw_clipped_image<F: FnOnce() -> Option<GpuImage>>(
        &mut self,
        pos: Point,
        item: &ClippedImageItem,
        decode: F,
    )
        requires
            old(self).wf(),
            pos.bounded(GEOM_LIMIT as int),
            item.geometry.bounded(GEOM_LIMIT as int),
            item.cache_slot < old(self).item_cache_view().len(),
            call_requires(decode, ()),
        ensures
            final(self).wf(),
            final(self).clip_rects_view() == old(self).clip_rects_view(),
            final(self).fonts_view() == old(self).fonts_view(),
            final(self).spec_scale_factor() == old(self).spec_scale_factor(),
            final(self).item_cache_view().len() == old(self).item_cache_view().len(),
            !decode_needed(
                old(self).item_cache_view(),
                old(self).image_cache_view(),
                item.cache_slot as int,
                resource_key_view(item.source),
            ) ==> load_cases(
                old(self).item_cache_view(),
                old(self).image_cache_view(),
                item.cache_slot as int,
                resource_key_view(item.source),
                None::<GpuImage>,
                final(self).item_cache_view(),
                final(self).image_cache_view(),
            ),
            decode_needed(
                old(self).item_cache_view(),
                old(self).image_cache_view(),
                item.cache_slot as int,
                resource_key_view(item.source),
            ) ==> exists|decoded: Option<GpuImage>|
                #[trigger] call_ensures(decode, (), decoded) && load_cases(
                    old(self).item_cache_view(),
                    old(self).image_cache_view(),
                    item.cache_slot as int,
                    resource_key_view(item.source),
                    decoded,
                    final(self).item_cache_view(),
                    final(self).image_cache_view(),
                ),
            match slot_image(final(self).item_cache_view()[item.cache_slot as int]) {
                Some(img) => final(self).commands_view() == old(self).commands_view().push(
                    (DrawCommand::DrawImage {
                        image: img,
                        source: if item.source_clip.spec_is_empty() {
                            full_extent(img)
                        } else {
                            item.source_clip
                        },
                        origin: (Point {
                            x: (pos.x + item.geometry.x) as i64,
                            y: (pos.y + item.geometry.y) as i64,
                        }),
                        requested_width: item.geometry.width,
                        requested_height: item.geometry.height,
                    }),
                ),
                None => final(self).commands_view() == old(self).commands_view(),
            },
    {
        match self.load_cached_item_image(item.cache_slot, &item.source, decode) {
            None => {},
            Some(img) => {
                let origin = Point { x: pos.x + item.geometry.x, y: pos.y + item.geometry.y };
                let source_rect = if item.source_clip.is_empty() {
                    Rect { x: 0, y: 0, width: img.width as i64, height: img.height as i64 }
                } else {
                    item.source_clip
                };
                self.commands.push(DrawCommand::DrawImage {
                    image: img,
                    source: source_rect,
                    origin,
                    requested_width: item.geometry.width,
                    requested_height: item.geometry.height,
                });
                proof {
                    assert(self.commands@.drop_last() =~= old(self).commands@);
                }
            },
        }
    }

    /// Draws a caller-supplied pixmap at the draw position, at native
    /// size: the first call for a slot uploads the pixels through
    /// `upload` and caches the handle; later calls reuse it until the
    /// slot is released.
    pub fn draw_cached_pixmap<F: FnOnce() -> Option<GpuImage>>(
        &mut self,
        slot: usize,
        pos: Point,
        upload: F,
    )
        requires
            old(self).wf(),
            slot < old(self).item_cache_view().len(),
            pos.bounded(GEOM_LIMIT as int),
            call_requires(upload, ()),
        ensures
            final(self).wf(),
            final(self).clip_rects_view() == old(self).clip_rects_view(),
            final(self).fonts_view() == old(self).fonts_view(),
            final(self).spec_scale_factor() == old(self).spec_scale_factor(),
            final(self).image_cache_view() == old(self).image_cache_view(),
            final(self).item_cache_view().len() == old(self).item_cache_view().len(),
            exists|uploaded: Option<GpuImage>|
                {
                    &&& (old(self).item_cache_view()[slot as int] is None ==> call_ensures(
                        upload,
                        (),
                        uploaded,
                    ))
                    &&& #[trigger] pixmap_cases(
                        old(self).item_cache_view(),
                        slot as int,
                        uploaded,
                        final(self).item_cache_view(),
                    )
                },
            match slot_image(final(self).item_cache_view()[slot as int]) {
                Some(img) => final(self).commands_view() == old(self).commands_view().push(
                    (DrawCommand::DrawImage {
                        image: img,
                        source: full_extent(img),
                        origin: pos,
                        requested_width: 0,
                        requested_height: 0,
                    }),
                ),
                None => final(self).commands_view() == old(self).commands_view(),
            },
    {
        let resolved = match self.item_rendering_cache.cached_image(slot) {
            Some(img) => {
                proof {
                    assert(pixmap_cases(
                        old(self).item_cache_view(),
                        slot as int,
                        None::<GpuImage>,
                        self.item_cache_view(),
                    ));
                }
                Some(img)
            },
            None => match upload() {
                None => {
                    proof {
                        assert(pixmap_cases(
                            old(self).item_cache_view(),
                            slot as int,
                            None::<GpuImage>,
                            self.item_cache_view(),
                        ));
                    }
                    None
                },
                Some(img) => {
                    self.item_rendering_cache.fill(
                        slot,
                        GPUCachedData::Image(CachedImage { key: None, image: img }),
                    );
                    proof {
                        assert(pixmap_cases(
                            old(self).item_cache_view(),
                            slot as int,
                            Some(img),
                            self.item_cache_view(),
                        ));
                    }
                    Some(img)
                },
            },
        };
        match resolved {
            None => {},
            Some(img) => {
                let source_rect = Rect {
                    x: 0,
                    y: 0,
                    width: img.width as i64,
                    height: img.height as i64,
                };
                self.commands.push(DrawCommand::DrawImage {
                    image: img,
                    source: source_rect,
                    origin: pos,
                    requested_width: 0,
                    requested_height: 0,
                });
                proof {
                    assert(self.commands@.drop_last() =~= old(self).commands@);
                }
            },
        }
    }

    /// Draws a text run: the font comes from the font cache (loaded
    /// through `load_font` only on the first request for its family
    /// and weight), and the run is placed at the draw position plus
    /// the item's offset plus its alignment offsets within the item's
    /// box, with the measured metrics deciding the alignment.
    pub fn draw_text<F: FnOnce() -> u64>(
        &mut self,
        pos: Point,
        item: &TextItem,
        metrics: TextMetrics,
        load_font: F,
    )
        requires
            old(self).wf(),
            pos.bounded(GEOM_LIMIT as int),
            item.geometry.bounded(GEOM_LIMIT as int),
            0 <= item.geometry.width,
            0 <= item.geometry.height,
            0 <= metrics.text_width <= GEOM_LIMIT,
            0 <= metrics.line_height <= GEOM_LIMIT,
            call_requires(load_font, ()),
        ensures
            final(self).wf(),
            final(self).clip_rects_view() == old(self).clip_rects_view(),
            final(self).spec_scale_factor() == old(self).spec_scale_factor(),
            final(self).image_cache_view() == old(self).image_cache_view(),
            final(self).item_cache_view() == old(self).item_cache_view(),
            old(self).fonts_view().contains_key((item.font_family@, item.font_weight))
                ==> final(self).fonts_view() == old(self).fonts_view()
                    && final(self).commands_view() == old(self).commands_view().push(
                    (DrawCommand::FillText {
                        origin: spec_text_origin(pos, *item, metrics),
                        color: item.color,
                        font_id: old(self).fonts_view()[(item.font_family@, item.font_weight)],
                        pixel_size: item.font_pixel_size,
                        text: item.text,
                    }),
                ),
            !old(self).fonts_view().contains_key((item.font_family@, item.font_weight))
                ==> exists|fid: u64|
                #[trigger] call_ensures(load_font, (), fid)
                    && final(self).fonts_view() == old(self).fonts_view().insert(
                    (item.font_family@, item.font_weight),
                    fid,
                ) && final(self).commands_view() == old(self).commands_view().push(
                    (DrawCommand::FillText {
                        origin: spec_text_origin(pos, *item, metrics),
                        color: item.color,
                        font_id: fid,
                        pixel_size: item.font_pixel_size,
                        text: item.text,
                    }),
                ),
    {
        let request = FontRequest { family: item.font_family.clone(), weight: item.font_weight };
        let fid = self.loaded_fonts.font(&request, load_font);
        let tx = horizontal_text_offset(
            item.horizontal_alignment,
            item.geometry.width,
            metrics.text_width,
        );
        let ty = vertical_text_offset(
            item.vertical_alignment,
            item.geometry.height,
            metrics.line_height,
        );
        let origin = Point { x: pos.x + item.geometry.x + tx, y: pos.y + item.geometry.y + ty };
        self.commands.push(DrawCommand::FillText {
            origin,
            color: item.color,
            font_id: fid,
            pixel_size: item.font_pixel_size,
            text: item.text.clone(),
        });
        proof {
            assert(self.commands@.drop_last() =~= old(self).commands@);
        }
    }

    /// Caret and selection rendering is intentionally not implemented
    /// in this generation: drawing a text input draws nothing.
    pub fn draw_text_input(&mut self, pos: Point, item: &TextInputItem)
        ensures
            *final(self) == *old(self),
    {
        let _ = pos;
        let _ = item;
    }

    /// Vector path rendering is intentionally not implemented in this
    /// generation: drawing a path draws nothing.
    pub fn draw_path(&mut self, pos: Point, item: &PathItem)
        ensures
            *final(self) == *old(self),
    {
        let _ = pos;
        let _ = item;
    }

    /// Enters a clip scope: intersects the item's geometry, translated
    /// to the draw position, into the scissor and pushes it onto the
    /// clip stack.
    pub fn combine_clip(&mut self, pos: Point, clip: &ClipItem)
        requires
            old(self).wf(),
            pos.bounded(GEOM_LIMIT as int),
            clip.geometry.bounded(GEOM_LIMIT as int),
        ensures
            final(self).wf(),
            final(self).clip_rects_view() == old(self).clip_rects_view().push(
                clip.geometry.spec_translate(pos),
            ),
            final(self).commands_view() == old(self).commands_view().push(
                (DrawCommand::IntersectScissor { rect: clip.geometry.spec_translate(pos) }),
            ),
            same_caches(*final(self), *old(self)),
            final(self).spec_scale_factor() == old(self).spec_scale_factor(),
    {
        let rect = clip.geometry.translate(pos);
        self.commands.push(DrawCommand::IntersectScissor { rect });
        self.clip_rects.push(rect);
        proof {
            assert(self.commands@.drop_last() =~= old(self).commands@);
            assert(self.clip_rects@.drop_last() =~= old(self).clip_rects@);
        }
    }

    /// The clip stack, for the caller to save around a subtree.
    pub fn clip_rects(&self) -> (r: Vec<Rect>)
        ensures
            r@ == self.clip_rects_view(),
    {
        let mut r: Vec<Rect> = Vec::new();
        let n: usize = self.clip_rects.len();
        let mut i: usize = 0;
        while i < n
            invariant
                n == self.clip_rects@.len(),
                0 <= i <= n,
                r@ == self.clip_rects@.take(i as int),
            decreases n - i,
        {
            r.push(self.clip_rects[i]);
            proof {
                assert(r@ =~= self.clip_rects@.take(i as int + 1));
            }
            i += 1;
        }
        proof {
            assert(self.clip_rects@.take(n as int) =~= self.clip_rects@);
        }
        r
    }

    /// Restores a saved clip stack wholesale: the canvas has no native
    /// clip stack, so the scissor is lifted and every saved rectangle
    /// is intersected back in, in push order.
    pub fn reset_clip(&mut self, rects: Vec<Rect>)
        requires
            old(self).wf(),
            forall|i: int|
                0 <= i < rects@.len() ==> #[trigger] rects@[i].bounded(TRANSLATED_LIMIT as int),
        ensures
            final(self).wf(),
            final(self).clip_rects_view() == rects@,
            final(self).commands_view() == old(self).commands_view() + reset_scissor_commands(
                rects@,
            ),
            same_caches(*final(self), *old(self)),
            final(self).spec_scale_factor() == old(self).spec_scale_factor(),
    {
        let ghost old_commands = self.commands@;
        let ghost rects_view = rects@;
        self.clip_rects = rects;
        self.commands.push(DrawCommand::ResetScissor);
        proof {
            assert(self.commands@ =~= old_commands + seq![DrawCommand::ResetScissor]
                + self.clip_rects@.take(0).map_values(
                |r: Rect| DrawCommand::IntersectScissor { rect: r },
            ));
        }
        let n: usize = self.clip_rects.len();
        let mut i: usize = 0;
        while i < n
            invariant
                n == self.clip_rects@.len(),
                0 <= i <= n,
                self.clip_rects@ == rects_view,
                self.context == old(self).context,
                self.token == old(self).token,
                self.item_rendering_cache == old(self).item_rendering_cache,
                self.image_cache == old(self).image_cache,
                self.loaded_fonts == old(self).loaded_fonts,
                self.scale_factor_percent == old(self).scale_factor_percent,
                old(self).wf(),
                self.commands@ == old_commands + seq![DrawCommand::ResetScissor]
                    + self.clip_rects@.take(i as int).map_values(
                    |r: Rect| DrawCommand::IntersectScissor { rect: r },
                ),
            decreases n - i,
        {
            let rect = self.clip_rects[i];
            self.commands.push(DrawCommand::IntersectScissor { rect });
            proof {
                assert(self.clip_rects@.take(i as int + 1).drop_last() =~= self.clip_rects@.take(
                    i as int,
                ));
                assert(self.commands@ =~= old_commands + seq![DrawCommand::ResetScissor]
                    + self.clip_rects@.take(i as int + 1).map_values(
                    |r: Rect| DrawCommand::IntersectScissor { rect: r },
                ));
            }
            i += 1;
        }
        proof {
            assert(self.clip_rects@.take(n as int) =~= self.clip_rects@);
            assert(self.commands@ =~= old_commands + reset_scissor_commands(self.clip_rects@));
            lemma_reset_scissor_replays_stack(old_commands, self.clip_rects@);
        }
    }
}

/// The two states hold the same caches.
pub open spec fn same_caches(a: GLItemRenderer, b: GLItemRenderer) -> bool {
    &&& a.image_cache_view() == b.image_cache_view()
    &&& a.item_cache_view() == b.item_cache_view()
    &&& a.fonts_view() == b.fonts_view()
}

/// The two states differ in nothing but their commands.
pub open spec fn same_but_commands(a: GLItemRenderer, b: GLItemRenderer) -> bool {
    &&& same_caches(a, b)
    &&& a.clip_rects_view() == b.clip_rects_view()
    &&& a.spec_scale_factor() == b.spec_scale_factor()
}

/// Law: the scissor in force is determined by the clip stack alone:
/// two frames whose clip stacks agree mask drawing identically,
/// whatever else they drew — so restoring a saved stack reproduces the
/// effective scissor exactly.
pub proof fn lemma_clip_stack_determines_scissor(a: GLItemRenderer, b: GLItemRenderer)
    requires
        a.wf(),
        b.wf(),
        a.clip_rects_view() == b.clip_rects_view(),
    ensures
        scissor_after(a.commands_view()) == scissor_after(b.commands_view()),
{
}

} // verus!
