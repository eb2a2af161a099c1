use std::cell::Cell;

use sixtyfps_gl_backend::commands::DrawCommand;
use sixtyfps_gl_backend::graphics::{Color, Point, Rect};
use sixtyfps_gl_backend::image_cache::GpuImage;
use sixtyfps_gl_backend::items::{
    BorderRectangleItem, ClipItem, ClippedImageItem, ImageItem, PathItem, RectangleItem,
    Resource, TextHorizontalAlignment, TextInputItem, TextItem, TextMetrics,
    TextVerticalAlignment,
};
use sixtyfps_gl_backend::renderer::{
    horizontal_text_offset, vertical_text_offset, GLRenderer,
};

const WHITE: Color = Color { red: 255, green: 255, blue: 255, alpha: 255 };
const RED: Color = Color { red: 255, green: 0, blue: 0, alpha: 255 };
const BLUE: Color = Color { red: 0, green: 0, blue: 255, alpha: 255 };

fn text_item(align_h: TextHorizontalAlignment, align_v: TextVerticalAlignment) -> TextItem {
    TextItem {
        geometry: Rect { x: 5, y: 5, width: 200, height: 100 },
        color: BLUE,
        font_family: "Sans".to_string(),
        font_weight: 400,
        font_pixel_size: 12,
        horizontal_alignment: align_h,
        vertical_alignment: align_v,
        text: "hello".to_string(),
    }
}

#[test]
fn a_frame_starts_with_a_clear_and_collects_draws_in_order() {
    let backend = GLRenderer::new();
    let mut frame = backend.new_renderer(WHITE, 800, 600, 100);
    frame.draw_rectangle(
        Point { x: 10, y: 20 },
        &RectangleItem { geometry: Rect { x: 1, y: 2, width: 30, height: 40 }, color: RED },
    );
    let (_backend, commands) = GLRenderer::flush_renderer(frame);
    assert_eq!(commands, vec![
        DrawCommand::ClearRect { width: 800, height: 600, color: WHITE },
        DrawCommand::FillRect { rect: Rect { x: 11, y: 22, width: 30, height: 40 }, color: RED },
    ]);
}

#[test]
fn border_rectangle_path_is_inset_by_half_the_border_width() {
    let backend = GLRenderer::new();
    let mut frame = backend.new_renderer(WHITE, 800, 600, 100);
    frame.draw_border_rectangle(
        Point { x: 0, y: 0 },
        &BorderRectangleItem {
            geometry: Rect { x: 0, y: 0, width: 100, height: 50 },
            color: WHITE,
            border_color: RED,
            border_width: 4,
            border_radius: 3,
        },
    );
    let (_backend, commands) = GLRenderer::flush_renderer(frame);
    assert_eq!(commands[1], DrawCommand::FillBorderRect {
        rect: Rect { x: 2, y: 2, width: 96, height: 46 },
        radius: 3,
        fill: WHITE,
        border: RED,
        border_width: 4,
    });
}

#[test]
fn text_alignment_offsets_match_the_box_rule() {
    assert_eq!(horizontal_text_offset(TextHorizontalAlignment::AlignLeft, 200, 50), 0);
    assert_eq!(horizontal_text_offset(TextHorizontalAlignment::AlignCenter, 200, 50), 75);
    assert_eq!(horizontal_text_offset(TextHorizontalAlignment::AlignRight, 200, 50), 150);
    assert_eq!(vertical_text_offset(TextVerticalAlignment::AlignTop, 100, 10), 0);
    assert_eq!(vertical_text_offset(TextVerticalAlignment::AlignCenter, 100, 10), 45);
    assert_eq!(vertical_text_offset(TextVerticalAlignment::AlignBottom, 100, 10), 90);
}

#[test]
fn text_is_drawn_at_position_plus_item_offset_plus_alignment() {
    let backend = GLRenderer::new();
    let mut frame = backend.new_renderer(WHITE, 800, 600, 100);
    let item = text_item(TextHorizontalAlignment::AlignCenter, TextVerticalAlignment::AlignBottom);
    frame.draw_text(
        Point { x: 10, y: 20 },
        &item,
        TextMetrics { text_width: 50, line_height: 10 },
        || 7u64,
    );
    let (_backend, commands) = GLRenderer::flush_renderer(frame);
    assert_eq!(commands[1], DrawCommand::FillText {
        origin: Point { x: 10 + 5 + 75, y: 20 + 5 + 90 },
        color: BLUE,
        font_id: 7,
        pixel_size: 12,
        text: "hello".to_string(),
    });
}

#[test]
fn fonts_are_loaded_once_and_shared_across_frames() {
    let backend = GLRenderer::new();
    let loads = Cell::new(0u32);
    let item = text_item(TextHorizontalAlignment::AlignLeft, TextVerticalAlignment::AlignTop);
    let metrics = TextMetrics { text_width: 50, line_height: 10 };

    let mut frame = backend.new_renderer(WHITE, 800, 600, 100);
    frame.draw_text(Point { x: 0, y: 0 }, &item, metrics, || {
        loads.set(loads.get() + 1);
        7u64
    });
    let (backend, _) = GLRenderer::flush_renderer(frame);
    assert_eq!(loads.get(), 1);

    // The next frame reuses the cached font: the loader stays silent
    // and the drawn font is still the one loaded first.
    let mut frame = backend.new_renderer(WHITE, 800, 600, 100);
    frame.draw_text(Point { x: 0, y: 0 }, &item, metrics, || {
        loads.set(loads.get() + 1);
        99u64
    });
    let (_backend, commands) = GLRenderer::flush_renderer(frame);
    assert_eq!(loads.get(), 1);
    match &commands[1] {
        DrawCommand::FillText { font_id, .. } => assert_eq!(*font_id, 7),
        other => panic!("expected a text draw, got {:?}", other),
    }
}

#[test]
fn images_with_one_content_key_are_decoded_once() {
    let mut backend = GLRenderer::new();
    let slot_a = backend.allocate_item_cache_slot();
    let slot_b = backend.allocate_item_cache_slot();
    let source = || Resource::EmbeddedData { address: 0x4000, length: 128 };
    let decodes = Cell::new(0u32);
    let decode = || {
        decodes.set(decodes.get() + 1);
        Some(GpuImage { handle: 11, width: 2, height: 2 })
    };

    let mut frame = backend.new_renderer(WHITE, 800, 600, 100);
    let item_a = ImageItem {
        geometry: Rect { x: 0, y: 0, width: 0, height: 0 },
        source: source(),
        cache_slot: slot_a,
    };
    let item_b = ImageItem {
        geometry: Rect { x: 50, y: 0, width: 0, height: 0 },
        source: source(),
        cache_slot: slot_b,
    };
    frame.draw_image(Point { x: 0, y: 0 }, &item_a, decode);
    // The same item again within the frame: its slot answers.
    frame.draw_image(Point { x: 0, y: 0 }, &item_a, decode);
    // Another item with the same content key: the image cache answers.
    frame.draw_image(Point { x: 0, y: 0 }, &item_b, decode);
    let (_backend, commands) = GLRenderer::flush_renderer(frame);
    assert_eq!(decodes.get(), 1);
    let drawn: Vec<u64> = commands
        .iter()
        .filter_map(|c| match c {
            DrawCommand::DrawImage { image, .. } => Some(image.handle),
            _ => None,
        })
        .collect();
    assert_eq!(drawn, vec![11, 11, 11]);
}

#[test]
fn releasing_every_holder_evicts_the_key_and_forces_a_fresh_decode() {
    let mut backend = GLRenderer::new();
    let slot_a = backend.allocate_item_cache_slot();
    let slot_b = backend.allocate_item_cache_slot();
    let source = || Resource::AbsoluteFilePath("/img.png".to_string());
    let decodes = Cell::new(0u32);
    let decode = || {
        decodes.set(decodes.get() + 1);
        Some(GpuImage { handle: 21, width: 4, height: 4 })
    };

    let mut frame = backend.new_renderer(WHITE, 800, 600, 100);
    let item_a = ImageItem {
        geometry: Rect { x: 0, y: 0, width: 0, height: 0 },
        source: source(),
        cache_slot: slot_a,
    };
    let item_b = ImageItem {
        geometry: Rect { x: 0, y: 0, width: 0, height: 0 },
        source: source(),
        cache_slot: slot_b,
    };
    frame.draw_image(Point { x: 0, y: 0 }, &item_a, decode);
    frame.draw_image(Point { x: 0, y: 0 }, &item_b, decode);
    let (mut backend, _) = GLRenderer::flush_renderer(frame);
    assert_eq!(decodes.get(), 1);

    // Dropping the holders one by one: the GPU image is deleted
    // exactly when the last one goes, not before and not later.
    assert_eq!(backend.release_item_graphics_cache(slot_a), None);
    assert_eq!(backend.release_item_graphics_cache(slot_b), Some(21));

    // One frame completes; the dead entry is swept, so the next draw
    // of the same key decodes afresh.
    let frame = backend.new_renderer(WHITE, 800, 600, 100);
    let (mut backend, _) = GLRenderer::flush_renderer(frame);
    let slot_c = backend.allocate_item_cache_slot();
    let item_c = ImageItem {
        geometry: Rect { x: 0, y: 0, width: 0, height: 0 },
        source: source(),
        cache_slot: slot_c,
    };
    let mut frame = backend.new_renderer(WHITE, 800, 600, 100);
    frame.draw_image(Point { x: 0, y: 0 }, &item_c, decode);
    let (_backend, _) = GLRenderer::flush_renderer(frame);
    assert_eq!(decodes.get(), 2);
}

#[test]
fn an_empty_source_draws_nothing_and_decodes_nothing() {
    let mut backend = GLRenderer::new();
    let slot = backend.allocate_item_cache_slot();
    let decodes = Cell::new(0u32);
    let mut frame = backend.new_renderer(WHITE, 800, 600, 100);
    let item = ImageItem {
        geometry: Rect { x: 0, y: 0, width: 10, height: 10 },
        source: Resource::Empty,
        cache_slot: slot,
    };
    frame.draw_image(Point { x: 0, y: 0 }, &item, || {
        decodes.set(decodes.get() + 1);
        Some(GpuImage { handle: 1, width: 1, height: 1 })
    });
    let (_backend, commands) = GLRenderer::flush_renderer(frame);
    assert_eq!(decodes.get(), 0);
    assert_eq!(commands.len(), 1); // only the clear
}

#[test]
fn a_failed_decode_skips_the_draw_and_is_retried_next_time() {
    let mut backend = GLRenderer::new();
    let slot = backend.allocate_item_cache_slot();
    let decodes = Cell::new(0u32);
    let item = ImageItem {
        geometry: Rect { x: 0, y: 0, width: 10, height: 10 },
        source: Resource::AbsoluteFilePath("/broken.png".to_string()),
        cache_slot: slot,
    };
    let mut frame = backend.new_renderer(WHITE, 800, 600, 100);
    frame.draw_image(Point { x: 0, y: 0 }, &item, || {
        decodes.set(decodes.get() + 1);
        None
    });
    frame.draw_image(Point { x: 0, y: 0 }, &item, || {
        decodes.set(decodes.get() + 1);
        None
    });
    let (_backend, commands) = GLRenderer::flush_renderer(frame);
    assert_eq!(decodes.get(), 2); // nothing was cached, both draws tried
    assert_eq!(commands.len(), 1); // neither drew
}

#[test]
fn clipped_image_reads_through_its_clip_window() {
    let mut backend = GLRenderer::new();
    let slot = backend.allocate_item_cache_slot();
    let mut frame = backend.new_renderer(WHITE, 800, 600, 100);
    let item = ClippedImageItem {
        geometry: Rect { x: 0, y: 0, width: 0, height: 0 },
        source: Resource::AbsoluteFilePath("/img.png".to_string()),
        source_clip: Rect { x: 8, y: 4, width: 16, height: 12 },
        cache_slot: slot,
    };
    frame.draw_clipped_image(Point { x: 0, y: 0 }, &item, || {
        Some(GpuImage { handle: 31, width: 64, height: 64 })
    });
    let (_backend, commands) = GLRenderer::flush_renderer(frame);
    match &commands[1] {
        DrawCommand::DrawImage { source, .. } => {
            assert_eq!(*source, Rect { x: 8, y: 4, width: 16, height: 12 });
        }
        other => panic!("expected an image draw, got {:?}", other),
    }
}

#[test]
fn clipped_image_with_empty_window_behaves_like_a_plain_image() {
    let mut backend = GLRenderer::new();
    let slot = backend.allocate_item_cache_slot();
    let mut frame = backend.new_renderer(WHITE, 800, 600, 100);
    let item = ClippedImageItem {
        geometry: Rect { x: 0, y: 0, width: 0, height: 0 },
        source: Resource::AbsoluteFilePath("/img.png".to_string()),
        source_clip: Rect { x: 3, y: 3, width: 0, height: 0 },
        cache_slot: slot,
    };
    frame.draw_clipped_image(Point { x: 0, y: 0 }, &item, || {
        Some(GpuImage { handle: 32, width: 64, height: 48 })
    });
    let (_backend, commands) = GLRenderer::flush_renderer(frame);
    match &commands[1] {
        DrawCommand::DrawImage { source, .. } => {
            assert_eq!(*source, Rect { x: 0, y: 0, width: 64, height: 48 });
        }
        other => panic!("expected an image draw, got {:?}", other),
    }
}

#[test]
fn cached_pixmap_uploads_once_until_released() {
    let mut backend = GLRenderer::new();
    let slot = backend.allocate_item_cache_slot();
    let uploads = Cell::new(0u32);
    let upload = || {
        uploads.set(uploads.get() + 1);
        Some(GpuImage { handle: 41, width: 12, height: 12 })
    };
    let mut frame = backend.new_renderer(WHITE, 800, 600, 100);
    frame.draw_cached_pixmap(slot, Point { x: 2, y: 3 }, upload);
    frame.draw_cached_pixmap(slot, Point { x: 2, y: 3 }, upload);
    let (mut backend, commands) = GLRenderer::flush_renderer(frame);
    assert_eq!(uploads.get(), 1);
    assert_eq!(commands.len(), 3);

    // The pixmap's image is owned by its slot alone: releasing the
    // slot deletes it at once.
    assert_eq!(backend.release_item_graphics_cache(slot), Some(41));
}

#[test]
fn clip_stack_keeps_push_order_and_reset_replays_it() {
    let backend = GLRenderer::new();
    let mut frame = backend.new_renderer(WHITE, 800, 600, 100);
    let r1 = ClipItem { geometry: Rect { x: 0, y: 0, width: 100, height: 100 } };
    let r2 = ClipItem { geometry: Rect { x: 10, y: 10, width: 50, height: 50 } };
    frame.combine_clip(Point { x: 0, y: 0 }, &r1);
    frame.combine_clip(Point { x: 5, y: 5 }, &r2);
    let saved = frame.clip_rects();
    assert_eq!(saved, vec![
        Rect { x: 0, y: 0, width: 100, height: 100 },
        Rect { x: 15, y: 15, width: 50, height: 50 },
    ]);

    // Restoring the saved stack lifts the scissor and re-applies each
    // rectangle in push order.
    frame.reset_clip(saved.clone());
    let (_backend, commands) = GLRenderer::flush_renderer(frame);
    assert_eq!(&commands[3..], &[
        DrawCommand::ResetScissor,
        DrawCommand::IntersectScissor { rect: Rect { x: 0, y: 0, width: 100, height: 100 } },
        DrawCommand::IntersectScissor { rect: Rect { x: 15, y: 15, width: 50, height: 50 } },
    ]);
}

#[test]
fn reset_to_an_empty_stack_clears_it() {
    let backend = GLRenderer::new();
    let mut frame = backend.new_renderer(WHITE, 800, 600, 100);
    let r1 = ClipItem { geometry: Rect { x: 0, y: 0, width: 100, height: 100 } };
    frame.combine_clip(Point { x: 0, y: 0 }, &r1);
    frame.reset_clip(Vec::new());
    assert_eq!(frame.clip_rects(), Vec::new());
    // Combining again reproduces the same stack as never having reset.
    frame.combine_clip(Point { x: 0, y: 0 }, &r1);
    assert_eq!(frame.clip_rects(), vec![Rect { x: 0, y: 0, width: 100, height: 100 }]);
    let (_backend, _) = GLRenderer::flush_renderer(frame);
}

#[test]
fn unimplemented_draws_are_no_ops() {
    let backend = GLRenderer::new();
    let mut frame = backend.new_renderer(WHITE, 800, 600, 100);
    frame.draw_text_input(
        Point { x: 0, y: 0 },
        &TextInputItem { geometry: Rect { x: 0, y: 0, width: 10, height: 10 } },
    );
    frame.draw_path(
        Point { x: 0, y: 0 },
        &PathItem { geometry: Rect { x: 0, y: 0, width: 10, height: 10 } },
    );
    let (_backend, commands) = GLRenderer::flush_renderer(frame);
    assert_eq!(commands.len(), 1); // only the clear
}

#[test]
fn scale_factor_is_carried_through_the_frame() {
    let backend = GLRenderer::new();
    let frame = backend.new_renderer(WHITE, 800, 600, 175);
    assert_eq!(frame.scale_factor(), 175);
    let (_backend, _) = GLRenderer::flush_renderer(frame);
}
