use gpui_window::entity::{EntityId, Handle, LeaseError};
use gpui_window::geometry::{Bounds, Pixels, Point, ScaleFactor, Size};
use gpui_window::layout::{Length, LayoutError, LayoutId, Style};
use gpui_window::scene::{FontId, GlyphError, GlyphId, Hsla};
use gpui_window::stacking::StackingOrder;
use gpui_window::window::{
    AppContext, TextStyleRefinement, ViewContext, Window, WindowContext, WindowHandle, WindowId,
};

fn px(n: i64) -> Pixels {
    Pixels(n * 64)
}

fn size(w: i64, h: i64) -> Size {
    Size { width: px(w), height: px(h) }
}

fn point(x: i64, y: i64) -> Point {
    Point { x: px(x), y: px(y) }
}

fn fixed(w: i64, h: i64) -> Style {
    Style { width: Length::Pixels(px(w)), height: Length::Pixels(px(h)) }
}

fn open(w: i64, h: i64, scale: i64) -> WindowContext<i32> {
    let handle = WindowHandle::new(WindowId(1)).into_any();
    let window = Window::new(handle, size(w, h), ScaleFactor(scale), point(0, 0));
    WindowContext::mutable(AppContext::new(), window)
}

fn white() -> Hsla {
    Hsla { h: 0, s: 0, l: 1000, a: 1000 }
}

fn ink(w: i64, h: i64) -> Bounds {
    Bounds { origin: point(0, 0), size: size(w, h) }
}

fn new_entity(cx: WindowContext<i32>, value: i32) -> (WindowContext<i32>, Handle) {
    cx.entity(move |vcx: ViewContext<i32>| (vcx, value))
}

#[test]
fn leaf_layout_at_double_scale() {
    let mut cx = open(800, 600, 128);
    let id = cx.request_layout(fixed(100, 50), vec![]).unwrap();
    cx.compute_layout(id, size(800, 600)).unwrap();
    let layout = cx.layout(id).unwrap();
    assert_eq!(layout.bounds.origin, point(0, 0));
    assert_eq!(layout.bounds.size, size(100, 50));
    let s = cx.scale_factor();
    assert_eq!(layout.bounds.size.width.scale(s), px(200));
    assert_eq!(layout.bounds.size.height.scale(s), px(100));
}

#[test]
fn observer_of_dropped_entity_is_not_delivered() {
    let cx = open(800, 600, 64);
    let (cx, a) = new_entity(cx, 1);
    let (cx, b) = new_entity(cx, 2);
    let (mut cx, r) = cx.update_entity(&b, |v: i32, mut vcx: ViewContext<i32>| {
        vcx.observe(&a);
        (v, vcx, ())
    });
    assert_eq!(r, Ok(()));
    assert_eq!(cx.app.observers.len(), 1);
    let obs = cx.app.observers[0];
    cx.app.entities.release(a);
    let (cx, delivered) = cx.notify_observer(obs, |v: i32, _w, vcx: ViewContext<i32>| (v + 10, vcx, ()));
    assert!(!delivered);
    let (_cx, seen) = cx.update_entity(&b, |v: i32, vcx: ViewContext<i32>| (v, vcx, v));
    assert_eq!(seen, Ok(2));
}

#[test]
fn observer_of_live_entity_is_delivered() {
    let cx = open(800, 600, 64);
    let (cx, a) = new_entity(cx, 1);
    let (cx, b) = new_entity(cx, 2);
    let (cx, _) = cx.update_entity(&b, |v: i32, mut vcx: ViewContext<i32>| {
        vcx.observe(&a);
        (v, vcx, ())
    });
    let obs = cx.app.observers[0];
    assert_eq!(obs.target.id, a.id);
    assert_eq!(obs.observer.id, b.id);
    let (cx, delivered) = cx.notify_observer(obs, |v: i32, _w, vcx: ViewContext<i32>| (v + 10, vcx, ()));
    assert!(delivered);
    let (_cx, seen) = cx.update_entity(&b, |v: i32, vcx: ViewContext<i32>| (v, vcx, v));
    assert_eq!(seen, Ok(12));
}

#[test]
fn observer_of_other_window_is_not_delivered() {
    let cx = open(800, 600, 64);
    let (cx, a) = new_entity(cx, 1);
    let (cx, b) = new_entity(cx, 2);
    let (cx, _) = cx.update_entity(&b, |v: i32, mut vcx: ViewContext<i32>| {
        vcx.observe(&a);
        (v, vcx, ())
    });
    let mut obs = cx.app.observers[0];
    obs.window = WindowId(9);
    let (_cx, delivered) = cx.notify_observer(obs, |v: i32, _w, vcx: ViewContext<i32>| (v, vcx, ()));
    assert!(!delivered);
}

#[test]
fn update_sequence_stores_each_result() {
    let cx = open(800, 600, 64);
    let (mut cx, h) = new_entity(cx, 0);
    for k in 1..5 {
        let (next, r) = cx.update_entity(&h, move |v: i32, vcx: ViewContext<i32>| (v + k, vcx, v));
        cx = next;
        assert!(r.is_ok());
    }
    let (_cx, seen) = cx.update_entity(&h, |v: i32, vcx: ViewContext<i32>| (v, vcx, v));
    assert_eq!(seen, Ok(10));
}

#[test]
fn nested_lease_of_same_entity_fails() {
    let cx = open(800, 600, 64);
    let (cx, h) = new_entity(cx, 5);
    let (cx, r) = cx.update_entity(&h, |v: i32, vcx: ViewContext<i32>| {
        let ViewContext { window_cx, entity_id } = vcx;
        let (window_cx, inner) = window_cx.update_entity(&h, |w: i32, vcx: ViewContext<i32>| (w + 1, vcx, w));
        (v * 2, ViewContext::mutable(window_cx, entity_id), inner)
    });
    assert_eq!(r, Ok(Err(LeaseError::AlreadyLeased)));
    let (_cx, seen) = cx.update_entity(&h, |v: i32, vcx: ViewContext<i32>| (v, vcx, v));
    assert_eq!(seen, Ok(10));
}

#[test]
fn update_of_dropped_entity_is_not_found() {
    let cx = open(800, 600, 64);
    let (mut cx, h) = new_entity(cx, 5);
    let id = h.id;
    cx.app.entities.release(h);
    let stale = Handle { id };
    let (_cx, r) = cx.update_entity(&stale, |v: i32, vcx: ViewContext<i32>| (v, vcx, ()));
    assert_eq!(r, Err(LeaseError::NotFound));
    let (_cx2, r2) = open(10, 10, 64).update_entity(&Handle { id: EntityId(3) }, |v: i32, vcx: ViewContext<i32>| (v, vcx, ()));
    assert_eq!(r2, Err(LeaseError::NotFound));
}

#[test]
fn weak_handle_names_the_entity() {
    let cx = open(800, 600, 64);
    let (cx, h) = new_entity(cx, 5);
    let (_cx, w) = cx.update_entity(&h, |v: i32, vcx: ViewContext<i32>| {
        let w = vcx.handle();
        (v, vcx, w)
    });
    assert_eq!(w.unwrap().id, h.id);
}

#[test]
fn stack_restores_order_at_every_depth() {
    let cx = open(800, 600, 64);
    let (cx, inner) = cx.stack(1, |cx| {
        let (cx, deep) = cx.stack(2, |cx| {
            let (cx, deepest) = cx.stack(3, |cx| {
                let l = cx.current_layer_id().to_vec();
                (cx, l)
            });
            let here = cx.current_layer_id().to_vec();
            (cx, (deepest, here))
        });
        let here = cx.current_layer_id().to_vec();
        (cx, (deep, here))
    });
    assert_eq!(inner.0 .0, vec![1, 2, 3]);
    assert_eq!(inner.0 .1, vec![1, 2]);
    assert_eq!(inner.1, vec![1]);
    assert_eq!(cx.current_layer_id().len(), 0);
}

#[test]
fn stack_tags_painted_sprites() {
    let cx = open(800, 600, 64);
    let (cx, _) = cx.stack(7, |mut cx| {
        let r = cx.paint_glyph(point(1, 1), 0, FontId(1), GlyphId(2), px(12), white(), ink(4, 4), |_, _| true);
        (cx, r)
    });
    assert_eq!(cx.scene().entries.len(), 1);
    assert_eq!(cx.scene().entries[0].layer.to_vec(), vec![7]);
}

#[test]
fn glyph_cache_hits_on_second_paint() {
    let mut cx = open(800, 600, 128);
    let first = cx.paint_glyph(point(10, 20), 3, FontId(1), GlyphId(65), px(14), white(), ink(8, 10), |_, _| true).unwrap().unwrap();
    let second = cx.paint_glyph(point(10, 20), 3, FontId(1), GlyphId(65), px(14), white(), ink(8, 10), |_, _| true).unwrap().unwrap();
    assert!(first.1);
    assert!(!second.1);
    assert_eq!(first.0, second.0);
    assert_eq!(cx.scene().entries.len(), 2);
    let other = cx.paint_glyph(point(10, 20), 3, FontId(1), GlyphId(66), px(14), white(), ink(8, 10), |_, _| true).unwrap().unwrap();
    assert!(other.1);
    assert_ne!(other.0, first.0);
}

#[test]
fn empty_ink_box_paints_nothing() {
    let mut cx = open(800, 600, 64);
    let r = cx.paint_glyph(point(10, 20), 3, FontId(1), GlyphId(32), px(14), white(), ink(0, 10), |_, _| true);
    assert_eq!(r, Ok(None));
    assert_eq!(cx.scene().entries.len(), 0);
}

#[test]
fn glyph_subpixel_bucket_and_origin() {
    let mut cx = open(800, 600, 128);
    // 10 + 20/64 px, doubled: 20 + 40/64 px, which is bucket 2 of 4.
    let origin = Point { x: Pixels(10 * 64 + 20), y: px(5) };
    let params = cx.glyph_params(origin, FontId(1), GlyphId(2), px(12));
    assert_eq!(params.subpixel_x, 2);
    assert_eq!(params.subpixel_y, 0);
    assert_eq!(params.scale_factor, ScaleFactor(128));
    let raster = Bounds { origin: Point { x: px(-1), y: px(-9) }, size: size(6, 9) };
    cx.paint_glyph(origin, 4, FontId(1), GlyphId(2), px(12), white(), raster, |_, _| true).unwrap();
    let sprite = cx.scene().entries[0].sprite;
    assert_eq!(sprite.bounds.origin, Point { x: px(19), y: px(1) });
    assert_eq!(sprite.bounds.size, size(6, 9));
    assert_eq!(sprite.clip_bounds, sprite.bounds);
    assert_eq!(sprite.order, 4);
}

#[test]
fn subpixel_of_negative_coordinate() {
    // -1/64 px lies in the last quarter of the pixel below.
    assert_eq!(Pixels(-1).subpixel_variant(), 3);
    assert_eq!(Pixels(-1).floor(), Pixels(-64));
    assert_eq!(Pixels(-64).floor(), Pixels(-64));
    assert_eq!(Pixels(-65).scale(ScaleFactor(32)), Pixels(-33));
}

#[test]
fn same_request_twice_gives_fresh_ids_and_equal_bounds() {
    let mut cx = open(800, 600, 64);
    let a = cx.request_layout(fixed(30, 40), vec![]).unwrap();
    let b = cx.request_layout(fixed(30, 40), vec![]).unwrap();
    assert_ne!(a, b);
    cx.compute_layout(a, size(300, 300)).unwrap();
    cx.compute_layout(b, size(300, 300)).unwrap();
    assert_eq!(cx.layout(a).unwrap().bounds, cx.layout(b).unwrap().bounds);
}

#[test]
fn children_take_parent_space() {
    let mut cx = open(800, 600, 64);
    let auto = Style { width: Length::Auto, height: Length::Auto };
    let leaf = cx.request_layout(Style { width: Length::Auto, height: Length::Pixels(px(20)) }, vec![]).unwrap();
    let other = cx.request_layout(fixed(5, 5), vec![]).unwrap();
    let root = cx.request_layout(Style { width: Length::Rems(2 * 64), height: Length::Auto }, vec![leaf, other]).unwrap();
    assert_eq!(cx.app.layout_id_buffer, vec![leaf, other]);
    let layout = cx.layout_root(root).unwrap();
    // two rems of 16 px each; auto height takes the window's 600 px.
    assert_eq!(layout.bounds.size, size(32, 600));
    assert_eq!(layout.order, 0);
    let child = cx.layout(leaf).unwrap();
    assert_eq!(child.bounds.size, size(32, 20));
    assert_eq!(child.order, 0);
    assert_eq!(cx.layout(other).unwrap().order, 1);
    let _ = auto;
}

#[test]
fn measured_layout_fills_auto_axes() {
    let mut cx = open(800, 600, 64);
    let rem = cx.rem_size();
    assert_eq!(rem, px(16));
    let style = Style { width: Length::Auto, height: Length::Pixels(px(7)) };
    let id = cx.request_measured_layout(style, rem, size(44, 33)).unwrap();
    cx.compute_layout(id, size(100, 100)).unwrap();
    assert_eq!(cx.layout(id).unwrap().bounds.size, size(44, 7));
}

#[test]
fn layout_errors() {
    let mut cx = open(800, 600, 64);
    assert_eq!(cx.layout(LayoutId { engine: 1, index: 0 }), Err(LayoutError::UnknownId));
    assert_eq!(cx.request_layout(fixed(1, 1), vec![LayoutId { engine: 1, index: 3 }]), Err(LayoutError::UnknownChild));
    let huge = Style { width: Length::Pixels(Pixels(i64::MAX)), height: Length::Auto };
    assert_eq!(cx.request_layout(huge, vec![]), Err(LayoutError::InvalidStyle));
    let id = cx.request_layout(fixed(1, 1), vec![]).unwrap();
    assert_eq!(cx.layout(id), Err(LayoutError::NotComputed));
    assert_eq!(cx.compute_layout(LayoutId { engine: 1, index: 5 }, size(1, 1)), Err(LayoutError::UnknownId));
    assert_eq!(cx.request_measured_layout(huge, px(16), size(1, 1)), Err(LayoutError::InvalidStyle));
}

fn layout_leaf(mut cx: WindowContext<i32>) -> (WindowContext<i32>, Result<LayoutId, LayoutError>) {
    let r = cx.request_layout(fixed(10, 10), vec![]);
    (cx, r)
}

fn paint_one(mut cx: WindowContext<i32>, _l: gpui_window::layout::Layout) -> (WindowContext<i32>, Result<(), LayoutError>) {
    cx.paint_glyph(point(1, 1), 0, FontId(1), GlyphId(1), px(10), white(), ink(3, 3), |_, _| true);
    (cx, Ok(()))
}

#[test]
fn draw_twice_without_notify_stays_clean() {
    let cx = open(800, 600, 64);
    assert!(cx.needs_draw());
    let (cx, scene) = cx.draw(layout_leaf, paint_one);
    assert_eq!(scene.unwrap().entries.len(), 1);
    assert!(!cx.needs_draw());
    assert_eq!(cx.scene().entries.len(), 0);
    let (cx, scene) = cx.draw(layout_leaf, paint_one);
    assert!(scene.is_ok());
    assert!(!cx.needs_draw());
}

#[test]
fn notify_during_draw_is_kept() {
    let cx = open(800, 600, 64);
    let (cx, scene) = cx.draw(layout_leaf, |mut cx: WindowContext<i32>, _l| {
        cx.notify();
        (cx, Ok(()))
    });
    assert!(scene.is_ok());
    assert!(cx.needs_draw());
}

#[test]
fn failed_draw_keeps_redraw_owed() {
    let cx = open(800, 600, 64);
    let (cx, _) = cx.draw(layout_leaf, paint_one);
    assert!(!cx.needs_draw());
    let (cx, scene) = cx.draw(
        |cx: WindowContext<i32>| (cx, Err(LayoutError::InvalidStyle)),
        paint_one,
    );
    assert_eq!(scene.err(), Some(LayoutError::InvalidStyle));
    assert!(cx.needs_draw());
    let (cx, scene) = cx.draw(layout_leaf, |cx: WindowContext<i32>, _l| {
        let mut cx = cx;
        cx.paint_glyph(point(1, 1), 0, FontId(1), GlyphId(1), px(10), white(), ink(3, 3), |_, _| true);
        (cx, Err(LayoutError::NotComputed))
    });
    assert!(scene.is_err());
    assert!(cx.needs_draw());
    assert_eq!(cx.scene().entries.len(), 0);
}

#[test]
fn view_notify_queues_effect_and_marks_dirty() {
    let cx = open(800, 600, 64);
    let (cx, _) = cx.draw(layout_leaf, paint_one);
    let (cx, h) = new_entity(cx, 1);
    assert!(!cx.needs_draw());
    let (cx, _) = cx.update_entity(&h, |v: i32, mut vcx: ViewContext<i32>| {
        vcx.notify();
        (v, vcx, ())
    });
    assert!(cx.needs_draw());
    assert_eq!(cx.app.pending_effects.len(), 1);
    assert_eq!(cx.app.pending_effects[0], gpui_window::window::Effect::Notify(h.id));
}

#[test]
fn resize_replaces_scene_and_marks_dirty() {
    let mut cx = open(800, 600, 64);
    cx.paint_glyph(point(1, 1), 0, FontId(1), GlyphId(1), px(10), white(), ink(3, 3), |_, _| true);
    let (mut cx, _) = cx.draw(layout_leaf, paint_one);
    cx.window.resize(size(1024, 768), ScaleFactor(96));
    assert!(cx.needs_draw());
    assert_eq!(cx.scale_factor(), ScaleFactor(96));
    assert_eq!(cx.scene().entries.len(), 0);
    let id = cx.request_layout(Style { width: Length::Auto, height: Length::Auto }, vec![]).unwrap();
    assert_eq!(cx.layout_root(id).unwrap().bounds.size, size(1024, 768));
    cx.window.set_mouse_position(point(3, 4));
    assert_eq!(cx.mouse_position(), point(3, 4));
}

#[test]
fn stacking_order_push_pop() {
    let mut s = StackingOrder::new();
    assert_eq!(s.pop(), None);
    s.push(4);
    s.push(9);
    assert_eq!(s.len(), 2);
    assert_eq!(s.get(1), Some(9));
    assert_eq!(s.get(2), None);
    let copy = s.snapshot();
    assert_eq!(s.pop(), Some(9));
    assert_eq!(s.to_vec(), vec![4]);
    assert_eq!(copy.to_vec(), vec![4, 9]);
}

#[test]
fn text_style_scope_is_restored() {
    let cx = open(800, 600, 64);
    let (cx, h) = new_entity(cx, 1);
    let bold = TextStyleRefinement { font_id: Some(FontId(2)), font_size: None, color: None };
    let big = TextStyleRefinement { font_id: None, font_size: Some(px(30)), color: None };
    let (cx, depth) = cx.update_entity(&h, move |v: i32, vcx: ViewContext<i32>| {
        let (vcx, depths) = vcx.with_text_style(bold, move |vcx: ViewContext<i32>| {
            let outer = vcx.window_cx.app.text_style_stack.len();
            let (vcx, inner) = vcx.with_text_style(big, |vcx: ViewContext<i32>| {
                let top = *vcx.window_cx.app.text_style_stack.last().unwrap();
                let n = vcx.window_cx.app.text_style_stack.len();
                (vcx, (n, top))
            });
            (vcx, (outer, inner))
        });
        let after = vcx.window_cx.app.text_style_stack.len();
        (v, vcx, (depths, after))
    });
    let ((outer, (inner, top)), after) = depth.unwrap();
    assert_eq!(outer, 1);
    assert_eq!(inner, 2);
    assert_eq!(top, big);
    assert_eq!(after, 0);
    assert_eq!(cx.app.text_style_stack.len(), 0);
}

#[test]
fn erase_state_rescopes_and_restores() {
    let cx = open(800, 600, 64);
    let (cx, unit) = new_entity(cx, 0);
    let (cx, h) = new_entity(cx, 1);
    let unit_id = unit.id;
    let (_cx, seen) = cx.update_entity(&h, move |v: i32, vcx: ViewContext<i32>| {
        let (vcx, inside) = vcx.erase_state(unit_id, |vcx: ViewContext<i32>| {
            let id = vcx.handle().id;
            (vcx, id)
        });
        let outside = vcx.handle().id;
        (v, vcx, (inside, outside))
    });
    let (inside, outside) = seen.unwrap();
    assert_eq!(inside, unit_id);
    assert_eq!(outside, h.id);
}

#[test]
fn failed_rasterization_paints_nothing_and_is_retried() {
    let mut cx = open(800, 600, 64);
    let r = cx.paint_glyph(point(2, 2), 0, FontId(1), GlyphId(7), px(12), white(), ink(5, 5), |_, _| false);
    assert_eq!(r, Err(GlyphError::RasterizeFailed));
    assert_eq!(cx.scene().entries.len(), 0);
    let mut asked = 0;
    let r = cx.paint_glyph(point(2, 2), 0, FontId(1), GlyphId(7), px(12), white(), ink(5, 5), |_, t| {
        asked += 1;
        t.id == 0
    });
    assert_eq!(asked, 1);
    assert_eq!(r.unwrap().unwrap().1, true);
    assert_eq!(cx.scene().entries.len(), 1);
    let r = cx.paint_glyph(point(2, 2), 0, FontId(1), GlyphId(7), px(12), white(), ink(5, 5), |_, _| false);
    assert_eq!(r.unwrap().unwrap().1, false);
}

#[test]
fn ids_of_another_window_are_refused() {
    let mut first = open(800, 600, 64);
    let id = first.request_layout(fixed(10, 10), vec![]).unwrap();
    let handle = WindowHandle::new(WindowId(2)).into_any();
    let window = Window::new(handle, size(800, 600), ScaleFactor(64), point(0, 0));
    let mut second: WindowContext<i32> = WindowContext::mutable(AppContext::new(), window);
    let own = second.request_layout(fixed(20, 20), vec![]).unwrap();
    assert_eq!(own.index, id.index);
    assert_ne!(own, id);
    assert_eq!(second.layout(id), Err(LayoutError::UnknownId));
    assert_eq!(second.compute_layout(id, size(5, 5)), Err(LayoutError::UnknownId));
    assert_eq!(second.request_layout(fixed(1, 1), vec![id]), Err(LayoutError::UnknownChild));
    assert_eq!(second.layout_root(id), Err(LayoutError::UnknownId));
}

#[test]
fn state_scope_is_popped() {
    let cx = open(800, 600, 64);
    let (cx, h) = new_entity(cx, 1);
    let (cx, seen) = cx.update_entity(&h, |v: i32, vcx: ViewContext<i32>| {
        let (vcx, inner) = vcx.with_state(42, |vcx: ViewContext<i32>| {
            let top = *vcx.window_cx.app.state_stack.last().unwrap();
            (vcx, top)
        });
        let after = vcx.window_cx.app.state_stack.len();
        (v, vcx, (inner, after))
    });
    assert_eq!(seen, Ok((42, 0)));
    assert_eq!(cx.app.state_stack.len(), 0);
}

#[test]
fn notify_during_layout_is_kept() {
    let cx = open(800, 600, 64);
    let (cx, scene) = cx.draw(
        |mut cx: WindowContext<i32>| {
            cx.notify();
            let r = cx.request_layout(fixed(10, 10), vec![]);
            (cx, r)
        },
        paint_one,
    );
    assert!(scene.is_ok());
    assert!(cx.needs_draw());
}

#[test]
fn draw_with_unissued_root_fails() {
    let cx = open(800, 600, 64);
    let (cx, scene) = cx.draw(
        |cx: WindowContext<i32>| (cx, Ok(LayoutId { engine: 1, index: 9 })),
        paint_one,
    );
    assert_eq!(scene.err(), Some(LayoutError::UnknownId));
    assert!(cx.needs_draw());
}
