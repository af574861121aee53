use vstd::prelude::*;
use crate::entity::{EntityId, EntityMap, Handle, LeaseError, Slot, WeakHandle};
use crate::geometry::{coord_ok, point_ok, scale_ok, Bounds, Pixels, Point, ScaleFactor, Size};
use crate::layout::{Layout, LayoutEngine, LayoutError, LayoutId, Style};
use crate::scene::{AtlasTile, Corners, GlyphError, FontId, GlyphAtlas, GlyphId, GlyphRasterizationParams, Hsla, MonochromeSprite, Scene};
use crate::stacking::StackingOrder;

verus! {

/// Marker for a window whose root view type is not known.
pub struct AnyWindow {}

/// Identity of an open window.
#[derive(Clone, Copy, Debug, PartialEq, Eq, Structural)]
pub struct WindowId(pub u64);

/// A handle to a window.
#[derive(Clone, Copy, Debug, PartialEq, Eq, Structural)]
pub struct WindowHandle {
    pub id: WindowId,
}

impl WindowHandle {
    pub fn new(id: WindowId) -> (r: WindowHandle)
        ensures
            r.id == id,
    {
        WindowHandle { id }
    }

    pub fn into_any(self) -> (r: AnyWindowHandle)
        ensures
            r.id == self.id,
    {
        AnyWindowHandle { id: self.id }
    }
}

/// A handle to a window of any root view type.
#[derive(Clone, Copy, Debug, PartialEq, Eq, Structural)]
pub struct AnyWindowHandle {
    pub id: WindowId,
}

/// A deferred effect, drained after the current update completes.
#[derive(Clone, Copy, Debug, PartialEq, Eq, Structural)]
pub enum Effect {
    /// The named entity changed.
    Notify(EntityId),
}

/// A registration made by `observe`: `observer`, in window `window`, wants to
/// hear whenever `target` is notified.
#[derive(Clone, Copy, Debug, PartialEq, Eq, Structural)]
pub struct Observer {
    pub target: WeakHandle,
    pub observer: WeakHandle,
    pub window: WindowId,
}

/// A partial text style; unset fields inherit from the enclosing style.
#[derive(Clone, Copy, Debug, PartialEq, Eq, Structural)]
pub struct TextStyleRefinement {
    pub font_id: Option<FontId>,
    pub font_size: Option<Pixels>,
    pub color: Option<Hsla>,
}

/// Application-wide state shared by all windows.
pub struct AppContext<T> {
    pub entities: EntityMap<T>,
    pub observers: Vec<Observer>,
    pub pending_effects: Vec<Effect>,
    pub layout_id_buffer: Vec<LayoutId>,
    pub text_style_stack: Vec<TextStyleRefinement>,
    pub state_stack: Vec<T>,
}

impl<T> AppContext<T> {
    pub open spec fn wf(&self) -> bool {
        self.entities.wf()
    }

    pub fn new() -> (r: AppContext<T>)
        ensures
            r.wf(),
            r.entities.slots().len() == 0,
            r.observers@.len() == 0,
            r.pending_effects@.len() == 0,
            r.text_style_stack@.len() == 0,
            r.state_stack@.len() == 0,
    {
        AppContext {
            entities: EntityMap::new(),
            observers: Vec::new(),
            pending_effects: Vec::new(),
            layout_id_buffer: Vec::new(),
            text_style_stack: Vec::new(),
            state_stack: Vec::new(),
        }
    }
}

/// One platform window's state: layout engine, scene, stacking order,
/// glyph cache and the frame cycle's flags.
pub struct Window {
    handle: AnyWindowHandle,
    glyph_atlas: GlyphAtlas,
    rem_size: Pixels,
    content_size: Size,
    layout_engine: LayoutEngine,
    mouse_position: Point,
    current_layer_id: StackingOrder,
    scene: Scene,
    dirty: bool,
    drawing: bool,
}

/// The default rem unit: 16 pixels.
pub const DEFAULT_REM_SIZE: i64 = 1024;

impl Window {
    pub closed spec fn handle_spec(&self) -> AnyWindowHandle {
        self.handle
    }

    pub closed spec fn atlas(&self) -> GlyphAtlas {
        self.glyph_atlas
    }

    pub closed spec fn rem(&self) -> Pixels {
        self.rem_size
    }

    pub closed spec fn content(&self) -> Size {
        self.content_size
    }

    pub closed spec fn engine(&self) -> LayoutEngine {
        self.layout_engine
    }

    pub closed spec fn mouse(&self) -> Point {
        self.mouse_position
    }

    pub closed spec fn layers(&self) -> Seq<u32> {
        self.current_layer_id@
    }

    pub closed spec fn scene_spec(&self) -> Scene {
        self.scene
    }

    pub closed spec fn is_dirty(&self) -> bool {
        self.dirty
    }

    pub closed spec fn is_drawing(&self) -> bool {
        self.drawing
    }

    pub open spec fn wf(&self) -> bool {
        &&& self.atlas().wf()
        &&& self.engine().wf()
        &&& coord_ok(self.rem())
        &&& scale_ok(self.scene_spec().scale_factor)
    }

    /// A window as the platform opened it: dirty, so that a first frame is drawn.
    pub fn new(handle: AnyWindowHandle, content_size: Size, scale_factor: ScaleFactor, mouse_position: Point) -> (r: Window)
        requires
            scale_ok(scale_factor),
        ensures
            r.wf(),
            r.handle_spec() == handle,
            r.content() == content_size,
            r.mouse() == mouse_position,
            r.rem() == Pixels(DEFAULT_REM_SIZE),
            r.layers().len() == 0,
            r.scene_spec().scale_factor == scale_factor,
            r.scene_spec().entries@.len() == 0,
            r.engine().nodes().len() == 0,
            r.engine().instance() == handle.id.0,
            r.atlas().entries().len() == 0,
            r.is_dirty(),
            !r.is_drawing(),
    {
        Window {
            handle,
            glyph_atlas: GlyphAtlas::new(),
            rem_size: Pixels(DEFAULT_REM_SIZE),
            content_size,
            layout_engine: LayoutEngine::new(handle.id.0),
            mouse_position,
            current_layer_id: StackingOrder::new(),
            scene: Scene::new(scale_factor),
            dirty: true,
            drawing: false,
        }
    }

    /// What the platform's resize callback does: a fresh scene at the new
    /// scale, the new content size, and a redraw owed.
    pub fn resize(&mut self, content_size: Size, scale_factor: ScaleFactor)
        requires
            old(self).wf(),
            scale_ok(scale_factor),
        ensures
            final(self).wf(),
            final(self).content() == content_size,
            final(self).scene_spec().scale_factor == scale_factor,
            final(self).scene_spec().entries@.len() == 0,
            final(self).is_dirty(),
            final(self).handle_spec() == old(self).handle_spec(),
            final(self).atlas() == old(self).atlas(),
            final(self).rem() == old(self).rem(),
            final(self).engine() == old(self).engine(),
            final(self).mouse() == old(self).mouse(),
            final(self).layers() == old(self).layers(),
            final(self).is_drawing() == old(self).is_drawing(),
    {
        self.scene = Scene::new(scale_factor);
        self.content_size = content_size;
        self.dirty = true;
    }

    /// Records where the platform last saw the mouse.
    pub fn set_mouse_position(&mut self, p: Point)
        ensures
            final(self).mouse() == p,
            final(self).handle_spec() == old(self).handle_spec(),
            final(self).atlas() == old(self).atlas(),
            final(self).rem() == old(self).rem(),
            final(self).content() == old(self).content(),
            final(self).engine() == old(self).engine(),
            final(self).layers() == old(self).layers(),
            final(self).scene_spec() == old(self).scene_spec(),
            final(self).is_dirty() == old(self).is_dirty(),
            final(self).is_drawing() == old(self).is_drawing(),
    {
        self.mouse_position = p;
    }
}

/// The parts of a window that only the platform changes.
pub open spec fn same_setup(a: &Window, b: &Window) -> bool {
    &&& a.handle_spec() == b.handle_spec()
    &&& a.rem() == b.rem()
    &&& a.content() == b.content()
    &&& a.mouse() == b.mouse()
}

/// The two flags of a window's frame cycle.
#[derive(Clone, Copy, Debug, PartialEq, Eq, Structural)]
pub struct FrameState {
    pub dirty: bool,
    pub drawing: bool,
}

/// What moves a window through its frame cycle.
#[derive(Clone, Copy, Debug, PartialEq, Eq, Structural)]
pub enum FrameEvent {
    /// A notify or a resize.
    Notify,
    /// A draw pass begins.
    Begin,
    /// The pass handed its scene over for presentation.
    Finish,
    /// The pass failed before presenting.
    Abort,
}

/// The frame cycle: Clean, then Dirty on a notify, Drawing while a pass
/// runs, and Clean again once the pass hands its scene over, unless a notify
/// arrived meanwhile. A failed pass leaves the window Dirty.
pub open spec fn frame_step(s: FrameState, e: FrameEvent) -> FrameState {
    match e {
        FrameEvent::Notify => FrameState { dirty: true, drawing: s.drawing },
        FrameEvent::Begin => FrameState { dirty: false, drawing: true },
        FrameEvent::Finish => FrameState { dirty: s.dirty, drawing: false },
        FrameEvent::Abort => FrameState { dirty: true, drawing: false },
    }
}

/// The state after a sequence of events.
pub open spec fn frame_run(s: FrameState, es: Seq<FrameEvent>) -> FrameState
    decreases es.len(),
{
    if es.len() == 0 {
        s
    } else {
        frame_run(frame_step(s, es[0]), es.drop_first())
    }
}

/// Once a redraw is owed, events other than the start of a new pass keep it owed.
pub proof fn lemma_dirty_persists(s: FrameState, es: Seq<FrameEvent>)
    requires
        s.dirty,
        forall|i: int| 0 <= i < es.len() ==> es[i] != FrameEvent::Begin,
    ensures
        frame_run(s, es).dirty,
    decreases es.len(),
{
    if es.len() > 0 {
        assert(es[0] != FrameEvent::Begin);
        assert forall|i: int| 0 <= i < es.drop_first().len() implies es.drop_first()[i] != FrameEvent::Begin by {
            assert(es.drop_first()[i] == es[i + 1]);
        }
        lemma_dirty_persists(frame_step(s, es[0]), es.drop_first());
    }
}

/// Running `a` then `b` is running their concatenation.
pub proof fn lemma_frame_run_concat(s: FrameState, a: Seq<FrameEvent>, b: Seq<FrameEvent>)
    ensures
        frame_run(s, a + b) == frame_run(frame_run(s, a), b),
    decreases a.len(),
{
    if a.len() == 0 {
        assert(a + b =~= b);
    } else {
        assert((a + b).drop_first() =~= a.drop_first() + b);
        lemma_frame_run_concat(frame_step(s, a[0]), a.drop_first(), b);
    }
}

/// A notify that arrives while a pass is drawing is not lost: however the
/// pass goes on and ends, the window owes a redraw afterwards.
pub proof fn lemma_notify_during_draw_kept(s: FrameState, before: Seq<FrameEvent>, after: Seq<FrameEvent>)
    requires
        forall|i: int| 0 <= i < after.len() ==> after[i] != FrameEvent::Begin,
    ensures
        frame_run(s, (before.push(FrameEvent::Notify)) + after).dirty,
{
    lemma_frame_run_concat(s, before.push(FrameEvent::Notify), after);
    lemma_frame_run_concat(s, before, seq![FrameEvent::Notify]);
    assert(before + seq![FrameEvent::Notify] =~= before.push(FrameEvent::Notify));
    let t = frame_run(s, before.push(FrameEvent::Notify));
    assert(frame_run(frame_run(s, before), seq![FrameEvent::Notify]) == frame_step(frame_run(s, before), FrameEvent::Notify)) by {
        assert(seq![FrameEvent::Notify].drop_first() =~= Seq::<FrameEvent>::empty());
        reveal_with_fuel(frame_run, 2);
    }
    lemma_dirty_persists(t, after);
}

/// A pass that completes with no notify leaves the window Clean, and a
/// second such pass right after leaves it Clean too, with no redraw owed
/// between them.
pub proof fn lemma_draw_twice_clean(s: FrameState)
    requires
        !s.drawing,
    ensures
        frame_run(s, seq![FrameEvent::Begin, FrameEvent::Finish]) == (FrameState { dirty: false, drawing: false }),
        frame_run(
            frame_run(s, seq![FrameEvent::Begin, FrameEvent::Finish]),
            seq![FrameEvent::Begin, FrameEvent::Finish],
        ) == (FrameState { dirty: false, drawing: false }),
{
    let es = seq![FrameEvent::Begin, FrameEvent::Finish];
    assert(es.drop_first() =~= seq![FrameEvent::Finish]);
    assert(es.drop_first().drop_first() =~= Seq::<FrameEvent>::empty());
    let clean = FrameState { dirty: false, drawing: false };
    reveal_with_fuel(frame_run, 3);
    assert(frame_run(s, es) == clean);
    assert(frame_run(clean, es) == clean);
}

impl Window {
    pub open spec fn frame(&self) -> FrameState {
        FrameState { dirty: self.is_dirty(), drawing: self.is_drawing() }
    }
}

/// Two windows that differ at most in their stacking order.
pub open spec fn same_but_layers(a: &Window, b: &Window) -> bool {
    &&& same_setup(a, b)
    &&& a.atlas() == b.atlas()
    &&& a.engine() == b.engine()
    &&& a.scene_spec() == b.scene_spec()
    &&& a.is_dirty() == b.is_dirty()
    &&& a.is_drawing() == b.is_drawing()
}

/// What the closures of a draw pass may do to the context: keep it
/// well formed and drawing, leave the platform's values and the stacking
/// order alone, and never clear an owed redraw.
pub open spec fn pass_step<T>(a: &WindowContext<T>, b: &WindowContext<T>) -> bool {
    &&& b.wf()
    &&& b.window.is_drawing()
    &&& same_setup(&b.window, &a.window)
    &&& b.window.layers() == a.window.layers()
    &&& (a.window.is_dirty() ==> b.window.is_dirty())
}

/// `b` is `a` with a draw pass begun.
pub open spec fn begun(b: &Window, a: &Window) -> bool {
    &&& same_setup(b, a)
    &&& b.atlas() == a.atlas()
    &&& b.engine() == a.engine()
    &&& b.layers() == a.layers()
    &&& b.scene_spec() == a.scene_spec()
    &&& b.frame() == frame_step(a.frame(), FrameEvent::Begin)
}

/// A scope-bound view combining application state with one window.
pub struct WindowContext<T> {
    pub app: AppContext<T>,
    pub window: Window,
}

impl<T> WindowContext<T> {
    pub open spec fn wf(&self) -> bool {
        self.app.wf() && self.window.wf()
    }

    pub fn mutable(app: AppContext<T>, window: Window) -> (r: WindowContext<T>)
        ensures
            r.app == app,
            r.window == window,
    {
        WindowContext { app, window }
    }

    /// Marks the window as owing a redraw.
    pub fn notify(&mut self)
        ensures
            final(self).window.frame() == frame_step(old(self).window.frame(), FrameEvent::Notify),
            final(self).app == old(self).app,
            same_setup(&final(self).window, &old(self).window),
            final(self).window.atlas() == old(self).window.atlas(),
            final(self).window.engine() == old(self).window.engine(),
            final(self).window.layers() == old(self).window.layers(),
            final(self).window.scene_spec() == old(self).window.scene_spec(),
            final(self).window.is_drawing() == old(self).window.is_drawing(),
    {
        self.window.dirty = true;
    }

    /// Issues a layout node for `style` over `children`, using the window's rem unit.
    pub fn request_layout(&mut self, style: Style, children: Vec<LayoutId>) -> (r: Result<LayoutId, LayoutError>)
        requires
            old(self).wf(),
            old(self).window.engine().nodes().len() < usize::MAX,
        ensures
            final(self).wf(),
            final(self).app.entities == old(self).app.entities,
            final(self).app.observers == old(self).app.observers,
            final(self).app.pending_effects == old(self).app.pending_effects,
            final(self).app.layout_id_buffer@ == children@,
            same_setup(&final(self).window, &old(self).window),
            final(self).window.atlas() == old(self).window.atlas(),
            final(self).window.layers() == old(self).window.layers(),
            final(self).window.scene_spec() == old(self).window.scene_spec(),
            final(self).window.is_dirty() == old(self).window.is_dirty(),
            final(self).window.is_drawing() == old(self).window.is_drawing(),
            ({
                let e0 = old(self).window.engine();
                let e1 = final(self).window.engine();
                let rem = old(self).window.rem();
                &&& !crate::layout::style_ok(style, rem) <==> r == Err::<LayoutId, LayoutError>(LayoutError::InvalidStyle)
                &&& crate::layout::style_ok(style, rem)
                    && !(forall|j: int| 0 <= j < children@.len() ==> e0.issued(#[trigger] children@[j]))
                    ==> r == Err::<LayoutId, LayoutError>(LayoutError::UnknownChild)
                &&& r is Err ==> e1 == e0
                &&& (crate::layout::style_ok(style, rem)
                    && (forall|j: int| 0 <= j < children@.len() ==> e0.issued(#[trigger] children@[j])))
                    ==> r is Ok
                &&& r is Ok ==> {
                    &&& r->Ok_0 == (LayoutId { engine: e0.instance(), index: e0.nodes().len() as usize })
                    &&& e1.instance() == e0.instance()
                    &&& e1.nodes().drop_last() == e0.nodes()
                    &&& e1.nodes().len() == e0.nodes().len() + 1
                    &&& e1.layouts() == e0.layouts().push(None)
                    &&& e1.nodes().last().width == crate::layout::resolve_length(style.width, rem)
                    &&& e1.nodes().last().height == crate::layout::resolve_length(style.height, rem)
                    &&& e1.nodes().last().measured == None::<Size>
                    &&& e1.nodes().last().children@ == children@
                }
            }),
    {
        self.app.layout_id_buffer.clear();
        let mut i: usize = 0;
        while i < children.len()
            invariant
                i <= children@.len(),
                self.app.layout_id_buffer@ == children@.subrange(0, i as int),
                self.window == old(self).window,
                self.app.entities == old(self).app.entities,
                self.app.observers == old(self).app.observers,
                self.app.pending_effects == old(self).app.pending_effects,
            decreases children@.len() - i,
        {
            self.app.layout_id_buffer.push(children[i]);
            i = i + 1;
        }
        assert(children@.subrange(0, children@.len() as int) == children@);
        let rem_size = self.rem_size();
        self.window.layout_engine.request_layout(style, rem_size, &self.app.layout_id_buffer)
    }

    /// Issues a childless layout node whose auto axes take the `measured` size.
    pub fn request_measured_layout(&mut self, style: Style, rem_size: Pixels, measured: Size) -> (r: Result<LayoutId, LayoutError>)
        requires
            old(self).wf(),
            coord_ok(rem_size),
            old(self).window.engine().nodes().len() < usize::MAX,
        ensures
            final(self).wf(),
            final(self).app == old(self).app,
            same_setup(&final(self).window, &old(self).window),
            final(self).window.atlas() == old(self).window.atlas(),
            final(self).window.layers() == old(self).window.layers(),
            final(self).window.scene_spec() == old(self).window.scene_spec(),
            final(self).window.is_dirty() == old(self).window.is_dirty(),
            final(self).window.is_drawing() == old(self).window.is_drawing(),
            ({
                let e0 = old(self).window.engine();
                let e1 = final(self).window.engine();
                &&& !crate::layout::style_ok(style, rem_size) <==> r == Err::<LayoutId, LayoutError>(LayoutError::InvalidStyle)
                &&& crate::layout::style_ok(style, rem_size) <==> r is Ok
                &&& r is Err ==> e1 == e0
                &&& r is Ok ==> {
                    &&& r->Ok_0 == (LayoutId { engine: e0.instance(), index: e0.nodes().len() as usize })
                    &&& e1.instance() == e0.instance()
                    &&& e1.nodes().drop_last() == e0.nodes()
                    &&& e1.nodes().len() == e0.nodes().len() + 1
                    &&& e1.layouts() == e0.layouts().push(None)
                    &&& e1.nodes().last().width == crate::layout::resolve_length(style.width, rem_size)
                    &&& e1.nodes().last().height == crate::layout::resolve_length(style.height, rem_size)
                    &&& e1.nodes().last().measured == Some(measured)
                    &&& e1.nodes().last().children@.len() == 0
                }
            }),
    {
        self.window.layout_engine.request_measured_layout(style, rem_size, measured)
    }

    /// Resolves every node under `id` against `available`.
    pub fn compute_layout(&mut self, id: LayoutId, available: Size) -> (r: Result<(), LayoutError>)
        requires
            old(self).wf(),
        ensures
            final(self).wf(),
            final(self).app == old(self).app,
            same_setup(&final(self).window, &old(self).window),
            final(self).window.atlas() == old(self).window.atlas(),
            final(self).window.layers() == old(self).window.layers(),
            final(self).window.scene_spec() == old(self).window.scene_spec(),
            final(self).window.is_dirty() == old(self).window.is_dirty(),
            final(self).window.is_drawing() == old(self).window.is_drawing(),
            final(self).window.engine().nodes() == old(self).window.engine().nodes(),
            final(self).window.engine().instance() == old(self).window.engine().instance(),
            !old(self).window.engine().issued(id) <==> r == Err::<(), LayoutError>(LayoutError::UnknownId),
            old(self).window.engine().issued(id) <==> r is Ok,
            r is Err ==> final(self).window.engine() == old(self).window.engine(),
            r is Ok ==> final(self).window.engine().layouts()[id.index as int]
                == Some(crate::layout::placed(old(self).window.engine().nodes()[id.index as int], available, 0)),
            crate::layout::kept_or_recomputed(
                old(self).window.engine().nodes(),
                old(self).window.engine().layouts(),
                final(self).window.engine().layouts(),
            ),
    {
        self.window.layout_engine.compute_layout(id, available)
    }

    /// The layout that the last compute pass gave `id`.
    pub fn layout(&self, id: LayoutId) -> (r: Result<Layout, LayoutError>)
        requires
            self.wf(),
        ensures
            !self.window.engine().issued(id) ==> r == Err::<Layout, LayoutError>(LayoutError::UnknownId),
            self.window.engine().issued(id) ==> match self.window.engine().layouts()[id.index as int] {
                Some(l) => r == Ok::<Layout, LayoutError>(l),
                None => r == Err::<Layout, LayoutError>(LayoutError::NotComputed),
            },
    {
        self.window.layout_engine.layout(id)
    }

    pub fn scale_factor(&self) -> (r: ScaleFactor)
        ensures
            r == self.window.scene_spec().scale_factor,
    {
        self.window.scene.scale_factor
    }

    pub fn rem_size(&self) -> (r: Pixels)
        ensures
            r == self.window.rem(),
    {
        self.window.rem_size
    }

    pub fn mouse_position(&self) -> (r: Point)
        ensures
            r == self.window.mouse(),
    {
        self.window.mouse_position
    }

    pub fn scene(&self) -> (r: &Scene)
        ensures
            *r == self.window.scene_spec(),
    {
        &self.window.scene
    }

    /// A snapshot of the current stacking order.
    pub fn current_layer_id(&self) -> (r: StackingOrder)
        ensures
            r@ == self.window.layers(),
    {
        self.window.current_layer_id.snapshot()
    }

    /// The cache key for painting `glyph_id` at `origin` at this window's scale.
    pub fn glyph_params(&self, origin: Point, font_id: FontId, glyph_id: GlyphId, font_size: Pixels) -> (r: GlyphRasterizationParams)
        requires
            self.wf(),
            point_ok(origin),
        ensures
            r == glyph_params_spec(origin, font_id, glyph_id, font_size, self.window.scene_spec().scale_factor),
    {
        assert(scale_ok(self.window.scene_spec().scale_factor));
        let scale_factor = self.scale_factor();
        let glyph_origin = origin.scale(scale_factor);
        GlyphRasterizationParams {
            font_id,
            glyph_id,
            font_size,
            subpixel_x: glyph_origin.x.subpixel_variant(),
            subpixel_y: glyph_origin.y.subpixel_variant(),
            scale_factor,
        }
    }

    /// Paints one glyph whose ink box, as the rasterizer reports it for
    /// `glyph_params(origin, ..)`, is `raster_bounds`. An empty ink box paints
    /// nothing. Otherwise the glyph's atlas tile is looked up; on a miss
    /// `rasterize` renders the bitmap into a fresh tile (the flag returned
    /// with the tile is then true), and if it fails nothing is painted and
    /// the failure is returned. Once the tile is there, a sprite tagged with
    /// the current stacking order is appended to the scene.
    pub fn paint_glyph<F: FnOnce(GlyphRasterizationParams, AtlasTile) -> bool>(
        &mut self,
        origin: Point,
        order: u32,
        font_id: FontId,
        glyph_id: GlyphId,
        font_size: Pixels,
        color: Hsla,
        raster_bounds: Bounds,
        rasterize: F,
    ) -> (r: Result<Option<(AtlasTile, bool)>, GlyphError>)
        requires
            old(self).wf(),
            point_ok(origin),
            point_ok(raster_bounds.origin),
            forall|p: GlyphRasterizationParams, t: AtlasTile| rasterize.requires((p, t)),
        ensures
            final(self).wf(),
            final(self).app == old(self).app,
            same_setup(&final(self).window, &old(self).window),
            final(self).window.engine() == old(self).window.engine(),
            final(self).window.layers() == old(self).window.layers(),
            final(self).window.frame() == old(self).window.frame(),
            final(self).window.scene_spec().scale_factor == old(self).window.scene_spec().scale_factor,
            raster_bounds.size.is_empty_spec() ==> r == Ok::<Option<(AtlasTile, bool)>, GlyphError>(None) && final(self).window == old(self).window,
            r is Err ==> r == Err::<Option<(AtlasTile, bool)>, GlyphError>(GlyphError::RasterizeFailed) && final(self).window == old(self).window,
            !raster_bounds.size.is_empty_spec() ==> ({
                let s = old(self).window.scene_spec().scale_factor;
                let params = glyph_params_spec(origin, font_id, glyph_id, font_size, s);
                let a0 = old(self).window.atlas();
                let a1 = final(self).window.atlas();
                let e0 = old(self).window.scene_spec().entries@;
                let e1 = final(self).window.scene_spec().entries@;
                let b = glyph_bounds(origin, s, raster_bounds);
                let fresh = AtlasTile { id: a0.entries().len() as usize };
                &&& a0.contains(params) ==> r is Ok
                &&& !a0.contains(params) ==> rasterize.ensures((params, fresh), r is Ok)
                &&& r is Ok ==> {
                    let t = r->Ok_0->Some_0;
                    &&& r->Ok_0 is Some
                    &&& a1.contains(params)
                    &&& forall|i: int| 0 <= i < a1.entries().len() && (#[trigger] a1.entries()[i]).0 == params
                        ==> a1.entries()[i].1 == t.0
                    &&& a0.contains(params) ==> !t.1 && a1 == a0
                        && (forall|i: int| 0 <= i < a0.entries().len() && (#[trigger] a0.entries()[i]).0 == params
                            ==> t.0 == a0.entries()[i].1)
                    &&& !a0.contains(params) ==> t.1 && t.0 == fresh
                        && a1.entries() == a0.entries().push((params, t.0))
                    &&& e1.len() == e0.len() + 1
                    &&& e1.drop_last() == e0
                    &&& e1.last().layer@ == old(self).window.layers()
                    &&& e1.last().sprite == (MonochromeSprite {
                        order,
                        bounds: b,
                        clip_bounds: b,
                        clip_corner_radii: square_corners(),
                        color,
                        tile: t.0,
                    })
                }
            }),
    {
        if raster_bounds.is_empty() {
            return Ok(None);
        }
        let params = self.glyph_params(origin, font_id, glyph_id, font_size);
        let scale_factor = self.scale_factor();
        let glyph_origin = origin.scale(scale_factor);
        let layer_id = self.current_layer_id();
        let bounds = Bounds {
            origin: Point {
                x: Pixels(glyph_origin.x.floor().0 + raster_bounds.origin.x.0),
                y: Pixels(glyph_origin.y.floor().0 + raster_bounds.origin.y.0),
            },
            size: raster_bounds.size,
        };
        let tile = match self.window.glyph_atlas.get_or_insert_with(params, rasterize) {
            Ok(t) => t,
            Err(e) => {
                return Err(e);
            },
        };
        self.window.scene.insert(
            layer_id,
            MonochromeSprite {
                order,
                bounds,
                clip_bounds: bounds,
                clip_corner_radii: Corners {
                    top_left: Pixels(0),
                    top_right: Pixels(0),
                    bottom_right: Pixels(0),
                    bottom_left: Pixels(0),
                },
                color,
                tile: tile.0,
            },
        );
        Ok(Some(tile))
    }

    /// Runs `f` inside a stacking scope `order`; the stacking order is back
    /// to what it was before the call once `f` has returned, however `f`
    /// left it.
    pub fn stack<R, F: FnOnce(WindowContext<T>) -> (WindowContext<T>, R)>(self, order: u32, f: F) -> (r: (WindowContext<T>, R))
        requires
            self.window.layers().len() < usize::MAX,
            forall|cx: WindowContext<T>| f.requires((cx,)),
        ensures
            r.0.window.layers() == self.window.layers(),
            exists|cx_in: WindowContext<T>, cx_out: WindowContext<T>| {
                &&& cx_in.app == self.app
                &&& same_but_layers(&cx_in.window, &self.window)
                &&& cx_in.window.layers() == self.window.layers().push(order)
                &&& #[trigger] f.ensures((cx_in,), (cx_out, r.1))
                &&& r.0.app == cx_out.app
                &&& same_but_layers(&r.0.window, &cx_out.window)
            },
    {
        let mut cx = self;
        let saved = cx.window.current_layer_id.snapshot();
        cx.window.current_layer_id.push(order);
        let ghost cx_in = cx;
        let (mut cx, result) = f(cx);
        let ghost cx_out = cx;
        cx.window.current_layer_id = saved;
        let r = (cx, result);
        assert(f.ensures((cx_in,), (cx_out, r.1)));
        r
    }

    /// Whether a draw pass is in progress.
    pub fn is_drawing(&self) -> (r: bool)
        ensures
            r == self.window.is_drawing(),
    {
        self.window.drawing
    }

    /// Whether a redraw is owed.
    pub fn needs_draw(&self) -> (r: bool)
        ensures
            r == self.window.is_dirty(),
    {
        self.window.dirty
    }

    /// Starts a draw pass: the window is Drawing and no longer owes a redraw,
    /// so that a notify during the pass is kept.
    pub fn begin_draw(&mut self)
        requires
            !old(self).window.is_drawing(),
        ensures
            final(self).window.frame() == frame_step(old(self).window.frame(), FrameEvent::Begin),
            final(self).app == old(self).app,
            same_setup(&final(self).window, &old(self).window),
            final(self).window.atlas() == old(self).window.atlas(),
            final(self).window.engine() == old(self).window.engine(),
            final(self).window.layers() == old(self).window.layers(),
            final(self).window.scene_spec() == old(self).window.scene_spec(),
    {
        self.window.dirty = false;
        self.window.drawing = true;
    }

    /// Ends a draw pass: hands out the finished scene for presentation and
    /// leaves an empty one at the same scale.
    pub fn finish_draw(&mut self) -> (r: Scene)
        requires
            old(self).window.is_drawing(),
        ensures
            final(self).window.frame() == frame_step(old(self).window.frame(), FrameEvent::Finish),
            r.scale_factor == old(self).window.scene_spec().scale_factor,
            r.entries@ == old(self).window.scene_spec().entries@,
            final(self).window.scene_spec().scale_factor == old(self).window.scene_spec().scale_factor,
            final(self).window.scene_spec().entries@.len() == 0,
            final(self).app == old(self).app,
            same_setup(&final(self).window, &old(self).window),
            final(self).window.atlas() == old(self).window.atlas(),
            final(self).window.engine() == old(self).window.engine(),
            final(self).window.layers() == old(self).window.layers(),
    {
        let scene = self.window.scene.take();
        self.window.drawing = false;
        scene
    }

    /// Abandons a draw pass: the partial scene is dropped and the redraw is
    /// still owed.
    pub fn abort_draw(&mut self)
        requires
            old(self).window.is_drawing(),
        ensures
            final(self).window.frame() == frame_step(old(self).window.frame(), FrameEvent::Abort),
            final(self).window.scene_spec().scale_factor == old(self).window.scene_spec().scale_factor,
            final(self).window.scene_spec().entries@.len() == 0,
            final(self).app == old(self).app,
            same_setup(&final(self).window, &old(self).window),
            final(self).window.atlas() == old(self).window.atlas(),
            final(self).window.engine() == old(self).window.engine(),
            final(self).window.layers() == old(self).window.layers(),
    {
        let _partial = self.window.scene.take();
        self.window.dirty = true;
        self.window.drawing = false;
    }

    /// Computes the tree under `root` against the window's content size and
    /// returns the root's resolved layout.
    pub fn layout_root(&mut self, root: LayoutId) -> (r: Result<Layout, LayoutError>)
        requires
            old(self).wf(),
        ensures
            final(self).wf(),
            final(self).app == old(self).app,
            same_setup(&final(self).window, &old(self).window),
            final(self).window.atlas() == old(self).window.atlas(),
            final(self).window.layers() == old(self).window.layers(),
            final(self).window.scene_spec() == old(self).window.scene_spec(),
            final(self).window.frame() == old(self).window.frame(),
            final(self).window.engine().nodes() == old(self).window.engine().nodes(),
            !old(self).window.engine().issued(root) ==> r == Err::<Layout, LayoutError>(LayoutError::UnknownId),
            old(self).window.engine().issued(root) ==> r == Ok::<Layout, LayoutError>(
                crate::layout::placed(old(self).window.engine().nodes()[root.index as int], old(self).window.content(), 0),
            ),
    {
        let available = self.window.content_size;
        match self.compute_layout(root, available) {
            Ok(()) => {},
            Err(e) => {
                return Err(e);
            },
        }
        self.layout(root)
    }

    /// One frame: begins a pass, lets `layout_root` request the root's layout
    /// tree, computes it against the content size, lets `paint_root` fill the
    /// scene from the root's layout, and hands the finished scene out for
    /// presentation. A failure at any stage drops the partial scene, keeps
    /// the redraw owed and returns that stage's error.
    pub fn draw<L, P>(self, layout_root: L, paint_root: P) -> (r: (WindowContext<T>, Result<Scene, LayoutError>))
        where
            L: FnOnce(WindowContext<T>) -> (WindowContext<T>, Result<LayoutId, LayoutError>),
            P: FnOnce(WindowContext<T>, Layout) -> (WindowContext<T>, Result<(), LayoutError>),
        requires
            self.wf(),
            !self.window.is_drawing(),
            forall|cx: WindowContext<T>| layout_root.requires((cx,)),
            forall|cx: WindowContext<T>, l: Layout| paint_root.requires((cx, l)),
            forall|cx: WindowContext<T>, out: (WindowContext<T>, Result<LayoutId, LayoutError>)|
                cx.wf() && cx.window.is_drawing() && #[trigger] layout_root.ensures((cx,), out)
                    ==> pass_step(&cx, &out.0),
            forall|cx: WindowContext<T>, l: Layout, out: (WindowContext<T>, Result<(), LayoutError>)|
                cx.wf() && cx.window.is_drawing() && #[trigger] paint_root.ensures((cx, l), out)
                    ==> pass_step(&cx, &out.0),
        ensures
            r.0.wf(),
            !r.0.window.is_drawing(),
            r.0.window.scene_spec().entries@.len() == 0,
            same_setup(&r.0.window, &self.window),
            r.0.window.layers() == self.window.layers(),
            r.1 is Err ==> r.0.window.is_dirty(),
            exists|lin: WindowContext<T>, lout: (WindowContext<T>, Result<LayoutId, LayoutError>)| {
                &&& #[trigger] layout_root.ensures((lin,), lout)
                &&& lin.app == self.app
                &&& begun(&lin.window, &self.window)
                &&& match lout.1 {
                    Err(e) => r.1 == Err::<Scene, LayoutError>(e),
                    Ok(id) => if !lout.0.window.engine().issued(id) {
                        r.1 == Err::<Scene, LayoutError>(LayoutError::UnknownId)
                    } else {
                        exists|pin: WindowContext<T>, pout: (WindowContext<T>, Result<(), LayoutError>)| {
                            &&& #[trigger] paint_root.ensures(
                                (pin, crate::layout::placed(lout.0.window.engine().nodes()[id.index as int], self.window.content(), 0)),
                                pout,
                            )
                            &&& pin.app == lout.0.app
                            &&& same_setup(&pin.window, &lout.0.window)
                            &&& pin.window.frame() == lout.0.window.frame()
                            &&& pin.window.layers() == lout.0.window.layers()
                            &&& pin.window.atlas() == lout.0.window.atlas()
                            &&& pin.window.scene_spec() == lout.0.window.scene_spec()
                            &&& pin.window.engine().nodes() == lout.0.window.engine().nodes()
                            &&& match pout.1 {
                                Err(e) => r.1 == Err::<Scene, LayoutError>(e),
                                Ok(_) => {
                                    &&& r.1 is Ok
                                    &&& r.0.window.frame() == frame_step(pout.0.window.frame(), FrameEvent::Finish)
                                    &&& r.1->Ok_0.entries@ == pout.0.window.scene_spec().entries@
                                    &&& r.0.app == pout.0.app
                                },
                            }
                        }
                    },
                }
            },
    {
        let mut cx = self;
        cx.begin_draw();
        let ghost lin = cx;
        let lout = layout_root(cx);
        let ghost lo = lout;
        let (mut cx, root) = lout;
        let root = match root {
            Ok(id) => id,
            Err(e) => {
                cx.abort_draw();
                assert(layout_root.ensures((lin,), lo));
                return (cx, Err(e));
            },
        };
        let layout = match cx.layout_root(root) {
            Ok(l) => l,
            Err(e) => {
                cx.abort_draw();
                assert(layout_root.ensures((lin,), lo));
                return (cx, Err(e));
            },
        };
        let ghost pin = cx;
        let out = paint_root(cx, layout);
        let ghost o = out;
        assert(paint_root.ensures((pin, layout), o));
        let (mut cx, painted) = out;
        match painted {
            Ok(()) => {},
            Err(e) => {
                cx.abort_draw();
                assert(layout_root.ensures((lin,), lo));
                return (cx, Err(e));
            },
        }
        let scene = cx.finish_draw();
        assert(layout_root.ensures((lin,), lo));
        (cx, Ok(scene))
    }

    /// Reserves an identity, lets `build` construct the entity with a view
    /// context scoped to it, and stores the value `build` returns under that
    /// identity with one strong handle.
    pub fn entity<F: FnOnce(ViewContext<T>) -> (ViewContext<T>, T)>(self, build: F) -> (r: (WindowContext<T>, Handle))
        requires
            self.wf(),
            forall|vcx: ViewContext<T>| build.requires((vcx,)),
            forall|vcx: ViewContext<T>, out: (ViewContext<T>, T)|
                vcx.window_cx.wf() && vcx.window_cx.app.entities.is_reserved_spec(vcx.entity_id)
                    && #[trigger] build.ensures((vcx,), out)
                    ==> out.0.window_cx.wf() && out.0.window_cx.app.entities.is_reserved_spec(vcx.entity_id),
        ensures
            r.0.wf(),
            r.1.id.0 == self.app.entities.slots().len(),
            exists|vcx: ViewContext<T>, out: (ViewContext<T>, T)| {
                &&& #[trigger] build.ensures((vcx,), out)
                &&& vcx.entity_id == r.1.id
                &&& vcx.window_cx.window == self.window
                &&& vcx.window_cx.app.entities.slots() == self.app.entities.slots().push(Slot::Reserved)
                &&& vcx.window_cx.app.entities.ref_counts() == self.app.entities.ref_counts().push(0)
                &&& vcx.window_cx.app.observers == self.app.observers
                &&& vcx.window_cx.app.pending_effects == self.app.pending_effects
                &&& vcx.window_cx.app.text_style_stack == self.app.text_style_stack
                &&& r.0.window == out.0.window_cx.window
                &&& r.0.app.observers == out.0.window_cx.app.observers
                &&& r.0.app.pending_effects == out.0.window_cx.app.pending_effects
                &&& r.0.app.text_style_stack == out.0.window_cx.app.text_style_stack
                &&& r.0.app.entities.slots() == out.0.window_cx.app.entities.slots().update(r.1.id.0 as int, Slot::Present(out.1))
                &&& r.0.app.entities.ref_counts() == out.0.window_cx.app.entities.ref_counts().update(r.1.id.0 as int, 1)
                &&& r.0.app.entities.value_of(r.1.id) == Some(out.1)
            },
    {
        let mut cx = self;
        let id = cx.app.entities.reserve();
        let vcx = ViewContext::mutable(cx, id);
        let ghost vin = vcx;
        let out = build(vcx);
        let ghost o = out;
        let (vcx, value) = out;
        let mut cx = vcx.window_cx;
        let handle = cx.app.entities.redeem(id, value);
        assert(build.ensures((vin,), o));
        (cx, handle)
    }

    /// Leases the entity behind `handle`, runs `update` on its value with a
    /// view context scoped to it, and stores the value `update` hands back.
    /// Fails, without running `update`, when the entity is already leased or
    /// gone.
    pub fn update_entity<R, F: FnOnce(T, ViewContext<T>) -> (T, ViewContext<T>, R)>(self, handle: &Handle, update: F) -> (r: (WindowContext<T>, Result<R, LeaseError>))
        requires
            self.wf(),
            forall|v: T, vcx: ViewContext<T>| update.requires((v, vcx)),
            forall|v: T, vcx: ViewContext<T>, out: (T, ViewContext<T>, R)|
                vcx.window_cx.wf() && vcx.window_cx.app.entities.is_leased_spec(vcx.entity_id)
                    && #[trigger] update.ensures((v, vcx), out)
                    ==> out.1.window_cx.wf() && out.1.window_cx.app.entities.is_leased_spec(vcx.entity_id),
        ensures
            r.0.wf(),
            self.app.entities.value_of(handle.id) is Some <==> r.1 is Ok,
            self.app.entities.is_leased_spec(handle.id) ==> r.1 == Err::<R, LeaseError>(LeaseError::AlreadyLeased),
            r.1 is Err ==> r.0 == self,
            r.1 is Ok ==> exists|vcx: ViewContext<T>, out: (T, ViewContext<T>, R)| {
                &&& #[trigger] update.ensures((self.app.entities.value_of(handle.id)->Some_0, vcx), out)
                &&& vcx.entity_id == handle.id
                &&& vcx.window_cx.window == self.window
                &&& vcx.window_cx.app.entities.slots() == self.app.entities.slots().update(handle.id.0 as int, Slot::Leased)
                &&& vcx.window_cx.app.entities.ref_counts() == self.app.entities.ref_counts()
                &&& vcx.window_cx.app.observers == self.app.observers
                &&& vcx.window_cx.app.pending_effects == self.app.pending_effects
                &&& vcx.window_cx.app.layout_id_buffer == self.app.layout_id_buffer
                &&& vcx.window_cx.app.text_style_stack == self.app.text_style_stack
                &&& r.1->Ok_0 == out.2
                &&& r.0.window == out.1.window_cx.window
                &&& r.0.app.observers == out.1.window_cx.app.observers
                &&& r.0.app.pending_effects == out.1.window_cx.app.pending_effects
                &&& r.0.app.layout_id_buffer == out.1.window_cx.app.layout_id_buffer
                &&& r.0.app.text_style_stack == out.1.window_cx.app.text_style_stack
                &&& r.0.app.entities.slots() == out.1.window_cx.app.entities.slots().update(handle.id.0 as int, Slot::Present(out.0))
                &&& r.0.app.entities.ref_counts() == out.1.window_cx.app.entities.ref_counts()
                &&& r.0.app.entities.value_of(handle.id) == Some(out.0)
            },
    {
        let mut cx = self;
        let value = match cx.app.entities.lease(handle.id) {
            Ok(v) => v,
            Err(e) => {
                return (cx, Err(e));
            },
        };
        let vcx = ViewContext::mutable(cx, handle.id);
        let ghost vin = vcx;
        let out = update(value, vcx);
        let ghost o = out;
        let (value, vcx, result) = out;
        let mut cx = vcx.window_cx;
        cx.app.entities.end_lease(handle.id, value);
        assert(update.ensures((self.app.entities.value_of(handle.id)->Some_0, vin), o));
        (cx, Ok(result))
    }

    /// Tells the observer recorded in `obs` that its target was notified, by
    /// updating the observing entity with `on_notify`. Returns whether the
    /// notification was delivered: it is exactly when `obs` belongs to this
    /// window, its target is alive and its observer's value is in the store.
    /// When it is not delivered nothing changes.
    pub fn notify_observer<F: FnOnce(T, WeakHandle, ViewContext<T>) -> (T, ViewContext<T>, ())>(self, obs: Observer, on_notify: F) -> (r: (WindowContext<T>, bool))
        requires
            self.wf(),
            forall|v: T, w: WeakHandle, vcx: ViewContext<T>| on_notify.requires((v, w, vcx)),
            forall|v: T, w: WeakHandle, vcx: ViewContext<T>, out: (T, ViewContext<T>, ())|
                vcx.window_cx.wf() && vcx.window_cx.app.entities.is_leased_spec(vcx.entity_id)
                    && #[trigger] on_notify.ensures((v, w, vcx), out)
                    ==> out.1.window_cx.wf() && out.1.window_cx.app.entities.is_leased_spec(vcx.entity_id),
        ensures
            r.0.wf(),
            r.1 <==> (obs.window == self.window.handle_spec().id && self.app.entities.live(obs.target.id)
                && self.app.entities.value_of(obs.observer.id) is Some),
            !r.1 ==> r.0 == self,
            r.1 ==> exists|vcx: ViewContext<T>, out: (T, ViewContext<T>, ())| {
                &&& #[trigger] on_notify.ensures((self.app.entities.value_of(obs.observer.id)->Some_0, obs.target, vcx), out)
                &&& vcx.entity_id == obs.observer.id
                &&& vcx.window_cx.window == self.window
                &&& r.0.window == out.1.window_cx.window
                &&& r.0.app.entities.value_of(obs.observer.id) == Some(out.0)
            },
    {
        if obs.window != self.window.handle.id {
            return (self, false);
        }
        if !self.app.entities.is_live(obs.target.id) {
            return (self, false);
        }
        let target = obs.target;
        let cx = self;
        let (cx, delivered) = cx.update_entity(
            &Handle { id: obs.observer.id },
            (move |v: T, vcx: ViewContext<T>| -> (out: (T, ViewContext<T>, ()))
                requires
                    on_notify.requires((v, target, vcx)),
                ensures
                    on_notify.ensures((v, target, vcx), out),
            { on_notify(v, target, vcx) }),
        );
        (cx, delivered.is_ok())
    }
}

/// A window context scoped to one entity.
pub struct ViewContext<T> {
    pub window_cx: WindowContext<T>,
    pub entity_id: EntityId,
}

impl<T> ViewContext<T> {
    pub fn mutable(window_cx: WindowContext<T>, entity_id: EntityId) -> (r: ViewContext<T>)
        ensures
            r.window_cx == window_cx,
            r.entity_id == entity_id,
    {
        ViewContext { window_cx, entity_id }
    }

    /// A weak handle to the entity this context is scoped to.
    pub fn handle(&self) -> (r: WeakHandle)
        ensures
            r.id == self.entity_id,
    {
        self.window_cx.app.entities.weak_handle(self.entity_id)
    }

    /// Records that this entity observes `target` in this window.
    pub fn observe(&mut self, target: &Handle)
        ensures
            final(self).window_cx.window == old(self).window_cx.window,
            final(self).entity_id == old(self).entity_id,
            final(self).window_cx.app.entities == old(self).window_cx.app.entities,
            final(self).window_cx.app.pending_effects == old(self).window_cx.app.pending_effects,
            final(self).window_cx.app.layout_id_buffer == old(self).window_cx.app.layout_id_buffer,
            final(self).window_cx.app.observers@ == old(self).window_cx.app.observers@.push(Observer {
                target: WeakHandle { id: target.id },
                observer: WeakHandle { id: old(self).entity_id },
                window: old(self).window_cx.window.handle_spec().id,
            }),
    {
        let this = self.handle();
        let target = WeakHandle { id: target.id };
        let window = self.window_cx.window.handle.id;
        self.window_cx.app.observers.push(Observer { target, observer: this, window });
    }

    /// Runs `f` with `style` pushed onto the application's text-style stack;
    /// the stack is back to what it was before the call once `f` has
    /// returned, however `f` left it.
    pub fn with_text_style<R, F: FnOnce(ViewContext<T>) -> (ViewContext<T>, R)>(self, style: TextStyleRefinement, f: F) -> (r: (ViewContext<T>, R))
        requires
            forall|vcx: ViewContext<T>| f.requires((vcx,)),
        ensures
            r.0.window_cx.app.text_style_stack@ == self.window_cx.app.text_style_stack@,
            exists|cx_in: ViewContext<T>, cx_out: ViewContext<T>| {
                &&& cx_in.window_cx.window == self.window_cx.window
                &&& cx_in.entity_id == self.entity_id
                &&& cx_in.window_cx.app.entities == self.window_cx.app.entities
                &&& cx_in.window_cx.app.text_style_stack@ == self.window_cx.app.text_style_stack@.push(style)
                &&& #[trigger] f.ensures((cx_in,), (cx_out, r.1))
                &&& r.0.window_cx.window == cx_out.window_cx.window
                &&& r.0.entity_id == cx_out.entity_id
                &&& r.0.window_cx.app.entities == cx_out.window_cx.app.entities
                &&& r.0.window_cx.app.observers == cx_out.window_cx.app.observers
                &&& r.0.window_cx.app.pending_effects == cx_out.window_cx.app.pending_effects
            },
    {
        let mut vcx = self;
        let saved = vcx.window_cx.app.text_style_stack.clone();
        vcx.window_cx.app.text_style_stack.push(style);
        let ghost cx_in = vcx;
        let (mut vcx, result) = f(vcx);
        let ghost cx_out = vcx;
        vcx.window_cx.app.text_style_stack = saved;
        let r = (vcx, result);
        assert(f.ensures((cx_in,), (cx_out, r.1)));
        r
    }

    /// Runs `f` with `state` pushed onto the application's state stack, and
    /// pops the top of that stack once `f` has returned; when `f` leaves the
    /// stack as it found it, that restores the stack as it was.
    pub fn with_state<R, F: FnOnce(ViewContext<T>) -> (ViewContext<T>, R)>(self, state: T, f: F) -> (r: (ViewContext<T>, R))
        requires
            forall|vcx: ViewContext<T>| f.requires((vcx,)),
        ensures
            exists|cx_in: ViewContext<T>, cx_out: ViewContext<T>| {
                &&& cx_in.window_cx.window == self.window_cx.window
                &&& cx_in.entity_id == self.entity_id
                &&& cx_in.window_cx.app.entities == self.window_cx.app.entities
                &&& cx_in.window_cx.app.text_style_stack == self.window_cx.app.text_style_stack
                &&& cx_in.window_cx.app.state_stack@ == self.window_cx.app.state_stack@.push(state)
                &&& #[trigger] f.ensures((cx_in,), (cx_out, r.1))
                &&& r.0.window_cx.window == cx_out.window_cx.window
                &&& r.0.entity_id == cx_out.entity_id
                &&& r.0.window_cx.app.entities == cx_out.window_cx.app.entities
                &&& r.0.window_cx.app.observers == cx_out.window_cx.app.observers
                &&& r.0.window_cx.app.pending_effects == cx_out.window_cx.app.pending_effects
                &&& r.0.window_cx.app.text_style_stack == cx_out.window_cx.app.text_style_stack
                &&& cx_out.window_cx.app.state_stack@.len() > 0
                    ==> r.0.window_cx.app.state_stack@ == cx_out.window_cx.app.state_stack@.drop_last()
                &&& cx_out.window_cx.app.state_stack@.len() == 0
                    ==> r.0.window_cx.app.state_stack@.len() == 0
            },
    {
        let mut vcx = self;
        vcx.window_cx.app.state_stack.push(state);
        let ghost cx_in = vcx;
        let (mut vcx, result) = f(vcx);
        let ghost cx_out = vcx;
        let _top = vcx.window_cx.app.state_stack.pop();
        let r = (vcx, result);
        assert(f.ensures((cx_in,), (cx_out, r.1)));
        r
    }

    /// Runs `f` with this context re-scoped to `unit`, the anonymous entity
    /// used for passes that belong to no particular entity, and scopes the
    /// context back to this entity afterwards.
    pub fn erase_state<R, F: FnOnce(ViewContext<T>) -> (ViewContext<T>, R)>(self, unit: EntityId, f: F) -> (r: (ViewContext<T>, R))
        requires
            forall|vcx: ViewContext<T>| f.requires((vcx,)),
        ensures
            r.0.entity_id == self.entity_id,
            exists|cx_out: ViewContext<T>| {
                &&& #[trigger] f.ensures((ViewContext { window_cx: self.window_cx, entity_id: unit },), (cx_out, r.1))
                &&& r.0.window_cx == cx_out.window_cx
            },
    {
        let entity_id = self.entity_id;
        let vcx = ViewContext::mutable(self.window_cx, unit);
        let (vcx, result) = f(vcx);
        let ghost cx_out = vcx;
        let r = (ViewContext::mutable(vcx.window_cx, entity_id), result);
        assert(f.ensures((ViewContext { window_cx: self.window_cx, entity_id: unit },), (cx_out, r.1)));
        r
    }

    /// Marks the window dirty and queues a deferred change effect for this entity.
    pub fn notify(&mut self)
        ensures
            final(self).window_cx.window.frame() == frame_step(old(self).window_cx.window.frame(), FrameEvent::Notify),
            same_setup(&final(self).window_cx.window, &old(self).window_cx.window),
            final(self).window_cx.window.atlas() == old(self).window_cx.window.atlas(),
            final(self).window_cx.window.engine() == old(self).window_cx.window.engine(),
            final(self).window_cx.window.layers() == old(self).window_cx.window.layers(),
            final(self).window_cx.window.scene_spec() == old(self).window_cx.window.scene_spec(),
            final(self).entity_id == old(self).entity_id,
            final(self).window_cx.app.entities == old(self).window_cx.app.entities,
            final(self).window_cx.app.observers == old(self).window_cx.app.observers,
            final(self).window_cx.app.layout_id_buffer == old(self).window_cx.app.layout_id_buffer,
            final(self).window_cx.app.text_style_stack == old(self).window_cx.app.text_style_stack,
            final(self).window_cx.app.pending_effects@
                == old(self).window_cx.app.pending_effects@.push(Effect::Notify(old(self).entity_id)),
    {
        self.window_cx.notify();
        self.window_cx.app.pending_effects.push(Effect::Notify(self.entity_id));
    }
}

/// Corners with no rounding.
pub open spec fn square_corners() -> Corners {
    Corners { top_left: Pixels(0), top_right: Pixels(0), bottom_right: Pixels(0), bottom_left: Pixels(0) }
}

/// The cache key of a glyph painted at `origin` under scale factor `s`.
pub open spec fn glyph_params_spec(origin: Point, font_id: FontId, glyph_id: GlyphId, font_size: Pixels, s: ScaleFactor) -> GlyphRasterizationParams {
    let o = origin.scaled_by(s);
    GlyphRasterizationParams {
        font_id,
        glyph_id,
        font_size,
        subpixel_x: crate::geometry::subpixel_bucket(o.x),
        subpixel_y: crate::geometry::subpixel_bucket(o.y),
        scale_factor: s,
    }
}

/// Where a glyph's sprite lands: the scaled origin rounded down to whole
/// pixels, offset by the ink box.
pub open spec fn glyph_bounds(origin: Point, s: ScaleFactor, raster: Bounds) -> Bounds {
    let o = origin.scaled_by(s);
    Bounds {
        origin: Point {
            x: Pixels((crate::geometry::floored(o.x).0 + raster.origin.x.0) as i64),
            y: Pixels((crate::geometry::floored(o.y).0 + raster.origin.y.0) as i64),
        },
        size: raster.size,
    }
}

} // verus!