use vstd::prelude::*;
use crate::geometry::{coord_ok, Bounds, Pixels, Point, Size, PIXEL_UNITS, MAX_COORD};

verus! {

/// A length as a style states it.
#[derive(Clone, Copy, Debug, PartialEq, Eq, Structural)]
pub enum Length {
    /// Taken from the measured or available space.
    Auto,
    /// An absolute length.
    Pixels(Pixels),
    /// A length in fixed-point units of 1/64 rem.
    Rems(i64),
}

#[derive(Clone, Copy, Debug, PartialEq, Eq, Structural)]
pub struct Style {
    pub width: Length,
    pub height: Length,
}

/// Identity of one requested layout node: the engine that issued it and
/// the node's position there.
#[derive(Clone, Copy, Debug, PartialEq, Eq, Structural)]
pub struct LayoutId {
    pub engine: u64,
    pub index: usize,
}

/// The resolved placement of a layout node.
#[derive(Clone, Copy, Debug, PartialEq, Eq, Structural)]
pub struct Layout {
    pub order: u32,
    pub bounds: Bounds,
}

#[derive(Clone, Copy, Debug, PartialEq, Eq, Structural)]
pub enum LayoutError {
    /// A style length does not fit the coordinate range.
    InvalidStyle,
    /// A child id was not issued by this engine.
    UnknownChild,
    /// The id was not issued by this engine.
    UnknownId,
    /// The id was issued but no compute pass has reached it yet.
    NotComputed,
}

/// One requested node: its style resolved to absolute lengths, an optional
/// measured intrinsic size, and its children.
pub struct Node {
    pub width: Option<Pixels>,
    pub height: Option<Pixels>,
    pub measured: Option<Size>,
    pub children: Vec<LayoutId>,
}

/// A length resolved against the rem unit; `None` for `Auto`.
pub open spec fn resolve_length(l: Length, rem: Pixels) -> Option<Pixels> {
    match l {
        Length::Auto => None,
        Length::Pixels(p) => Some(p),
        Length::Rems(r) => Some(Pixels(((r * rem.0) / (PIXEL_UNITS as int)) as i64)),
    }
}

/// A length fits the coordinate range once resolved.
pub open spec fn length_ok(l: Length, rem: Pixels) -> bool {
    match l {
        Length::Auto => true,
        Length::Pixels(p) => coord_ok(p),
        Length::Rems(r) => -MAX_COORD <= r <= MAX_COORD
            && -MAX_COORD <= (r * rem.0) / (PIXEL_UNITS as int) <= MAX_COORD,
    }
}

pub open spec fn style_ok(s: Style, rem: Pixels) -> bool {
    length_ok(s.width, rem) && length_ok(s.height, rem)
}

/// One axis: the explicit length, else the measured one, else the available one.
pub open spec fn pick(explicit: Option<Pixels>, measured: Option<Pixels>, available: Pixels) -> Pixels {
    match explicit {
        Some(p) => p,
        None => match measured {
            Some(m) => m,
            None => available,
        },
    }
}

/// The size a node resolves to within the given available space.
pub open spec fn resolved_size(n: Node, available: Size) -> Size {
    Size {
        width: pick(n.width, match n.measured { Some(m) => Some(m.width), None => None }, available.width),
        height: pick(n.height, match n.measured { Some(m) => Some(m.height), None => None }, available.height),
    }
}

/// The layout of a node placed at the origin of its parent with the given
/// sibling order.
pub open spec fn placed(n: Node, available: Size, order: u32) -> Layout {
    Layout {
        order,
        bounds: Bounds {
            origin: Point { x: Pixels(0), y: Pixels(0) },
            size: resolved_size(n, available),
        },
    }
}

/// A slot that a compute pass filled: the node placed in some available
/// space with some sibling order.
pub open spec fn recomputed(n: Node, l: Option<Layout>) -> bool {
    exists|available: Size, order: u32| l == Some(#[trigger] placed(n, available, order))
}

/// Each slot of `b` is the one in `a` or was filled by a compute pass.
pub open spec fn kept_or_recomputed(nodes: Seq<Node>, a: Seq<Option<Layout>>, b: Seq<Option<Layout>>) -> bool {
    &&& a.len() == b.len()
    &&& forall|k: int| 0 <= k < b.len() ==> #[trigger] b[k] == a[k] || recomputed(nodes[k], b[k])
}

fn resolve(l: Length, rem: Pixels) -> (r: Option<Pixels>)
    requires
        length_ok(l, rem),
        coord_ok(rem),
    ensures
        r == resolve_length(l, rem),
{
    match l {
        Length::Auto => None,
        Length::Pixels(p) => Some(p),
        Length::Rems(r) => {
            assert(-MAX_COORD * MAX_COORD <= r * rem.0 <= MAX_COORD * MAX_COORD) by (nonlinear_arith)
                requires
                    -MAX_COORD <= r <= MAX_COORD,
                    coord_ok(rem),
            ;
            let prod: i64 = r * rem.0;
            let q: i64 = prod / PIXEL_UNITS;
            let m: i64 = prod % PIXEL_UNITS;
            Some(Pixels(if m < 0 { q - 1 } else { q }))
        },
    }
}

fn check_length(l: Length, rem: Pixels) -> (r: bool)
    requires
        coord_ok(rem),
    ensures
        r == length_ok(l, rem),
{
    match l {
        Length::Auto => true,
        Length::Pixels(p) => -MAX_COORD <= p.0 && p.0 <= MAX_COORD,
        Length::Rems(r) => {
            if r < -MAX_COORD || r > MAX_COORD {
                false
            } else {
                assert(-MAX_COORD * MAX_COORD <= r * rem.0 <= MAX_COORD * MAX_COORD) by (nonlinear_arith)
                    requires
                        -MAX_COORD <= r <= MAX_COORD,
                        coord_ok(rem),
                ;
                let prod: i64 = r * rem.0;
                let q: i64 = prod / PIXEL_UNITS;
                let m: i64 = prod % PIXEL_UNITS;
                let f: i64 = if m < 0 { q - 1 } else { q };
                -MAX_COORD <= f && f <= MAX_COORD
            }
        },
    }
}

/// Two nodes requested with the same style and the same children resolve,
/// in the same available space, to the same bounds, whatever ids they got.
pub proof fn lemma_same_request_same_bounds(a: Node, b: Node, available: Size, oa: u32, ob: u32)
    requires
        a.width == b.width,
        a.height == b.height,
        a.measured == b.measured,
        a.children@ == b.children@,
    ensures
        placed(a, available, oa).bounds == placed(b, available, ob).bounds,
{
}

/// A small layout solver: each node takes its explicit size, else its
/// measured size, else the space its parent offers, and sits at its parent's
/// origin. Children are always issued before their parent.
pub struct LayoutEngine {
    instance: u64,
    nodes: Vec<Node>,
    layouts: Vec<Option<Layout>>,
}

impl LayoutEngine {
    pub closed spec fn nodes(&self) -> Seq<Node> {
        self.nodes@
    }

    pub closed spec fn instance(&self) -> u64 {
        self.instance
    }

    /// Whether this engine issued `id`.
    pub open spec fn issued(&self, id: LayoutId) -> bool {
        id.engine == self.instance() && id.index < self.nodes().len()
    }

    pub closed spec fn layouts(&self) -> Seq<Option<Layout>> {
        self.layouts@
    }

    /// Every child id precedes its parent, and each node has a layout slot.
    pub open spec fn wf(&self) -> bool {
        &&& self.layouts().len() == self.nodes().len()
        &&& forall|i: int, j: int|
            0 <= i < self.nodes().len() && 0 <= j < self.nodes()[i].children@.len()
                ==> (#[trigger] self.nodes()[i].children@[j]).index < i
    }

    /// An engine whose ids carry `instance`, so that ids of another engine
    /// are told apart.
    pub fn new(instance: u64) -> (r: LayoutEngine)
        ensures
            r.wf(),
            r.nodes().len() == 0,
            r.instance() == instance,
    {
        LayoutEngine { instance, nodes: Vec::new(), layouts: Vec::new() }
    }

    fn check_children(&self, children: &Vec<LayoutId>) -> (r: bool)
        ensures
            r == (forall|j: int| 0 <= j < children@.len() ==> self.issued(#[trigger] children@[j])),
    {
        let mut j: usize = 0;
        while j < children.len()
            invariant
                j <= children@.len(),
                forall|k: int| 0 <= k < j ==> self.issued(#[trigger] children@[k]),
            decreases children@.len() - j,
        {
            if children[j].engine != self.instance || children[j].index >= self.nodes.len() {
                return false;
            }
            j = j + 1;
        }
        true
    }

    fn push_node(&mut self, node: Node) -> (r: LayoutId)
        requires
            old(self).wf(),
            forall|j: int| 0 <= j < node.children@.len() ==> old(self).issued(#[trigger] node.children@[j]),
            old(self).nodes().len() < usize::MAX,
        ensures
            final(self).wf(),
            r == (LayoutId { engine: old(self).instance(), index: old(self).nodes().len() as usize }),
            final(self).nodes() == old(self).nodes().push(node),
            final(self).instance() == old(self).instance(),
            final(self).layouts() == old(self).layouts().push(None),
    {
        let id = LayoutId { engine: self.instance, index: self.nodes.len() };
        self.nodes.push(node);
        self.layouts.push(None);
        assert forall|i: int, j: int|
            0 <= i < self.nodes().len() && 0 <= j < self.nodes()[i].children@.len()
                implies (#[trigger] self.nodes()[i].children@[j]).index < i by {
            if i < old(self).nodes().len() {
                assert(self.nodes()[i] == old(self).nodes()[i]);
            }
        }
        id
    }

    /// Issues a node for `style`, resolved against `rem_size`, over `children`.
    pub fn request_layout(&mut self, style: Style, rem_size: Pixels, children: &Vec<LayoutId>) -> (r: Result<LayoutId, LayoutError>)
        requires
            old(self).wf(),
            coord_ok(rem_size),
            old(self).nodes().len() < usize::MAX,
        ensures
            final(self).wf(),
            !style_ok(style, rem_size) ==> r == Err::<LayoutId, LayoutError>(LayoutError::InvalidStyle) && *final(self) == *old(self),
            style_ok(style, rem_size) && !(forall|j: int| 0 <= j < children@.len() ==> old(self).issued(#[trigger] children@[j]))
                ==> r == Err::<LayoutId, LayoutError>(LayoutError::UnknownChild) && *final(self) == *old(self),
            r is Ok ==> {
                &&& style_ok(style, rem_size)
                &&& r->Ok_0 == (LayoutId { engine: old(self).instance(), index: old(self).nodes().len() as usize })
                &&& final(self).instance() == old(self).instance()
                &&& final(self).nodes().len() == old(self).nodes().len() + 1
                &&& final(self).nodes().drop_last() == old(self).nodes()
                &&& final(self).layouts() == old(self).layouts().push(None)
                &&& final(self).nodes().last().width == resolve_length(style.width, rem_size)
                &&& final(self).nodes().last().height == resolve_length(style.height, rem_size)
                &&& final(self).nodes().last().measured == None::<Size>
                &&& final(self).nodes().last().children@ == children@
            },
            style_ok(style, rem_size) && (forall|j: int| 0 <= j < children@.len() ==> old(self).issued(#[trigger] children@[j]))
                ==> r is Ok,
    {
        self.request_node(style, rem_size, None, children)
    }

    /// Issues a childless node for `style` whose auto axes take `measured`.
    pub fn request_measured_layout(&mut self, style: Style, rem_size: Pixels, measured: Size) -> (r: Result<LayoutId, LayoutError>)
        requires
            old(self).wf(),
            coord_ok(rem_size),
            old(self).nodes().len() < usize::MAX,
        ensures
            final(self).wf(),
            !style_ok(style, rem_size) <==> r == Err::<LayoutId, LayoutError>(LayoutError::InvalidStyle),
            style_ok(style, rem_size) <==> r is Ok,
            r is Err ==> *final(self) == *old(self),
            r is Ok ==> {
                &&& r->Ok_0 == (LayoutId { engine: old(self).instance(), index: old(self).nodes().len() as usize })
                &&& final(self).instance() == old(self).instance()
                &&& final(self).nodes().len() == old(self).nodes().len() + 1
                &&& final(self).nodes().drop_last() == old(self).nodes()
                &&& final(self).layouts() == old(self).layouts().push(None)
                &&& final(self).nodes().last().width == resolve_length(style.width, rem_size)
                &&& final(self).nodes().last().height == resolve_length(style.height, rem_size)
                &&& final(self).nodes().last().measured == Some(measured)
                &&& final(self).nodes().last().children@.len() == 0
            },
    {
        let children: Vec<LayoutId> = Vec::new();
        self.request_node(style, rem_size, Some(measured), &children)
    }

    fn request_node(&mut self, style: Style, rem_size: Pixels, measured: Option<Size>, children: &Vec<LayoutId>) -> (r: Result<LayoutId, LayoutError>)
        requires
            old(self).wf(),
            coord_ok(rem_size),
            old(self).nodes().len() < usize::MAX,
        ensures
            final(self).wf(),
            !style_ok(style, rem_size) ==> r == Err::<LayoutId, LayoutError>(LayoutError::InvalidStyle),
            style_ok(style, rem_size) && !(forall|j: int| 0 <= j < children@.len() ==> old(self).issued(#[trigger] children@[j]))
                ==> r == Err::<LayoutId, LayoutError>(LayoutError::UnknownChild),
            r is Err ==> *final(self) == *old(self),
            r is Ok ==> {
                &&& style_ok(style, rem_size)
                &&& r->Ok_0 == (LayoutId { engine: old(self).instance(), index: old(self).nodes().len() as usize })
                &&& final(self).instance() == old(self).instance()
                &&& final(self).nodes().len() == old(self).nodes().len() + 1
                &&& final(self).nodes().drop_last() == old(self).nodes()
                &&& final(self).layouts() == old(self).layouts().push(None)
                &&& final(self).nodes().last().width == resolve_length(style.width, rem_size)
                &&& final(self).nodes().last().height == resolve_length(style.height, rem_size)
                &&& final(self).nodes().last().measured == measured
                &&& final(self).nodes().last().children@ == children@
            },
            style_ok(style, rem_size) && (forall|j: int| 0 <= j < children@.len() ==> old(self).issued(#[trigger] children@[j]))
                ==> r is Ok,
    {
        if !check_length(style.width, rem_size) || !check_length(style.height, rem_size) {
            return Err(LayoutError::InvalidStyle);
        }
        if !self.check_children(children) {
            return Err(LayoutError::UnknownChild);
        }
        let node = Node {
            width: resolve(style.width, rem_size),
            height: resolve(style.height, rem_size),
            measured,
            children: children.clone(),
        };
        assert(node.children@ == children@);
        let id = self.push_node(node);
        assert(self.nodes().drop_last() == old(self).nodes());
        Ok(id)
    }

    fn compute_node(&mut self, id: usize, available: Size, order: u32)
        requires
            old(self).wf(),
            id < old(self).nodes().len(),
        ensures
            final(self).wf(),
            final(self).nodes() == old(self).nodes(),
            final(self).instance() == old(self).instance(),
            final(self).layouts()[id as int] == Some(placed(old(self).nodes()[id as int], available, order)),
            forall|k: int| id < k < final(self).layouts().len() ==> final(self).layouts()[k] == old(self).layouts()[k],
            kept_or_recomputed(old(self).nodes(), old(self).layouts(), final(self).layouts()),
        decreases id,
    {
        let node = &self.nodes[id];
        let w = match node.width {
            Some(p) => p,
            None => match node.measured {
                Some(m) => m.width,
                None => available.width,
            },
        };
        let h = match node.height {
            Some(p) => p,
            None => match node.measured {
                Some(m) => m.height,
                None => available.height,
            },
        };
        let size = Size { width: w, height: h };
        let n = self.nodes[id].children.len();
        let mut j: usize = 0;
        while j < n
            invariant
                self.wf(),
                self.nodes() == old(self).nodes(),
                self.instance() == old(self).instance(),
                id < self.nodes().len(),
                n == self.nodes()[id as int].children@.len(),
                j <= n,
                forall|k: int| id <= k < self.layouts().len() ==> self.layouts()[k] == old(self).layouts()[k],
                kept_or_recomputed(old(self).nodes(), old(self).layouts(), self.layouts()),
            decreases n - j,
        {
            let c = self.nodes[id].children[j];
            assert(c == self.nodes()[id as int].children@[j as int]);
            self.compute_node(c.index, size, j as u32);
            j = j + 1;
        }
        let layout = Layout {
            order,
            bounds: Bounds { origin: Point { x: Pixels(0), y: Pixels(0) }, size },
        };
        let ghost mid = self.layouts();
        self.layouts.set(id, Some(layout));
        assert(layout == placed(old(self).nodes()[id as int], available, order));
        assert forall|k: int| 0 <= k < self.layouts().len() implies #[trigger] self.layouts()[k] == old(self).layouts()[k]
            || recomputed(old(self).nodes()[k], self.layouts()[k]) by {
            if k == id {
                assert(self.layouts()[k] == Some(placed(old(self).nodes()[k], available, order)));
            } else {
                assert(self.layouts()[k] == mid[k]);
            }
        }
    }

    /// Resolves `id` and everything under it against `available`.
    pub fn compute_layout(&mut self, id: LayoutId, available: Size) -> (r: Result<(), LayoutError>)
        requires
            old(self).wf(),
        ensures
            final(self).wf(),
            final(self).nodes() == old(self).nodes(),
            final(self).instance() == old(self).instance(),
            !old(self).issued(id) <==> r == Err::<(), LayoutError>(LayoutError::UnknownId),
            old(self).issued(id) <==> r is Ok,
            r is Err ==> *final(self) == *old(self),
            r is Ok ==> final(self).layouts()[id.index as int] == Some(placed(old(self).nodes()[id.index as int], available, 0)),
            kept_or_recomputed(old(self).nodes(), old(self).layouts(), final(self).layouts()),
    {
        if id.engine != self.instance || id.index >= self.nodes.len() {
            return Err(LayoutError::UnknownId);
        }
        self.compute_node(id.index, available, 0);
        Ok(())
    }

    /// The layout that the last compute pass gave `id`.
    pub fn layout(&self, id: LayoutId) -> (r: Result<Layout, LayoutError>)
        requires
            self.wf(),
        ensures
            !self.issued(id) ==> r == Err::<Layout, LayoutError>(LayoutError::UnknownId),
            self.issued(id) ==> match self.layouts()[id.index as int] {
                Some(l) => r == Ok::<Layout, LayoutError>(l),
                None => r == Err::<Layout, LayoutError>(LayoutError::NotComputed),
            },
    {
        if id.engine != self.instance || id.index >= self.layouts.len() {
            return Err(LayoutError::UnknownId);
        }
        match self.layouts[id.index] {
            Some(l) => Ok(l),
            None => Err(LayoutError::NotComputed),
        }
    }
}

} // verus!