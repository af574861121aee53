use vstd::prelude::*;
use smallvec::SmallVec;

verus! {

/// Nested z-order scopes, outermost first, held in a small inline vector.
#[verifier::external_body]
pub struct StackingOrder {
    inner: SmallVec<[u32; 16]>,
}

/// The scopes a stacking order holds, outermost first.
pub uninterp spec fn layer_contents(s: StackingOrder) -> Seq<u32>;

/// Relies on `SmallVec::new`: the vector it makes is empty.
#[verifier::external_body]
fn small_new() -> (r: StackingOrder)
    ensures
        layer_contents(r).len() == 0,
{
    StackingOrder { inner: SmallVec::new() }
}

/// Relies on `SmallVec::push`: appends the item at the end.
#[verifier::external_body]
fn small_push(v: &mut StackingOrder, item: u32)
    requires
        layer_contents(*old(v)).len() < usize::MAX,
    ensures
        layer_contents(*final(v)) == layer_contents(*old(v)).push(item),
{
    v.inner.push(item)
}

/// Relies on `SmallVec::pop`: removes and returns the last item, `None` when empty.
#[verifier::external_body]
fn small_pop(v: &mut StackingOrder) -> (r: Option<u32>)
    ensures
        layer_contents(*old(v)).len() == 0 ==> r is None && layer_contents(*final(v)) == layer_contents(*old(v)),
        layer_contents(*old(v)).len() > 0 ==> r == Some(layer_contents(*old(v)).last())
            && layer_contents(*final(v)) == layer_contents(*old(v)).drop_last(),
{
    v.inner.pop()
}

/// Relies on `SmallVec::len`: the number of items.
#[verifier::external_body]
fn small_len(v: &StackingOrder) -> (r: usize)
    ensures
        r == layer_contents(*v).len(),
{
    v.inner.len()
}

/// Relies on `SmallVec`'s `Clone`: a copy of the items, in order.
#[verifier::external_body]
fn small_clone(v: &StackingOrder) -> (r: StackingOrder)
    ensures
        layer_contents(r) == layer_contents(*v),
{
    StackingOrder { inner: v.inner.clone() }
}

/// Relies on `SmallVec`'s indexing: the item at position `i`.
#[verifier::external_body]
fn small_at(v: &StackingOrder, i: usize) -> (r: u32)
    requires
        i < layer_contents(*v).len(),
    ensures
        r == layer_contents(*v)[i as int],
{
    v.inner[i]
}

impl View for StackingOrder {
    type V = Seq<u32>;

    closed spec fn view(&self) -> Seq<u32> {
        layer_contents(*self)
    }
}

impl StackingOrder {
    pub fn new() -> (r: StackingOrder)
        ensures
            r@.len() == 0,
    {
        small_new()
    }

    /// Enters a scope.
    pub fn push(&mut self, order: u32)
        requires
            old(self)@.len() < usize::MAX,
        ensures
            final(self)@ == old(self)@.push(order),
    {
        small_push(self, order)
    }

    /// Leaves the innermost scope.
    pub fn pop(&mut self) -> (r: Option<u32>)
        ensures
            old(self)@.len() == 0 ==> r is None && final(self)@ == old(self)@,
            old(self)@.len() > 0 ==> r == Some(old(self)@.last()) && final(self)@ == old(self)@.drop_last(),
    {
        small_pop(self)
    }

    pub fn len(&self) -> (r: usize)
        ensures
            r == self@.len(),
    {
        small_len(self)
    }

    /// The scope at depth `i`, outermost first.
    pub fn get(&self, i: usize) -> (r: Option<u32>)
        ensures
            i < self@.len() ==> r == Some(self@[i as int]),
            i >= self@.len() ==> r is None,
    {
        if i < small_len(self) {
            Some(small_at(self, i))
        } else {
            None
        }
    }

    /// A copy of the current scopes.
    pub fn snapshot(&self) -> (r: StackingOrder)
        ensures
            r@ == self@,
    {
        small_clone(self)
    }

    /// The scopes as a vector, outermost first.
    pub fn to_vec(&self) -> (r: Vec<u32>)
        ensures
            r@ == self@,
    {
        let n = self.len();
        let mut out: Vec<u32> = Vec::new();
        let mut i: usize = 0;
        while i < n
            invariant
                n == self@.len(),
                i <= n,
                out@ == self@.subrange(0, i as int),
            decreases n - i,
        {
            out.push(small_at(self, i));
            i = i + 1;
        }
        assert(self@.subrange(0, n as int) == self@);
        out
    }
}

} // verus!
