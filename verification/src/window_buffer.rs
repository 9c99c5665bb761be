//! The window buffer: a bounded ring over optional measurements, where an
//! absent slot records an error tick. The ring starts empty and grows to
//! its bound before evicting. The ring itself is
//! `dasp_ring_buffer::Bounded`; what it holds is named by `window_items`
//! and its bound by `window_max_len`, and the crate's reducers are
//! verified against those names.

use crate::measurement::Measurement;
use crate::Error;
use vstd::prelude::*;

verus! {

#[verifier::external_type_specification]
#[verifier::external_body]
#[verifier::reject_recursive_types(S)]
pub struct ExBounded<S>(dasp_ring_buffer::Bounded<S>);

/// What the ring buffer holds, oldest first.
pub uninterp spec fn window_items(b: dasp_ring_buffer::Bounded<Vec<Option<Measurement>>>) -> Seq<
    Option<Measurement>,
>;

/// The bound the ring buffer was made with.
pub uninterp spec fn window_max_len(
    b: dasp_ring_buffer::Bounded<Vec<Option<Measurement>>>,
) -> nat;

/// Relies on `dasp_ring_buffer::Bounded::from`: the ring starts empty,
/// with the backing storage's length as its bound (it panics only on an
/// empty storage, which the precondition rules out).
#[verifier::external_body]
fn ring_new(capacity: usize) -> (r: dasp_ring_buffer::Bounded<Vec<Option<Measurement>>>)
    requires
        1 <= capacity,
    ensures
        window_items(r) == Seq::<Option<Measurement>>::empty(),
        window_max_len(r) == capacity,
{
    dasp_ring_buffer::Bounded::from(vec![None; capacity])
}

/// Relies on `dasp_ring_buffer::Bounded::push`: below the bound the
/// element goes to the back; at the bound it also evicts the front.
#[verifier::external_body]
fn ring_push(b: &mut dasp_ring_buffer::Bounded<Vec<Option<Measurement>>>, item: Option<Measurement>)
    ensures
        window_max_len(*final(b)) == window_max_len(*old(b)),
        window_items(*old(b)).len() < window_max_len(*old(b)) ==> window_items(*final(b))
            == window_items(*old(b)).push(item),
        window_items(*old(b)).len() >= window_max_len(*old(b)) ==> window_items(*final(b))
            == window_items(*old(b)).drop_first().push(item),
{
    b.push(item);
}

/// Relies on `dasp_ring_buffer::Bounded::iter`: the elements from front
/// to back.
#[verifier::external_body]
fn ring_items(b: &dasp_ring_buffer::Bounded<Vec<Option<Measurement>>>) -> (r: Vec<
    Option<Measurement>,
>)
    ensures
        r@ == window_items(*b),
{
    b.iter().cloned().collect()
}

/// A ring showing the last `N` optional measurements observed so far,
/// where absence denotes an error tick; it starts empty and never grows
/// past its bound.
#[derive(Debug)]
pub struct WindowBuffer {
    ring: dasp_ring_buffer::Bounded<Vec<Option<Measurement>>>,
}

impl View for WindowBuffer {
    type V = Seq<Option<Measurement>>;

    closed spec fn view(&self) -> Seq<Option<Measurement>> {
        window_items(self.ring)
    }
}

impl WindowBuffer {
    pub closed spec fn spec_capacity(&self) -> nat {
        window_max_len(self.ring)
    }

    pub open spec fn wf(&self) -> bool {
        1 <= self.spec_capacity() && self@.len() <= self.spec_capacity()
    }

    /// An empty ring bounded at `window_size` slots; a size of 0 is
    /// rejected.
    pub fn new(window_size: u16) -> (r: Result<Self, Error>)
        ensures
            r is Ok <==> window_size != 0,
            r matches Ok(w) ==> w.wf() && w@ == Seq::<Option<Measurement>>::empty()
                && w.spec_capacity() == window_size,
            r matches Err(e) ==> e.0@ == "'window_size' cannot be 0."@,
    {
        if window_size == 0 {
            Err(Error(String::from_str("'window_size' cannot be 0.")))
        } else {
            Ok(WindowBuffer { ring: ring_new(window_size as usize) })
        }
    }

    /// Appends a slot, evicting the oldest once the ring is full.
    pub fn push(&mut self, data: Option<Measurement>)
        requires
            old(self).wf(),
        ensures
            final(self).wf(),
            final(self).spec_capacity() == old(self).spec_capacity(),
            old(self)@.len() < old(self).spec_capacity() ==> final(self)@ == old(self)@.push(data),
            old(self)@.len() == old(self).spec_capacity() ==> final(self)@
                == old(self)@.drop_first().push(data),
    {
        ring_push(&mut self.ring, data);
    }

    /// The slots, oldest first.
    pub fn items(&self) -> (r: Vec<Option<Measurement>>)
        ensures
            r@ == self@,
    {
        ring_items(&self.ring)
    }
}

/// The last `min(len, cap)` elements of a history: what a well-behaved
/// window of capacity `cap` shows after observing the whole of `h`.
pub open spec fn window_model(h: Seq<Option<Measurement>>, cap: nat) -> Seq<Option<Measurement>> {
    if h.len() <= cap {
        h
    } else {
        h.skip(h.len() - cap)
    }
}

/// Law: the window tracks its history. If a window shows the last
/// `min(k, N)` slots of the `k` slots observed so far, then after one
/// more observation — appended below capacity, or evicting the oldest at
/// capacity, exactly as `WindowBuffer::push` ensures — it shows the last
/// `min(k + 1, N)` slots.
pub proof fn lemma_window_model_step(h: Seq<Option<Measurement>>, cap: nat, x: Option<Measurement>)
    requires
        1 <= cap,
    ensures
        window_model(h, cap).len() < cap ==> window_model(h.push(x), cap) == window_model(
            h,
            cap,
        ).push(x),
        window_model(h, cap).len() == cap ==> window_model(h.push(x), cap) == window_model(
            h,
            cap,
        ).drop_first().push(x),
{
    let w = window_model(h, cap);
    let w2 = window_model(h.push(x), cap);
    if h.len() < cap {
        assert(w2 =~= w.push(x));
    } else {
        assert(w.len() == cap);
        assert(w2 =~= w.drop_first().push(x));
    }
}

} // verus!
