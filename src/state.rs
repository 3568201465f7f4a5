use vstd::prelude::*;

use crate::quant::QuantizedTensor;
use crate::storage::MutView;

verus! {

/// The scratch buffers and key/value caches of one sequence.
#[derive(Default)]
pub struct RunState<T> {
    pub x: T,
    pub xb: T,
    pub xb2: T,
    pub hb: T,
    pub hb2: T,
    pub q: T,
    pub k: T,
    pub v: T,
    pub att: T,
    pub logits: T,
    pub key_cache: T,
    pub value_cache: T,
}

/// A run state whose activation and feed-forward buffers also have quantized copies.
pub struct QRunState<T> {
    pub x: T,
    pub xq: QuantizedTensor,
    pub xb: T,
    pub xb2: T,
    pub hb: T,
    pub hb2: T,
    pub hq: QuantizedTensor,
    pub q: T,
    pub k: T,
    pub v: T,
    pub att: T,
    pub logits: T,
    pub key_cache: T,
    pub value_cache: T,
}

/// One exclusive borrow per buffer of a `RunState`.
pub struct RunStateView<'a, T> {
    pub x: MutView<'a, T>,
    pub xb: MutView<'a, T>,
    pub xb2: MutView<'a, T>,
    pub hb: MutView<'a, T>,
    pub hb2: MutView<'a, T>,
    pub q: MutView<'a, T>,
    pub k: MutView<'a, T>,
    pub v: MutView<'a, T>,
    pub att: MutView<'a, T>,
    pub logits: MutView<'a, T>,
    pub key_cache: MutView<'a, T>,
    pub value_cache: MutView<'a, T>,
}

/// One exclusive borrow per buffer of a `QRunState`, with its own copies of the
/// quantized buffers.
pub struct QRunStateView<'a, T> {
    pub x: MutView<'a, T>,
    pub xq: QuantizedTensor,
    pub xb: MutView<'a, T>,
    pub xb2: MutView<'a, T>,
    pub hb: MutView<'a, T>,
    pub hb2: MutView<'a, T>,
    pub hq: QuantizedTensor,
    pub q: MutView<'a, T>,
    pub k: MutView<'a, T>,
    pub v: MutView<'a, T>,
    pub att: MutView<'a, T>,
    pub logits: MutView<'a, T>,
    pub key_cache: MutView<'a, T>,
    pub value_cache: MutView<'a, T>,
}

impl<'a, T> RunStateView<'a, T> {
    /// Borrows every buffer of `rs` on its own: each view starts from its
    /// field, and each field ends as its own view leaves it, whatever is done
    /// through the other views.
    pub fn from_rs(rs: &'a mut RunState<T>) -> (r: RunStateView<'a, T>)
        ensures
            *r.x.data == old(rs).x,
            *r.xb.data == old(rs).xb,
            *r.xb2.data == old(rs).xb2,
            *r.hb.data == old(rs).hb,
            *r.hb2.data == old(rs).hb2,
            *r.q.data == old(rs).q,
            *r.k.data == old(rs).k,
            *r.v.data == old(rs).v,
            *r.att.data == old(rs).att,
            *r.logits.data == old(rs).logits,
            *r.key_cache.data == old(rs).key_cache,
            *r.value_cache.data == old(rs).value_cache,
            final(rs).x == *final(r.x.data),
            final(rs).xb == *final(r.xb.data),
            final(rs).xb2 == *final(r.xb2.data),
            final(rs).hb == *final(r.hb.data),
            final(rs).hb2 == *final(r.hb2.data),
            final(rs).q == *final(r.q.data),
            final(rs).k == *final(r.k.data),
            final(rs).v == *final(r.v.data),
            final(rs).att == *final(r.att.data),
            final(rs).logits == *final(r.logits.data),
            final(rs).key_cache == *final(r.key_cache.data),
            final(rs).value_cache == *final(r.value_cache.data),
    {
        RunStateView {
            x: MutView::new(&mut rs.x),
            xb: MutView::new(&mut rs.xb),
            xb2: MutView::new(&mut rs.xb2),
            hb: MutView::new(&mut rs.hb),
            hb2: MutView::new(&mut rs.hb2),
            q: MutView::new(&mut rs.q),
            k: MutView::new(&mut rs.k),
            v: MutView::new(&mut rs.v),
            att: MutView::new(&mut rs.att),
            logits: MutView::new(&mut rs.logits),
            key_cache: MutView::new(&mut rs.key_cache),
            value_cache: MutView::new(&mut rs.value_cache),
        }
    }
}

impl<'a, T> QRunStateView<'a, T> {
    /// Borrows every float buffer of `qrs` on its own and copies the quantized
    /// buffers, so that the copies live on after the borrows end.
    pub fn from_qrs(qrs: &'a mut QRunState<T>) -> (r: QRunStateView<'a, T>)
        ensures
            r.xq.same_as(&old(qrs).xq),
            r.hq.same_as(&old(qrs).hq),
            final(qrs).xq == old(qrs).xq,
            final(qrs).hq == old(qrs).hq,
            *r.x.data == old(qrs).x,
            *r.xb.data == old(qrs).xb,
            *r.xb2.data == old(qrs).xb2,
            *r.hb.data == old(qrs).hb,
            *r.hb2.data == old(qrs).hb2,
            *r.q.data == old(qrs).q,
            *r.k.data == old(qrs).k,
            *r.v.data == old(qrs).v,
            *r.att.data == old(qrs).att,
            *r.logits.data == old(qrs).logits,
            *r.key_cache.data == old(qrs).key_cache,
            *r.value_cache.data == old(qrs).value_cache,
            final(qrs).x == *final(r.x.data),
            final(qrs).xb == *final(r.xb.data),
            final(qrs).xb2 == *final(r.xb2.data),
            final(qrs).hb == *final(r.hb.data),
            final(qrs).hb2 == *final(r.hb2.data),
            final(qrs).q == *final(r.q.data),
            final(qrs).k == *final(r.k.data),
            final(qrs).v == *final(r.v.data),
            final(qrs).att == *final(r.att.data),
            final(qrs).logits == *final(r.logits.data),
            final(qrs).key_cache == *final(r.key_cache.data),
            final(qrs).value_cache == *final(r.value_cache.data),
    {
        let xq = qrs.xq.duplicate();
        let hq = qrs.hq.duplicate();
        QRunStateView {
            x: MutView::new(&mut qrs.x),
            xq,
            xb: MutView::new(&mut qrs.xb),
            xb2: MutView::new(&mut qrs.xb2),
            hb: MutView::new(&mut qrs.hb),
            hb2: MutView::new(&mut qrs.hb2),
            hq,
            q: MutView::new(&mut qrs.q),
            k: MutView::new(&mut qrs.k),
            v: MutView::new(&mut qrs.v),
            att: MutView::new(&mut qrs.att),
            logits: MutView::new(&mut qrs.logits),
            key_cache: MutView::new(&mut qrs.key_cache),
            value_cache: MutView::new(&mut qrs.value_cache),
        }
    }
}

} // verus!
