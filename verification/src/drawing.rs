//! The drawing scope.
//!
//! A [`Canvas`] is the capability to draw inside one frame. It records
//! the draw calls the driver must perform; its type invariant keeps the
//! recorded sequence a valid frame body, so a frame assembled from it is
//! always properly bracketed. A canvas can only be obtained through
//! [`crate::window::Window::draw`], which passes it to the supplied
//! drawing logic and seals the frame when that logic returns — there is
//! no end-frame method to forget.

use crate::camera::Camera2D;
use crate::color::Color;
use crate::foreign::calls_view;
use crate::foreign::is_frame_op;
use crate::foreign::lemma_calls_view_concat;
use crate::foreign::lemma_calls_view_push;
use crate::foreign::lemma_scoped_mode_splice;
use crate::foreign::lemma_scoped_push;
use crate::foreign::mode_delta;
use crate::foreign::scoped;
use crate::foreign::Call;
use crate::foreign::ForeignCall;
use vstd::prelude::*;

verus! {

/// Records the draw calls of one frame, in order. Its view is the
/// sequence of calls recorded so far, always a valid frame body.
pub struct Canvas {
    ops: Vec<ForeignCall>,
}

impl View for Canvas {
    type V = Seq<Call>;

    closed spec fn view(&self) -> Seq<Call> {
        calls_view(self.ops@)
    }
}

impl Canvas {
    /// The recorded calls are always a valid frame body: only in-frame
    /// operations, with camera modes properly nested and closed.
    #[verifier::type_invariant]
    spec fn wf(self) -> bool {
        scoped(calls_view(self.ops@))
    }

    /// A canvas with nothing recorded yet.
    pub(crate) fn empty() -> (r: Canvas)
        ensures
            r@ == Seq::<Call>::empty(),
    {
        let ops: Vec<ForeignCall> = Vec::new();
        proof {
            assert(calls_view(ops@) =~= Seq::<Call>::empty());
            assert(Seq::<Call>::empty().take(0) =~= Seq::<Call>::empty());
        }
        Canvas { ops }
    }

    /// The recorded call batch, for the driver to perform in order.
    pub fn recorded(&self) -> (r: &Vec<ForeignCall>)
        ensures
            calls_view(r@) == self@,
    {
        &self.ops
    }

    /// Takes the recorded call batch out of the canvas.
    pub(crate) fn into_recorded(self) -> (r: Vec<ForeignCall>)
        ensures
            calls_view(r@) == self@,
            scoped(calls_view(r@)),
    {
        proof {
            use_type_invariant(&self);
        }
        let Canvas { ops } = self;
        ops
    }

    /// Appends one operation that neither opens nor closes a camera mode.
    pub(crate) fn record(&mut self, op: ForeignCall)
        requires
            is_frame_op(op@),
            mode_delta(op@) == 0,
        ensures
            final(self)@ == old(self)@ + seq![op@],
    {
        proof {
            use_type_invariant(&*self);
        }
        let ghost before = calls_view(self.ops@);
        let mut ops: Vec<ForeignCall> = Vec::new();
        proof {
            assert(calls_view(Seq::<ForeignCall>::empty()) =~= Seq::<Call>::empty());
            assert(Seq::<Call>::empty().take(0) =~= Seq::<Call>::empty());
        }
        core::mem::swap(&mut ops, &mut self.ops);
        proof {
            lemma_calls_view_push(ops@, op);
            lemma_scoped_push(before, op@);
            assert(before.push(op@) =~= before + seq![op@]);
        }
        ops.push(op);
        core::mem::swap(&mut ops, &mut self.ops);
    }

    /// Sets the background color of the frame.
    pub fn clear_background(&mut self, color: Color)
        ensures
            final(self)@ == old(self)@ + seq![Call::ClearBackground { color }],
    {
        self.record(ForeignCall::ClearBackground { color });
    }

    /// Draws a camera-transformed region of the same frame.
    ///
    /// The camera's field values are copied here, when the region is
    /// entered; mutating the original camera afterwards cannot affect the
    /// region. The supplied drawing logic receives a fresh canvas for the
    /// region, and the region's begin and end calls bracket exactly what
    /// that logic recorded, inside this canvas's own sequence.
    pub fn mode_2d<F: FnOnce(Canvas) -> Canvas>(&mut self, camera: Camera2D, drawing: F)
        requires
            forall|c: Canvas| c@ =~= Seq::<Call>::empty() ==> call_requires(drawing, (c,)),
        ensures
            exists|sub: Seq<Call>|
                scoped(sub) && final(self)@ == old(self)@ + seq![Call::BeginMode2D { camera }]
                    + sub + seq![Call::EndMode2D],
            exists|c0: Canvas, c1: Canvas|
                c0@ == Seq::<Call>::empty() && call_ensures(drawing, (c0,), c1) && final(self)@
                    == old(self)@ + seq![Call::BeginMode2D { camera }] + c1@ + seq![
                    Call::EndMode2D,
                ],
    {
        proof {
            use_type_invariant(&*self);
        }
        let ghost before = calls_view(self.ops@);
        let fresh = Canvas::empty();
        let ghost fresh0 = fresh;
        let inner = drawing(fresh);
        let ghost inner0 = inner;
        proof {
            use_type_invariant(&inner);
        }
        let ghost inner_trace = calls_view(inner.ops@);
        let mut sub_ops = inner.into_recorded();
        let ghost sub_seq = sub_ops@;
        let ghost before_ops = self.ops@;
        let mut ops: Vec<ForeignCall> = Vec::new();
        proof {
            assert(calls_view(Seq::<ForeignCall>::empty()) =~= Seq::<Call>::empty());
            assert(Seq::<Call>::empty().take(0) =~= Seq::<Call>::empty());
        }
        core::mem::swap(&mut ops, &mut self.ops);
        ops.push(ForeignCall::BeginMode2D { camera });
        ops.append(&mut sub_ops);
        ops.push(ForeignCall::EndMode2D);
        proof {
            let begin = ForeignCall::BeginMode2D { camera };
            lemma_calls_view_push(before_ops, begin);
            lemma_calls_view_concat(before_ops.push(begin), sub_seq);
            lemma_calls_view_push(before_ops.push(begin) + sub_seq, ForeignCall::EndMode2D);
            assert(calls_view(ops@) =~= before + seq![Call::BeginMode2D { camera }] + inner_trace
                + seq![Call::EndMode2D]);
            lemma_scoped_mode_splice(before, camera, inner_trace);
        }
        core::mem::swap(&mut ops, &mut self.ops);
        proof {
            assert(fresh0@ == Seq::<Call>::empty());
            assert(call_ensures(drawing, (fresh0,), inner0));
            assert(inner0@ == inner_trace);
        }
    }
}

} // verus!
