//! Context creation and the window handle.
//!
//! The graphics context is a process-wide resource. A [`ContextFactory`]
//! owns the "already created" state; the driver keeps exactly one factory
//! for the whole process. Creation runs in two steps around the foreign
//! initialization calls: [`WindowBuilder::build`] checks the factory and
//! the title and yields a [`PendingWindow`] with the calls to perform;
//! [`PendingWindow::finish`] takes the foreign readiness answer and
//! either produces the [`Window`] and marks the factory, or reports the
//! failure and leaves the factory free for another attempt.

use crate::drawing::Canvas;
use crate::foreign::calls_view;
use crate::foreign::c_terminate;
use crate::foreign::has_nul_byte;
use crate::foreign::lemma_calls_view_concat;
use crate::foreign::lemma_calls_view_push;
use crate::foreign::is_frame_op;
use crate::foreign::lemma_frame_ops_touch_no_resources;
use crate::foreign::lemma_resource_counts_concat;
use crate::foreign::lemma_resource_counts_singleton;
use crate::foreign::lemma_teardown_ordering;
use crate::foreign::live_font_count;
use crate::foreign::live_texture_count;
use crate::foreign::scoped;
use crate::foreign::spec_c_bytes;
use crate::foreign::teardown_last;
use crate::foreign::Call;
use crate::foreign::ForeignCall;
use crate::foreign::FLAG_FULLSCREEN_MODE;
use crate::foreign::FLAG_MSAA_4X_HINT;
use crate::foreign::FLAG_VSYNC_HINT;
use crate::foreign::FLAG_WINDOW_ALWAYS_RUN;
use crate::foreign::FLAG_WINDOW_HIDDEN;
use crate::foreign::FLAG_WINDOW_RESIZABLE;
use crate::foreign::FLAG_WINDOW_TRANSPARENT;
use crate::foreign::FLAG_WINDOW_UNDECORATED;
use vstd::prelude::*;
use vstd::string::StrSliceExecFns;
use vstd::string::StringSliceAdditionalSpecFns;

verus! {

/// Kinds of window creation errors.
#[derive(Clone, Copy, Debug, Eq, PartialEq, Structural)]
pub enum CreateWindowError {
    /// The foreign library did not report the context ready.
    InitializationFailed,
    /// A context already exists in this process.
    AlreadyCreated,
    /// The window title contains a zero byte, which the foreign string
    /// convention cannot represent.
    InvalidTitle,
}

/// Owns the process-wide "a context has been created" state. The driver
/// keeps exactly one factory per process; every creation attempt goes
/// through it, which is what makes a second live context impossible.
pub struct ContextFactory {
    created: bool,
}

impl ContextFactory {
    /// Whether a context has been created through this factory.
    pub closed spec fn is_created(self) -> bool {
        self.created
    }

    /// A factory for a process in which no context exists yet.
    pub fn new() -> (r: ContextFactory)
        ensures
            !r.is_created(),
    {
        ContextFactory { created: false }
    }

    /// Whether a context has been created through this factory.
    pub fn created(&self) -> (r: bool)
        ensures
            r == self.is_created(),
    {
        self.created
    }

    /// Forgets that a context was ever created.
    ///
    /// The foreign library supports only one context per process, so
    /// production drivers never call this; it is the seam that lets a
    /// test harness simulate several context lifetimes in one process
    /// after a full teardown.
    pub fn reset(&mut self)
        ensures
            !final(self).is_created(),
    {
        self.created = false;
    }
}

/// Accumulates the window configuration and performs the checks that
/// precede any foreign call.
pub struct WindowBuilder {
    flags: u32,
    width: i32,
    height: i32,
    title: Vec<u8>,
}

impl WindowBuilder {
    /// The accumulated configuration flags.
    pub closed spec fn spec_flags(self) -> u32 {
        self.flags
    }

    /// The configured width.
    pub closed spec fn spec_width(self) -> i32 {
        self.width
    }

    /// The configured height.
    pub closed spec fn spec_height(self) -> i32 {
        self.height
    }

    /// The configured title, as UTF-8 bytes.
    pub closed spec fn spec_title(self) -> Seq<u8> {
        self.title@
    }

    /// Creates a `WindowBuilder` with the default size, the default
    /// title and no special flags.
    pub fn new() -> (r: WindowBuilder)
        ensures
            r.spec_flags() == 0,
            r.spec_width() == 800,
            r.spec_height() == 450,
            r.spec_title() == "rayquaza".spec_bytes(),
    {
        WindowBuilder {
            flags: 0,
            width: 800,
            height: 450,
            title: "rayquaza".as_bytes_vec(),
        }
    }

    /// Sets the window size.
    pub fn size(self, width: i32, height: i32) -> (r: WindowBuilder)
        ensures
            r.spec_flags() == self.spec_flags(),
            r.spec_width() == width,
            r.spec_height() == height,
            r.spec_title() == self.spec_title(),
    {
        WindowBuilder { width, height, ..self }
    }

    /// Sets the window title.
    pub fn title(self, title: &str) -> (r: WindowBuilder)
        ensures
            r.spec_flags() == self.spec_flags(),
            r.spec_width() == self.spec_width(),
            r.spec_height() == self.spec_height(),
            r.spec_title() == title.spec_bytes(),
    {
        WindowBuilder { title: title.as_bytes_vec(), ..self }
    }

    /// Runs the window in fullscreen; leaves the resizable flag off,
    /// since the two are mutually exclusive.
    pub fn fullscreen(self) -> (r: WindowBuilder)
        ensures
            r.spec_flags() == (self.spec_flags() | FLAG_FULLSCREEN_MODE) & !FLAG_WINDOW_RESIZABLE,
            r.spec_width() == self.spec_width(),
            r.spec_height() == self.spec_height(),
            r.spec_title() == self.spec_title(),
    {
        WindowBuilder {
            flags: (self.flags | FLAG_FULLSCREEN_MODE) & !FLAG_WINDOW_RESIZABLE,
            ..self
        }
    }

    /// Allows resizing the window; leaves the fullscreen flag off, since
    /// the two are mutually exclusive.
    pub fn resizable(self) -> (r: WindowBuilder)
        ensures
            r.spec_flags() == (self.spec_flags() | FLAG_WINDOW_RESIZABLE) & !FLAG_FULLSCREEN_MODE,
            r.spec_width() == self.spec_width(),
            r.spec_height() == self.spec_height(),
            r.spec_title() == self.spec_title(),
    {
        WindowBuilder {
            flags: (self.flags | FLAG_WINDOW_RESIZABLE) & !FLAG_FULLSCREEN_MODE,
            ..self
        }
    }

    /// Disables the window decoration.
    pub fn undecorated(self) -> (r: WindowBuilder)
        ensures
            r.spec_flags() == self.spec_flags() | FLAG_WINDOW_UNDECORATED,
            r.spec_width() == self.spec_width(),
            r.spec_height() == self.spec_height(),
            r.spec_title() == self.spec_title(),
    {
        WindowBuilder { flags: self.flags | FLAG_WINDOW_UNDECORATED, ..self }
    }

    /// Allows a transparent window.
    pub fn transparent(self) -> (r: WindowBuilder)
        ensures
            r.spec_flags() == self.spec_flags() | FLAG_WINDOW_TRANSPARENT,
            r.spec_width() == self.spec_width(),
            r.spec_height() == self.spec_height(),
            r.spec_title() == self.spec_title(),
    {
        WindowBuilder { flags: self.flags | FLAG_WINDOW_TRANSPARENT, ..self }
    }

    /// Creates the window initially hidden.
    pub fn hidden(self) -> (r: WindowBuilder)
        ensures
            r.spec_flags() == self.spec_flags() | FLAG_WINDOW_HIDDEN,
            r.spec_width() == self.spec_width(),
            r.spec_height() == self.spec_height(),
            r.spec_title() == self.spec_title(),
    {
        WindowBuilder { flags: self.flags | FLAG_WINDOW_HIDDEN, ..self }
    }

    /// Keeps the window running while minimized.
    pub fn always_run(self) -> (r: WindowBuilder)
        ensures
            r.spec_flags() == self.spec_flags() | FLAG_WINDOW_ALWAYS_RUN,
            r.spec_width() == self.spec_width(),
            r.spec_height() == self.spec_height(),
            r.spec_title() == self.spec_title(),
    {
        WindowBuilder { flags: self.flags | FLAG_WINDOW_ALWAYS_RUN, ..self }
    }

    /// Tries to enable four-sample antialiasing.
    pub fn msaa_4x(self) -> (r: WindowBuilder)
        ensures
            r.spec_flags() == self.spec_flags() | FLAG_MSAA_4X_HINT,
            r.spec_width() == self.spec_width(),
            r.spec_height() == self.spec_height(),
            r.spec_title() == self.spec_title(),
    {
        WindowBuilder { flags: self.flags | FLAG_MSAA_4X_HINT, ..self }
    }

    /// Tries to enable vertical synchronization on the GPU.
    pub fn vsync(self) -> (r: WindowBuilder)
        ensures
            r.spec_flags() == self.spec_flags() | FLAG_VSYNC_HINT,
            r.spec_width() == self.spec_width(),
            r.spec_height() == self.spec_height(),
            r.spec_title() == self.spec_title(),
    {
        WindowBuilder { flags: self.flags | FLAG_VSYNC_HINT, ..self }
    }

    /// Begins building the window.
    ///
    /// Fails with `AlreadyCreated` when a context already exists, and
    /// with `InvalidTitle` when the title cannot cross the foreign
    /// string boundary; both failures happen before any foreign call.
    /// On success the returned [`PendingWindow`] carries the
    /// initialization calls for the driver to perform.
    pub fn build(self, factory: &ContextFactory) -> (r: Result<PendingWindow, CreateWindowError>)
        ensures
            factory.is_created() ==> r == Err::<PendingWindow, CreateWindowError>(
                CreateWindowError::AlreadyCreated,
            ),
            !factory.is_created() && has_nul_byte(self.spec_title()) ==> r == Err::<
                PendingWindow,
                CreateWindowError,
            >(CreateWindowError::InvalidTitle),
            !factory.is_created() && !has_nul_byte(self.spec_title()) ==> (r matches Ok(p)
                && p.spec_flags() == self.spec_flags() && p.spec_width() == self.spec_width()
                && p.spec_height() == self.spec_height() && p.spec_title_c() == spec_c_bytes(
                self.spec_title(),
            )),
    {
        if factory.created() {
            return Err(CreateWindowError::AlreadyCreated);
        }
        match c_terminate(&self.title) {
            None => Err(CreateWindowError::InvalidTitle),
            Some(title) => Ok(
                PendingWindow { flags: self.flags, width: self.width, height: self.height, title },
            ),
        }
    }
}

impl Default for WindowBuilder {
    /// The same configuration as [`WindowBuilder::new`].
    fn default() -> (r: WindowBuilder)
        ensures
            r.spec_flags() == 0,
            r.spec_width() == 800,
            r.spec_height() == 450,
            r.spec_title() == "rayquaza".spec_bytes(),
    {
        WindowBuilder::new()
    }
}

/// A window creation in progress: the checks before the foreign calls
/// have passed, and the driver must now perform [`PendingWindow::init_calls`]
/// and hand the foreign readiness answer to [`PendingWindow::finish`].
pub struct PendingWindow {
    flags: u32,
    width: i32,
    height: i32,
    title: Vec<u8>,
}

impl PendingWindow {
    /// The configuration flags to apply.
    pub closed spec fn spec_flags(self) -> u32 {
        self.flags
    }

    /// The window width.
    pub closed spec fn spec_width(self) -> i32 {
        self.width
    }

    /// The window height.
    pub closed spec fn spec_height(self) -> i32 {
        self.height
    }

    /// The null-terminated title bytes.
    pub closed spec fn spec_title_c(self) -> Seq<u8> {
        self.title@
    }

    /// The initialization call sequence, for the driver to perform in
    /// order before querying readiness.
    pub fn init_calls(&self) -> (r: Vec<ForeignCall>)
        ensures
            calls_view(r@) == init_trace(self.spec_flags(), self.spec_width(), self.spec_height(),
            self.spec_title_c()),
    {
        let mut calls: Vec<ForeignCall> = Vec::new();
        calls.push(ForeignCall::SetConfigFlags { flags: self.flags });
        calls.push(
            ForeignCall::InitWindow {
                width: self.width,
                height: self.height,
                title: self.title.clone(),
            },
        );
        proof {
            assert(calls_view(calls@) =~= init_trace(self.spec_flags(), self.spec_width(),
            self.spec_height(), self.spec_title_c()));
        }
        calls
    }

    /// Completes the creation with the foreign readiness answer.
    ///
    /// When the foreign library reported ready, the factory is marked
    /// and the live [`Window`] is returned; otherwise the creation fails
    /// with `InitializationFailed` and the factory is left unmarked, so
    /// another attempt remains possible. A context created through the
    /// factory refuses further creations until the factory is reset.
    pub fn finish(self, factory: &mut ContextFactory, ready: bool) -> (r: Result<
        Window,
        CreateWindowError,
    >)
        ensures
            old(factory).is_created() ==> r == Err::<Window, CreateWindowError>(
                CreateWindowError::AlreadyCreated,
            ) && final(factory).is_created(),
            !old(factory).is_created() && !ready ==> r == Err::<Window, CreateWindowError>(
                CreateWindowError::InitializationFailed,
            ) && !final(factory).is_created(),
            !old(factory).is_created() && ready ==> final(factory).is_created() && (r matches Ok(
            w) && w.trace() == init_trace(self.spec_flags(), self.spec_width(),
            self.spec_height(), self.spec_title_c()) && w.spec_textures() == 0 && w.spec_fonts()
                == 0),
    {
        if factory.created() {
            return Err(CreateWindowError::AlreadyCreated);
        }
        if !ready {
            return Err(CreateWindowError::InitializationFailed);
        }
        factory.created = true;
        let ghost trace = init_trace(self.spec_flags(), self.spec_width(), self.spec_height(),
        self.spec_title_c());
        proof {
            let a = Call::SetConfigFlags { flags: self.spec_flags() };
            let b = Call::InitWindow {
                width: self.spec_width(),
                height: self.spec_height(),
                title: self.spec_title_c(),
            };
            assert(trace =~= seq![a] + seq![b]);
            lemma_resource_counts_singleton(a);
            lemma_resource_counts_singleton(b);
            lemma_resource_counts_concat(seq![a], seq![b]);
        }
        Ok(
            Window {
                flags: self.flags,
                width: self.width,
                height: self.height,
                title: self.title,
                live_textures: 0,
                live_fonts: 0,
                hist: Ghost(trace),
            },
        )
    }
}

/// The foreign calls that initialize a context.
pub open spec fn init_trace(flags: u32, width: i32, height: i32, title_c: Seq<u8>) -> Seq<Call> {
    seq![
        Call::SetConfigFlags { flags },
        Call::InitWindow { width, height, title: title_c },
    ]
}

/// The live graphics context.
///
/// The window records every foreign call it decides on; its ghost trace
/// is the full history of those calls. Textures and fonts loaded through
/// the window are counted against it, and [`Window::close`] refuses to
/// issue the teardown call while any of them is still live, so teardown
/// is always the last call of a history.
pub struct Window {
    pub(crate) flags: u32,
    pub(crate) width: i32,
    pub(crate) height: i32,
    pub(crate) title: Vec<u8>,
    pub(crate) live_textures: u64,
    pub(crate) live_fonts: u64,
    pub(crate) hist: Ghost<Seq<Call>>,
}

impl Window {
    /// The history of foreign calls this window has decided on.
    pub closed spec fn trace(self) -> Seq<Call> {
        self.hist@
    }

    /// The number of live textures loaded through this window.
    pub closed spec fn spec_textures(self) -> u64 {
        self.live_textures
    }

    /// The number of live fonts loaded through this window.
    pub closed spec fn spec_fonts(self) -> u64 {
        self.live_fonts
    }

    /// The context has not been torn down while the window exists, and
    /// the live-resource counters agree with the history.
    #[verifier::type_invariant]
    pub(crate) open spec fn wf(self) -> bool {
        &&& forall|i: int| 0 <= i < self.hist@.len() ==> #[trigger] self.hist@[i]
            != Call::CloseWindow
        &&& live_texture_count(self.hist@) == self.live_textures as int
        &&& live_font_count(self.hist@) == self.live_fonts as int
    }

    /// The number of live textures loaded through this window.
    pub fn texture_count(&self) -> (r: u64)
        ensures
            r == self.spec_textures(),
    {
        self.live_textures
    }

    /// The number of live fonts loaded through this window.
    pub fn font_count(&self) -> (r: u64)
        ensures
            r == self.spec_fonts(),
    {
        self.live_fonts
    }

    /// A window value that satisfies the invariant trivially, used to
    /// stand in while the real window is rebuilt.
    pub(crate) fn placeholder() -> (r: Window)
        ensures
            r.trace() == Seq::<Call>::empty(),
    {
        Window {
            flags: 0,
            width: 0,
            height: 0,
            title: Vec::new(),
            live_textures: 0,
            live_fonts: 0,
            hist: Ghost(Seq::empty()),
        }
    }

    /// Records one resource event in the history and sets the live
    /// counters to the values the event implies.
    pub(crate) fn log_event(&mut self, Ghost(ev): Ghost<Call>, textures: u64, fonts: u64)
        requires
            ev != Call::CloseWindow,
            textures as int == old(self).spec_textures() + crate::foreign::texture_delta(ev),
            fonts as int == old(self).spec_fonts() + crate::foreign::font_delta(ev),
        ensures
            final(self).trace() == old(self).trace().push(ev),
            final(self).spec_textures() == textures,
            final(self).spec_fonts() == fonts,
    {
        proof {
            use_type_invariant(&*self);
        }
        let ghost new_hist = self.hist@.push(ev);
        proof {
            assert(new_hist.drop_last() =~= self.hist@);
            assert(forall|i: int|
                0 <= i < new_hist.len() - 1 ==> #[trigger] new_hist[i] == self.hist@[i]);
        }
        let mut w = Window::placeholder();
        core::mem::swap(&mut w, self);
        let Window { flags, width, height, title, live_textures: _, live_fonts: _, hist: _ } = w;
        *self = Window {
            flags,
            width,
            height,
            title,
            live_textures: textures,
            live_fonts: fonts,
            hist: Ghost(new_hist),
        };
    }

    /// Tears the context down.
    ///
    /// Refused while a texture or font loaded through this window is
    /// still live: the teardown call may only ever come after every
    /// resource has been unloaded. On success the returned record is the
    /// teardown call, the last foreign call of this context's history,
    /// and that completed history is resource-correct.
    pub fn close(self) -> (r: Result<ForeignCall, Window>)
        ensures
            self.spec_textures() == 0 && self.spec_fonts() == 0 <==> r is Ok,
            r matches Ok(c) ==> c@ == Call::CloseWindow && teardown_last(self.trace().push(
            Call::CloseWindow)),
            r matches Err(w) ==> w == self,
    {
        proof {
            use_type_invariant(&self);
        }
        if self.live_textures == 0 && self.live_fonts == 0 {
            proof {
                lemma_teardown_ordering(self.hist@);
            }
            Ok(ForeignCall::CloseWindow)
        } else {
            Err(self)
        }
    }
}

impl Window {
    /// Draws one frame.
    ///
    /// The supplied drawing logic receives a fresh canvas and records
    /// draw calls on it; whatever it records, the returned batch is that
    /// body bracketed by exactly one begin-frame call before it and one
    /// end-frame call after it, and the window's history grows by
    /// exactly this batch. The frame is sealed here, when the logic
    /// returns: the scope cannot be stored, and there is no end method
    /// to forget or to call twice. Should the drawing logic panic, the
    /// batch is never produced, so the driver performs none of the
    /// frame's calls — the foreign renderer never sees an unmatched
    /// begin-frame call.
    pub fn draw<F: FnOnce(Canvas) -> Canvas>(&mut self, drawing: F) -> (batch: Vec<ForeignCall>)
        requires
            forall|c: Canvas| c@ =~= Seq::<Call>::empty() ==> call_requires(drawing, (c,)),
        ensures
            exists|body: Seq<Call>|
                scoped(body) && calls_view(batch@) == seq![Call::BeginDrawing] + body + seq![
                    Call::EndDrawing,
                ],
            exists|c0: Canvas, c1: Canvas|
                c0@ == Seq::<Call>::empty() && call_ensures(drawing, (c0,), c1) && calls_view(
                batch@) == seq![Call::BeginDrawing] + c1@ + seq![Call::EndDrawing],
            final(self).trace() == old(self).trace() + calls_view(batch@),
            final(self).spec_textures() == old(self).spec_textures(),
            final(self).spec_fonts() == old(self).spec_fonts(),
    {
        proof {
            use_type_invariant(&*self);
        }
        let fresh = Canvas::empty();
        let ghost fresh0 = fresh;
        let inner = drawing(fresh);
        let ghost inner0 = inner;
        let mut inner_ops = inner.into_recorded();
        let ghost body = calls_view(inner_ops@);
        let ghost inner_seq = inner_ops@;
        let mut batch: Vec<ForeignCall> = Vec::new();
        batch.push(ForeignCall::BeginDrawing);
        batch.append(&mut inner_ops);
        batch.push(ForeignCall::EndDrawing);
        proof {
            lemma_calls_view_push(Seq::<ForeignCall>::empty(), ForeignCall::BeginDrawing);
            assert(calls_view(Seq::<ForeignCall>::empty()) =~= Seq::<Call>::empty());
            lemma_calls_view_concat(
                Seq::<ForeignCall>::empty().push(ForeignCall::BeginDrawing),
                inner_seq,
            );
            lemma_calls_view_push(
                Seq::<ForeignCall>::empty().push(ForeignCall::BeginDrawing) + inner_seq,
                ForeignCall::EndDrawing,
            );
            assert(calls_view(batch@) =~= seq![Call::BeginDrawing] + body + seq![
                Call::EndDrawing,
            ]);
        }
        let ghost frame = calls_view(batch@);
        let ghost new_hist = self.hist@ + frame;
        proof {
            lemma_resource_counts_singleton(Call::BeginDrawing);
            lemma_resource_counts_singleton(Call::EndDrawing);
            lemma_frame_ops_touch_no_resources(body);
            lemma_resource_counts_concat(seq![Call::BeginDrawing], body);
            lemma_resource_counts_concat(seq![Call::BeginDrawing] + body, seq![Call::EndDrawing]);
            assert(frame =~= (seq![Call::BeginDrawing] + body) + seq![Call::EndDrawing]);
            lemma_resource_counts_concat(self.hist@, frame);
            assert forall|i: int| 0 <= i < new_hist.len() implies #[trigger] new_hist[i]
                != Call::CloseWindow by {
                if i < self.hist@.len() {
                    assert(new_hist[i] == self.hist@[i]);
                } else {
                    let j = i - self.hist@.len();
                    assert(new_hist[i] == frame[j]);
                    if 0 < j < frame.len() - 1 {
                        assert(frame[j] == body[j - 1]);
                        assert(is_frame_op(body[j - 1]));
                    }
                }
            }
        }
        self.hist = Ghost(new_hist);
        batch
    }
}

} // verus!
