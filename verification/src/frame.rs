//! The frame loop as a state machine.
//!
//! The loop itself runs outside this library, where the window and the device
//! are. In every iteration it hands the pending window events to
//! [`FrameLoop::poll`]; if that returns commands, it acquires the next image,
//! records and submits them and reports what became of the frame to
//! [`FrameLoop::frame_done`]; then it calls [`FrameLoop::finish_iteration`],
//! and goes on while the state is `Running`.
//!
//! A close request ends the loop in the iteration in which it is seen, before
//! anything is drawn. A surface that cannot be acquired and a lost device end
//! it too. Resizing is not acted upon.

use vstd::prelude::*;
use crate::draw::{clear_color, frame_commands, record_frame, Color, Command, DrawCall};
use crate::error::RenderError;
use crate::pipeline::{PipelineConfig, TextureFormat};

verus! {

/// What the window delivers.
#[derive(Clone, Copy, Debug, PartialEq, Eq, Structural)]
pub enum WindowEvent {
    /// The surface has a new size.
    Resize(u32, u32),
    /// The user asks the window to close.
    CloseRequested,
    /// Anything else.
    Other,
}

/// Where the loop stands.
#[derive(Clone, Copy, Debug, PartialEq, Eq, Structural)]
pub enum LoopState {
    /// Frames are drawn.
    Running,
    /// The loop ends with the current iteration.
    Closing,
    /// The loop has ended; the device resources can be released.
    Terminated,
}

/// What became of a frame that was handed out.
#[derive(Clone, Copy, Debug, PartialEq, Eq, Structural)]
pub enum FrameOutcome {
    /// The commands were submitted to the queue.
    Submitted,
    /// No image could be acquired from the surface.
    SurfaceLost,
    /// The device is gone.
    DeviceLost,
}

/// The presentation surface: its size, the format of its images and the color
/// they are cleared to.
#[derive(Clone, Copy, Debug, PartialEq, Eq, Structural)]
pub struct SwapChainState {
    pub width: u32,
    pub height: u32,
    pub format: TextureFormat,
    pub clear: Color,
}

impl SwapChainState {
    /// The surface of the given size that a pipeline renders into: its images
    /// have the format of the pipeline's color target and are cleared to the
    /// fixed color.
    pub fn for_pipeline(width: u32, height: u32, config: &PipelineConfig) -> (s: SwapChainState)
        ensures
            s == (SwapChainState {
                width,
                height,
                format: config@.color_format,
                clear: clear_color(),
            }),
            s.format.is_color(),
    {
        SwapChainState {
            width,
            height,
            format: config.color_format(),
            clear: Color { r: 0, g: 0x3f00_0000, b: 0x3f00_0000, a: 0x3f80_0000 },
        }
    }
}

/// Mathematical content of a [`FrameLoop`].
pub struct LoopView {
    pub state: LoopState,
    /// Frames submitted so far.
    pub submitted: u64,
    /// Why the loop ended, if it was not asked to.
    pub failure: Option<RenderError>,
    pub draw: DrawCall,
    pub clear: Color,
}

/// The batch holds a close request.
pub open spec fn has_close(events: Seq<WindowEvent>) -> bool {
    exists|i: int| 0 <= i < events.len() && #[trigger] events[i] == WindowEvent::CloseRequested
}

/// The order of the states: a state is kept, or `Running` gives way to
/// `Closing`, or `Closing` to `Terminated`.
pub open spec fn follows(from: LoopState, to: LoopState) -> bool {
    ||| from == to
    ||| from == LoopState::Running && to == LoopState::Closing
    ||| from == LoopState::Closing && to == LoopState::Terminated
}

/// The failure that the outcome of a frame amounts to.
pub open spec fn failure_of(outcome: FrameOutcome) -> Option<RenderError> {
    match outcome {
        FrameOutcome::Submitted => None,
        FrameOutcome::SurfaceLost => Some(RenderError::SurfaceAcquisitionError),
        FrameOutcome::DeviceLost => Some(RenderError::DeviceLostError),
    }
}

impl LoopView {
    /// The loop as it starts: running, nothing submitted, nothing failed.
    pub open spec fn initial(draw: DrawCall, clear: Color) -> LoopView {
        LoopView { state: LoopState::Running, submitted: 0, failure: None, draw, clear }
    }

    /// Whether a frame is drawn in an iteration that starts here and sees
    /// `events`.
    pub open spec fn draws(self, events: Seq<WindowEvent>) -> bool {
        self.state == LoopState::Running && !has_close(events)
    }

    /// The loop after it was handed `events`.
    pub open spec fn after_poll(self, events: Seq<WindowEvent>) -> LoopView {
        if self.state == LoopState::Running && has_close(events) {
            LoopView { state: LoopState::Closing, ..self }
        } else {
            self
        }
    }

    /// The loop after it was told what became of a frame.
    pub open spec fn after_frame(self, outcome: FrameOutcome) -> LoopView {
        if self.state != LoopState::Running {
            self
        } else if outcome == FrameOutcome::Submitted {
            LoopView {
                submitted: if self.submitted < u64::MAX {
                    (self.submitted + 1) as u64
                } else {
                    self.submitted
                },
                ..self
            }
        } else {
            LoopView { state: LoopState::Closing, failure: failure_of(outcome), ..self }
        }
    }

    /// The loop after the iteration was finished.
    pub open spec fn after_finish(self) -> LoopView {
        if self.state == LoopState::Closing {
            LoopView { state: LoopState::Terminated, ..self }
        } else {
            self
        }
    }

    /// The loop after one whole iteration in which the window delivers `events`
    /// and the device answers a frame, if one is drawn, with `outcome`.
    pub open spec fn after_iteration(
        self,
        events: Seq<WindowEvent>,
        outcome: FrameOutcome,
    ) -> LoopView {
        if self.draws(events) {
            self.after_poll(events).after_frame(outcome).after_finish()
        } else {
            self.after_poll(events).after_finish()
        }
    }

    /// The loop after the first `n` iterations of a script that says, for every
    /// iteration, what the window delivers and how the device answers.
    pub open spec fn after_script(
        self,
        script: Seq<(Seq<WindowEvent>, FrameOutcome)>,
        n: int,
    ) -> LoopView
        decreases n,
    {
        if n <= 0 {
            self
        } else {
            self.after_script(script, n - 1).after_iteration(script[n - 1].0, script[n - 1].1)
        }
    }
}

/// Whether the batch holds a close request.
pub fn close_requested(events: &[WindowEvent]) -> (b: bool)
    ensures
        b == has_close(events@),
{
    let mut i: usize = 0;
    while i < events.len()
        invariant
            i <= events.len(),
            forall|j: int| 0 <= j < i ==> #[trigger] events@[j] != WindowEvent::CloseRequested,
        decreases events.len() - i,
    {
        match events[i] {
            WindowEvent::CloseRequested => {
                return true;
            },
            _ => {},
        }
        i = i + 1;
    }
    false
}

/// The state of the frame loop.
#[derive(Debug)]
pub struct FrameLoop {
    state: LoopState,
    submitted: u64,
    failure: Option<RenderError>,
    draw: DrawCall,
    clear: Color,
}

impl View for FrameLoop {
    type V = LoopView;

    closed spec fn view(&self) -> LoopView {
        LoopView {
            state: self.state,
            submitted: self.submitted,
            failure: self.failure,
            draw: self.draw,
            clear: self.clear,
        }
    }
}

impl FrameLoop {
    /// The loop after setup: running, to draw `draw` into `surface` every frame.
    pub fn new(draw: DrawCall, surface: &SwapChainState) -> (l: FrameLoop)
        ensures
            l@ == LoopView::initial(draw, surface.clear),
    {
        FrameLoop {
            state: LoopState::Running,
            submitted: 0,
            failure: None,
            draw,
            clear: surface.clear,
        }
    }

    pub fn state(&self) -> (s: LoopState)
        ensures
            s == self@.state,
    {
        self.state
    }

    /// Frames submitted so far.
    pub fn submitted(&self) -> (n: u64)
        ensures
            n == self@.submitted,
    {
        self.submitted
    }

    /// Why the loop ended, if it was not asked to.
    pub fn failure(&self) -> (e: Option<RenderError>)
        ensures
            e == self@.failure,
    {
        self.failure
    }

    /// Takes the events that were pending at the top of an iteration, all of
    /// them, in the order of their arrival.
    ///
    /// While running, a close request among them moves the loop to `Closing`
    /// and no frame is drawn; without one the commands of the frame are handed
    /// out. In the other states nothing is handed out and nothing changes.
    pub fn poll(&mut self, events: &[WindowEvent]) -> (frame: Option<Vec<Command>>)
        ensures
            final(self)@ == old(self)@.after_poll(events@),
            follows(old(self)@.state, final(self)@.state),
            match frame {
                Some(commands) => old(self)@.draws(events@) && commands@ == frame_commands(
                    old(self)@.draw,
                    old(self)@.clear,
                ),
                None => !old(self)@.draws(events@),
            },
    {
        match self.state {
            LoopState::Running => {
                if close_requested(events) {
                    self.state = LoopState::Closing;
                    None
                } else {
                    Some(record_frame(self.draw, self.clear))
                }
            },
            _ => None,
        }
    }

    /// Takes what became of the frame that `poll` handed out.
    ///
    /// While running, a submitted frame is counted, and a surface that could
    /// not be acquired or a lost device moves the loop to `Closing` and is
    /// kept as its failure. In the other states nothing changes.
    pub fn frame_done(&mut self, outcome: FrameOutcome)
        ensures
            final(self)@ == old(self)@.after_frame(outcome),
            follows(old(self)@.state, final(self)@.state),
    {
        match self.state {
            LoopState::Running => {
                match outcome {
                    FrameOutcome::Submitted => {
                        if self.submitted < u64::MAX {
                            self.submitted = self.submitted + 1;
                        }
                    },
                    FrameOutcome::SurfaceLost => {
                        self.state = LoopState::Closing;
                        self.failure = Some(RenderError::SurfaceAcquisitionError);
                    },
                    FrameOutcome::DeviceLost => {
                        self.state = LoopState::Closing;
                        self.failure = Some(RenderError::DeviceLostError);
                    },
                }
            },
            _ => {},
        }
    }

    /// Ends the iteration: a loop that is closing is terminated, any other is
    /// left as it is. Returns the state it is in afterwards.
    pub fn finish_iteration(&mut self) -> (s: LoopState)
        ensures
            final(self)@ == old(self)@.after_finish(),
            follows(old(self)@.state, final(self)@.state),
            s == final(self)@.state,
    {
        match self.state {
            LoopState::Closing => {
                self.state = LoopState::Terminated;
            },
            _ => {},
        }
        self.state
    }
}

/// Every step keeps the order of the states, and a whole iteration leaves a
/// running loop running or terminated, and any other loop terminated.
pub proof fn lemma_states_in_order(v: LoopView, events: Seq<WindowEvent>, outcome: FrameOutcome)
    ensures
        follows(v.state, v.after_poll(events).state),
        follows(v.state, v.after_frame(outcome).state),
        follows(v.state, v.after_finish().state),
        v.state == LoopState::Running ==> v.after_iteration(events, outcome).state
            == LoopState::Running || v.after_iteration(events, outcome).state
            == LoopState::Terminated,
        v.state != LoopState::Running ==> v.after_iteration(events, outcome).state
            == LoopState::Terminated,
        v.after_iteration(events, outcome).state == LoopState::Running ==> v.state
            == LoopState::Running,
{
}

/// An iteration that sees a close request draws nothing and terminates the
/// loop, whatever the device would have answered.
pub proof fn lemma_close_ends_loop(v: LoopView, events: Seq<WindowEvent>, outcome: FrameOutcome)
    requires
        v.state == LoopState::Running,
        has_close(events),
    ensures
        !v.draws(events),
        v.after_poll(events).state == LoopState::Closing,
        v.after_iteration(events, outcome).state == LoopState::Terminated,
        v.after_iteration(events, outcome).submitted == v.submitted,
        v.after_iteration(events, outcome).failure == v.failure,
{
}

/// A loop that is not running draws no frame and counts none, in any iteration.
pub proof fn lemma_stopped_stays_stopped(
    v: LoopView,
    script: Seq<(Seq<WindowEvent>, FrameOutcome)>,
    n: int,
)
    requires
        v.state != LoopState::Running,
    ensures
        v.after_script(script, n).state != LoopState::Running,
        v.after_script(script, n).submitted == v.submitted,
        v.after_script(script, n).failure == v.failure,
        forall|events: Seq<WindowEvent>| !v.after_script(script, n).draws(events),
        n >= 1 ==> v.after_script(script, n).state == LoopState::Terminated,
    decreases n,
{
    if n > 0 {
        lemma_stopped_stays_stopped(v, script, n - 1);
    }
}

/// The script continues a loop from where a prefix of it has brought it.
proof fn lemma_script_split(
    v: LoopView,
    script: Seq<(Seq<WindowEvent>, FrameOutcome)>,
    k: int,
    n: int,
)
    requires
        0 <= k <= n <= script.len(),
    ensures
        v.after_script(script, n) == v.after_script(script, k).after_script(
            script.subrange(k, script.len() as int),
            n - k,
        ),
    decreases n - k,
{
    let rest = script.subrange(k, script.len() as int);
    if k < n {
        lemma_script_split(v, script, k, n - 1);
        assert(rest[n - 1 - k] == script[n - 1]);
    }
}

/// Once a close request was seen in iteration `k`, no frame is submitted any
/// more: after every later iteration the loop is terminated, and the count of
/// submitted frames is what it was before iteration `k`.
pub proof fn lemma_no_draw_after_close(
    v: LoopView,
    script: Seq<(Seq<WindowEvent>, FrameOutcome)>,
    k: int,
    n: int,
)
    requires
        0 <= k < n <= script.len(),
        has_close(script[k].0),
    ensures
        v.after_script(script, n).state == LoopState::Terminated,
        v.after_script(script, n).submitted == v.after_script(script, k).submitted,
        forall|events: Seq<WindowEvent>| !v.after_script(script, n).draws(events),
{
    let before = v.after_script(script, k);
    let closed = v.after_script(script, k + 1);
    assert(closed == before.after_iteration(script[k].0, script[k].1));
    assert(closed.state == LoopState::Terminated);
    assert(closed.submitted == before.submitted);
    lemma_script_split(v, script, k + 1, n);
    lemma_stopped_stays_stopped(closed, script.subrange(k + 1, script.len() as int), n - (k + 1));
}

/// A close request on the first poll: nothing is ever submitted and the loop
/// ends terminated.
pub proof fn lemma_close_on_first_poll(
    draw: DrawCall,
    clear: Color,
    script: Seq<(Seq<WindowEvent>, FrameOutcome)>,
    n: int,
)
    requires
        1 <= n <= script.len(),
        has_close(script[0].0),
    ensures
        LoopView::initial(draw, clear).after_script(script, n).state == LoopState::Terminated,
        LoopView::initial(draw, clear).after_script(script, n).submitted == 0,
{
    lemma_no_draw_after_close(LoopView::initial(draw, clear), script, 0, n);
}

} // verus!
