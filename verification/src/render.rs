//! The render loop as a state machine.
//!
//! The loop has one request outstanding at any time: something that only the
//! program around this library can do (show the window, drain the watcher's
//! queue, read the shader file, compile, measure, draw, poll the window).
//! The program does it and hands back the event that answers it;
//! `RenderLoop::step` takes the event, updates the state and says what to do
//! next.

use vstd::prelude::*;
use crate::controller::{ControllerState, ReloadController};
use crate::frame::{any_close, close_requested, FrameUniforms, WindowEvent};
use crate::outcome::CompileOutcome;
use crate::report::{lemma_texts_empty, texts};
use crate::source::ShaderAssets;
use crate::watch::{change_notices, ChangeEvent};

verus! {

/// What the render loop asks the program around it to do next.
#[derive(Debug, Clone, Copy, PartialEq, Eq)]
pub enum Request {
    /// Make the window visible. It is the first request of a loop, and a
    /// loop exists only once startup is over: a startup that fails never
    /// shows a window.
    ShowWindow,
    /// Take every event that waits in the watcher's queue, without blocking.
    DrainWatcher,
    /// Read the user shader file.
    ReadShader,
    /// Compile the staged fragment source against the vertex shader.
    Compile,
    /// Read the size of the framebuffer and the clock.
    Measure,
    /// Clear the target, draw the full-screen triangle with the selected
    /// program and these uniforms, and present the frame.
    Draw(FrameUniforms),
    /// Poll the window system for events.
    PollWindow,
    /// Leave the loop: the window was closed.
    Exit,
}

/// What the program around the loop reports back.
#[derive(Debug)]
pub enum Event<P> {
    /// The window is visible.
    Shown,
    /// The events that were waiting in the watcher's queue, oldest first.
    Changes(Vec<ChangeEvent>),
    /// The text of the user shader file, or why it could not be read.
    ShaderRead(Result<String, String>),
    /// The compiled program, or the compiler's diagnostic text.
    Compiled(Result<P, String>),
    /// The size of the framebuffer in pixels and the milliseconds since the
    /// process started.
    Measured { width: u32, height: u32, elapsed_millis: u128 },
    /// The frame was drawn and presented.
    Presented,
    /// The events that the window system had.
    Input(Vec<WindowEvent>),
}

/// The answer of the loop to an event.
#[derive(Debug, PartialEq, Eq)]
pub struct Transition {
    /// Lines for the operator's log, in order.
    pub messages: Vec<String>,
    /// What to do next.
    pub request: Request,
}

/// The state of the render loop, as contracts speak of it.
pub struct LoopModel<P> {
    /// The default program, the active slot and the reload flag.
    pub controller: ControllerState<P>,
    /// The fixed shader texts.
    pub assets: ShaderAssets,
    /// The fragment source that the latest `Compile` request is about.
    pub staged: Seq<char>,
    /// Number of frames completed so far.
    pub frame: u64,
    /// The request that is outstanding.
    pub awaiting: Request,
}

impl<P> LoopModel<P> {
    /// The state in which the loop starts: no frame drawn yet, the outcome of
    /// the first build in the active slot, the window about to be shown.
    pub open spec fn initial(
        assets: ShaderAssets,
        default_program: P,
        first: CompileOutcome<P>,
    ) -> Self {
        LoopModel {
            controller: ControllerState::initial(default_program, first),
            assets,
            staged: Seq::empty(),
            frame: 0,
            awaiting: Request::ShowWindow,
        }
    }

    /// Whether `event` is an answer to the outstanding request.
    pub open spec fn answers(self, event: Event<P>) -> bool {
        match (self.awaiting, event) {
            (Request::ShowWindow, Event::Shown) => true,
            (Request::DrainWatcher, Event::Changes(_)) => true,
            (Request::ReadShader, Event::ShaderRead(_)) => true,
            (Request::Compile, Event::Compiled(_)) => true,
            (Request::Measure, Event::Measured { .. }) => true,
            (Request::Draw(_), Event::Presented) => true,
            (Request::PollWindow, Event::Input(_)) => true,
            _ => false,
        }
    }

    /// Whether the loop can take `event`: where the event completes a frame,
    /// the frame counter must have room for one more.
    pub open spec fn accepts(self, event: Event<P>) -> bool {
        self.answers(event) && event is Input ==> self.frame < u64::MAX
    }

    /// The state after `event`.
    ///
    /// An event that does not answer the outstanding request changes
    /// nothing. Otherwise:
    /// - once the window is visible the first frame begins: the watcher's
    ///   queue is drained;
    /// - watcher events raise the reload flag if any of them is a creation or
    ///   a write; with the flag up the shader file is read next, else the
    ///   frame is measured;
    /// - the text of the shader file is wrapped in preamble and postamble and
    ///   staged for the compiler;
    /// - a file that could not be read counts as a failed build, with the
    ///   reason as its diagnostic;
    /// - the compiler's answer takes the active slot, whatever the slot held;
    /// - the measurements become the uniforms of the frame to draw;
    /// - after the frame is presented the window is polled;
    /// - the window's events complete the frame: the counter goes up by one,
    ///   and the loop ends if any of them is a close request.
    pub open spec fn next(self, event: Event<P>) -> Self {
        if !self.answers(event) {
            self
        } else {
            match event {
                Event::Shown => LoopModel { awaiting: Request::DrainWatcher, ..self },
                Event::Changes(events) => {
                    let controller = self.controller.observed(events@);
                    LoopModel {
                        controller,
                        awaiting: if controller.reload_pending {
                            Request::ReadShader
                        } else {
                            Request::Measure
                        },
                        ..self
                    }
                },
                Event::ShaderRead(Ok(body)) => LoopModel {
                    staged: self.assets.fragment(body@),
                    awaiting: Request::Compile,
                    ..self
                },
                Event::ShaderRead(Err(reason)) => LoopModel {
                    controller: self.controller.installed(CompileOutcome::Failed(reason)),
                    awaiting: Request::Measure,
                    ..self
                },
                Event::Compiled(result) => LoopModel {
                    controller: self.controller.installed(CompileOutcome::of(result)),
                    awaiting: Request::Measure,
                    ..self
                },
                Event::Measured { width, height, elapsed_millis } => LoopModel {
                    awaiting: Request::Draw(
                        FrameUniforms::of(width, height, elapsed_millis, self.frame),
                    ),
                    ..self
                },
                Event::Presented => LoopModel { awaiting: Request::PollWindow, ..self },
                Event::Input(inputs) => LoopModel {
                    frame: (self.frame + 1) as u64,
                    awaiting: if any_close(inputs@) {
                        Request::Exit
                    } else {
                        Request::DrainWatcher
                    },
                    ..self
                },
            }
        }
    }

    /// The log lines that `event` gives rise to: a notice for every creation
    /// or write that the watcher saw, and the diagnostic text of every build
    /// that failed.
    pub open spec fn messages(self, event: Event<P>) -> Seq<Seq<char>> {
        if !self.answers(event) {
            Seq::empty()
        } else {
            match event {
                Event::Changes(events) => change_notices(events@),
                Event::ShaderRead(Err(reason)) => seq![reason@],
                Event::Compiled(result) => CompileOutcome::of(result).report(),
                _ => Seq::empty(),
            }
        }
    }

    /// What holds of the loop in every state it reaches: the reload flag is
    /// up only while the shader file is being read or compiled, so between
    /// frames nothing is pending.
    pub open spec fn settled(self) -> bool {
        self.controller.reload_pending ==> self.awaiting == Request::ReadShader || self.awaiting
            == Request::Compile
    }

    /// Whether the loop has not ended.
    pub open spec fn is_running(self) -> bool {
        self.awaiting != Request::Exit
    }
}

/// The render loop: the reload controller, the fixed shader texts, the frame
/// counter and the outstanding request.
pub struct RenderLoop<P> {
    controller: ReloadController<P>,
    assets: ShaderAssets,
    staged: String,
    frame: u64,
    awaiting: Request,
}

impl<P> View for RenderLoop<P> {
    type V = LoopModel<P>;

    closed spec fn view(&self) -> LoopModel<P> {
        LoopModel {
            controller: self.controller@,
            assets: self.assets,
            staged: self.staged@,
            frame: self.frame,
            awaiting: self.awaiting,
        }
    }
}

impl<P> RenderLoop<P> {
    /// Starts the loop with a default program that compiled and with the
    /// compiler's answer for the user shader. A user shader that failed does
    /// not stop the loop: its diagnostic goes to the log and the default
    /// program is rendered until a rebuild succeeds. The first request is to
    /// show the window.
    pub fn start(assets: ShaderAssets, default_program: P, first: Result<P, String>) -> (begun: (
        Self,
        Transition,
    ))
        ensures
            begun.0@ == LoopModel::initial(assets, default_program, CompileOutcome::of(first)),
            begun.0@.settled(),
            texts(begun.1.messages@) == CompileOutcome::of(first).report(),
            begun.1.request == Request::ShowWindow,
    {
        let outcome = CompileOutcome::from_result(first);
        let messages = outcome.report_lines();
        let controller = ReloadController::new(default_program, outcome);
        let state = RenderLoop {
            controller,
            assets,
            staged: String::new(),
            frame: 0,
            awaiting: Request::ShowWindow,
        };
        (state, Transition { messages, request: Request::ShowWindow })
    }

    /// Takes the event that answers the outstanding request and decides what
    /// comes next. An event that does not answer it is passed over: nothing
    /// changes and the same request is made again.
    ///
    /// The frame counter must have room where the event completes a frame;
    /// `can_step` tests that.
    pub fn step(&mut self, event: Event<P>) -> (out: Transition)
        requires
            old(self)@.accepts(event),
        ensures
            final(self)@ == old(self)@.next(event),
            texts(out.messages@) == old(self)@.messages(event),
            out.request == final(self)@.awaiting,
            old(self)@.settled() ==> final(self)@.settled(),
    {
        let mut messages: Vec<String> = Vec::new();
        proof {
            lemma_texts_empty();
        }
        match (self.awaiting, event) {
            (Request::ShowWindow, Event::Shown) => {
                self.awaiting = Request::DrainWatcher;
            },
            (Request::DrainWatcher, Event::Changes(events)) => {
                messages = self.controller.observe(&events);
                if self.controller.reload_pending() {
                    self.awaiting = Request::ReadShader;
                } else {
                    self.awaiting = Request::Measure;
                }
            },
            (Request::ReadShader, Event::ShaderRead(Ok(body))) => {
                self.staged = self.assets.wrap(body.as_str());
                self.awaiting = Request::Compile;
            },
            (Request::ReadShader, Event::ShaderRead(Err(reason))) => {
                messages = self.controller.install(CompileOutcome::Failed(reason));
                self.awaiting = Request::Measure;
            },
            (Request::Compile, Event::Compiled(result)) => {
                messages = self.controller.install(CompileOutcome::from_result(result));
                self.awaiting = Request::Measure;
            },
            (Request::Measure, Event::Measured { width, height, elapsed_millis }) => {
                self.awaiting = Request::Draw(
                    FrameUniforms::new(width, height, elapsed_millis, self.frame),
                );
            },
            (Request::Draw(_), Event::Presented) => {
                self.awaiting = Request::PollWindow;
            },
            (Request::PollWindow, Event::Input(inputs)) => {
                self.frame = self.frame + 1;
                if close_requested(&inputs) {
                    self.awaiting = Request::Exit;
                } else {
                    self.awaiting = Request::DrainWatcher;
                }
            },
            _ => {},
        }
        Transition { messages, request: self.awaiting }
    }

    /// Whether `step` can take `event`. It cannot where the event would
    /// complete a frame and the frame counter is at its largest value.
    pub fn can_step(&self, event: &Event<P>) -> (ok: bool)
        ensures
            ok == self@.accepts(*event),
    {
        match (self.awaiting, event) {
            (Request::PollWindow, Event::Input(_)) => self.frame < u64::MAX,
            _ => true,
        }
    }

    /// The program to draw with: the user's if its latest build succeeded,
    /// the default otherwise. There is one in every state.
    pub fn program(&self) -> (program: &P)
        ensures
            *program == self@.controller.program(),
    {
        self.controller.select()
    }

    /// The vertex shader source to hand to the compiler.
    pub fn vertex_source(&self) -> (source: &String)
        ensures
            *source == self@.assets.vertex,
    {
        &self.assets.vertex
    }

    /// The fragment source to hand to the compiler on a `Compile` request.
    pub fn fragment_source(&self) -> (source: &String)
        ensures
            source@ == self@.staged,
    {
        &self.staged
    }

    /// The request that is outstanding.
    pub fn awaiting(&self) -> (request: Request)
        ensures
            request == self@.awaiting,
    {
        self.awaiting
    }

    /// Number of frames completed so far.
    pub fn frame(&self) -> (frame: u64)
        ensures
            frame == self@.frame,
    {
        self.frame
    }

    /// Whether the loop is still running.
    pub fn is_running(&self) -> (running: bool)
        ensures
            running == self@.is_running(),
    {
        match self.awaiting {
            Request::Exit => false,
            _ => true,
        }
    }

    /// Whether the default program stands in for a broken user shader.
    pub fn is_degraded(&self) -> (degraded: bool)
        ensures
            degraded == self@.controller.is_degraded(),
    {
        self.controller.is_degraded()
    }
}

} // verus!
