//! What holds of the viewer in every state: laws about rebuilds, fallback,
//! coalescing and the frame counter, each proved from the definitions of the
//! controller and of the render loop.

use vstd::prelude::*;
use crate::controller::ControllerState;
use crate::frame::{any_close, FrameUniforms, WindowEvent};
use crate::outcome::{selected, CompileOutcome};
use crate::render::{Event, LoopModel, Request};
use crate::source::ShaderAssets;
use crate::watch::{any_change, ChangeEvent};

verus! {

/// A rebuild that succeeded is rendered: whatever the active slot held, once
/// the new program is installed it is the program to render, and the
/// controller is not degraded.
pub proof fn law_successful_build_is_rendered<P>(state: ControllerState<P>, program: P)
    ensures
        state.installed(CompileOutcome::Ready(program)).program() == program,
        !state.installed(CompileOutcome::Ready(program)).is_degraded(),
        state.installed(CompileOutcome::Ready(program)).default_program == state.default_program,
{
}

/// A rebuild that failed falls back to the default program: whatever the
/// active slot held, also a program that worked, once the failure is
/// installed the program to render is the default.
pub proof fn law_failed_build_falls_back<P>(state: ControllerState<P>, diagnostic: String)
    ensures
        state.installed(CompileOutcome::Failed(diagnostic)).program() == state.default_program,
        state.installed(CompileOutcome::Failed(diagnostic)).is_degraded(),
        state.installed(CompileOutcome::Failed(diagnostic)).default_program
            == state.default_program,
{
}

/// Rebuilding is idempotent: installing the same outcome a second time
/// changes nothing, neither the variant in the slot nor its diagnostic text.
pub proof fn law_rebuild_is_idempotent<P>(state: ControllerState<P>, outcome: CompileOutcome<P>)
    ensures
        state.installed(outcome).installed(outcome) == state.installed(outcome),
{
}

/// Nothing is kept of earlier builds: after two rebuilds the controller is in
/// the state that the second alone would have put it in.
pub proof fn law_latest_build_decides<P>(
    state: ControllerState<P>,
    earlier: CompileOutcome<P>,
    latest: CompileOutcome<P>,
)
    ensures
        state.installed(earlier).installed(latest) == state.installed(latest),
        state.installed(earlier).installed(latest).program() == match latest {
            CompileOutcome::Ready(program) => program,
            CompileOutcome::Failed(_) => state.default_program,
        },
{
}

/// The render loop draws with the program of a rebuild that succeeded: after
/// the compiler's answer the next request is to measure and then to draw,
/// and the program selected for that frame is the new one.
pub proof fn law_loop_draws_rebuilt_program<P>(
    state: LoopModel<P>,
    program: P,
    width: u32,
    height: u32,
    elapsed_millis: u128,
)
    requires
        state.awaiting == Request::Compile,
    ensures
        ({
            let built = state.next(Event::Compiled(Ok(program)));
            let measured = built.next(Event::Measured { width, height, elapsed_millis });
            &&& built.awaiting == Request::Measure
            &&& measured.awaiting == Request::Draw(
                FrameUniforms::of(width, height, elapsed_millis, state.frame),
            )
            &&& measured.controller.program() == program
            &&& state.messages(Event::Compiled(Ok(program))) == Seq::<Seq<char>>::empty()
        }),
{
}

/// A user shader that does not compile does not end the render loop: the
/// diagnostic text goes to the log, the loop goes on to measure and draw,
/// and the program selected for that frame is the default.
pub proof fn law_loop_survives_failed_build<P>(
    state: LoopModel<P>,
    diagnostic: String,
    width: u32,
    height: u32,
    elapsed_millis: u128,
)
    requires
        state.awaiting == Request::Compile,
    ensures
        ({
            let failed = state.next(Event::Compiled(Err(diagnostic)));
            let measured = failed.next(Event::Measured { width, height, elapsed_millis });
            &&& failed.is_running()
            &&& failed.awaiting == Request::Measure
            &&& measured.awaiting == Request::Draw(
                FrameUniforms::of(width, height, elapsed_millis, state.frame),
            )
            &&& measured.controller.program() == state.controller.default_program
            &&& state.messages(Event::Compiled(Err(diagnostic))) == seq![diagnostic@]
        }),
{
}

/// A shader file that cannot be read while it is being rebuilt counts as a
/// failed build: the reason goes to the log, the default program is drawn,
/// and the loop goes on.
pub proof fn law_loop_survives_unreadable_shader<P>(state: LoopModel<P>, reason: String)
    requires
        state.awaiting == Request::ReadShader,
    ensures
        ({
            let failed = state.next(Event::ShaderRead(Err(reason)));
            &&& failed.is_running()
            &&& failed.awaiting == Request::Measure
            &&& failed.controller.active == CompileOutcome::<P>::Failed(reason)
            &&& failed.controller.program() == state.controller.default_program
            &&& !failed.controller.reload_pending
            &&& state.messages(Event::ShaderRead(Err(reason))) == seq![reason@]
        }),
{
}

/// Rebuilding an unchanged file gives the same result: two rebuilds under
/// the same preamble and postamble, of files with the same text, hand the
/// compiler the same source; and where the compiler answers alike, the
/// active slot holds the same variant with the same diagnostic text, and the
/// same lines go to the log.
pub proof fn law_unchanged_file_rebuilds_alike<P>(
    one: LoopModel<P>,
    other: LoopModel<P>,
    text_one: String,
    text_other: String,
    answer: Result<P, String>,
)
    requires
        one.awaiting == Request::ReadShader,
        other.awaiting == Request::ReadShader,
        one.assets.preamble@ == other.assets.preamble@,
        one.assets.postamble@ == other.assets.postamble@,
        text_one@ == text_other@,
    ensures
        ({
            let staged_one = one.next(Event::ShaderRead(Ok(text_one)));
            let staged_other = other.next(Event::ShaderRead(Ok(text_other)));
            let built_one = staged_one.next(Event::Compiled(answer));
            let built_other = staged_other.next(Event::Compiled(answer));
            &&& staged_one.awaiting == Request::Compile
            &&& staged_other.awaiting == Request::Compile
            &&& staged_one.staged == staged_other.staged
            &&& built_one.controller.active == built_other.controller.active
            &&& built_one.controller.active == CompileOutcome::of(answer)
            &&& staged_one.messages(Event::Compiled(answer)) == staged_other.messages(
                Event::Compiled(answer),
            )
        }),
{
}

/// The loop starts settled and asks for the window to be shown; once it is
/// shown, the first frame begins with the drain of the watcher's queue.
pub proof fn law_loop_starts_settled<P>(
    assets: ShaderAssets,
    default_program: P,
    first: CompileOutcome<P>,
)
    ensures
        LoopModel::initial(assets, default_program, first).settled(),
        LoopModel::initial(assets, default_program, first).awaiting == Request::ShowWindow,
        LoopModel::initial(assets, default_program, first).next(Event::Shown).awaiting
            == Request::DrainWatcher,
        LoopModel::initial(assets, default_program, first).controller.program() == selected(
            first,
            default_program,
        ),
{
}

/// The window is shown once, when the loop starts: no event makes the loop
/// ask for it again.
pub proof fn law_window_is_shown_at_the_start_only<P>(state: LoopModel<P>, event: Event<P>)
    requires
        state.awaiting != Request::ShowWindow,
    ensures
        state.next(event).awaiting != Request::ShowWindow,
{
}

/// Every event leaves a settled loop settled.
pub proof fn law_loop_stays_settled<P>(state: LoopModel<P>, event: Event<P>)
    requires
        state.settled(),
    ensures
        state.next(event).settled(),
{
}

/// The default program is never replaced, and neither are the fixed shader
/// texts: no event changes them.
pub proof fn law_default_program_is_kept<P>(state: LoopModel<P>, event: Event<P>)
    ensures
        state.next(event).controller.default_program == state.controller.default_program,
        state.next(event).assets == state.assets,
{
}

/// The active slot changes by a rebuild only: an event that is neither the
/// compiler's answer nor a failed read of the shader file leaves the slot,
/// and with it the program to render, as it was.
pub proof fn law_slot_changes_by_rebuild_only<P>(state: LoopModel<P>, event: Event<P>)
    requires
        !(event is Compiled),
        !(event matches Event::ShaderRead(Err(_))),
    ensures
        state.next(event).controller.active == state.controller.active,
        state.next(event).controller.program() == state.controller.program(),
{
}

/// A change is always answered by a rebuild, whatever came before: in every
/// state in which the watcher is drained, also after any number of failed
/// builds, a creation or a write among the events makes the loop read the
/// shader file next. Without one the frame is measured next.
pub proof fn law_changes_are_always_retried<P>(state: LoopModel<P>, events: Vec<ChangeEvent>)
    requires
        state.awaiting == Request::DrainWatcher,
        state.settled(),
    ensures
        state.next(Event::Changes(events)).awaiting == if any_change(events@) {
            Request::ReadShader
        } else {
            Request::Measure
        },
{
}

/// What the program around the loop reports in the course of one frame.
pub struct FrameScript<P> {
    /// The events found in the watcher's queue.
    pub changes: Vec<ChangeEvent>,
    /// What reading the shader file gives, if the loop asks for it.
    pub shader: Result<String, String>,
    /// What the compiler answers, if the loop asks for it.
    pub compiled: Result<P, String>,
    /// Width of the framebuffer.
    pub width: u32,
    /// Height of the framebuffer.
    pub height: u32,
    /// Milliseconds since the process started.
    pub elapsed_millis: u128,
    /// The events of the window system.
    pub inputs: Vec<WindowEvent>,
}

/// One frame of the loop: the state it ends in and the requests made on the
/// way, in order.
pub struct FrameRun<P> {
    /// The state after the window was polled.
    pub end: LoopModel<P>,
    /// Every request made after the drain of the watcher's queue.
    pub requests: Seq<Request>,
}

/// The first part of a frame: the watcher's queue is drained and, if the loop
/// asks for it, the shader file is read and compiled.
pub open spec fn run_reload<P>(start: LoopModel<P>, script: FrameScript<P>) -> FrameRun<P> {
    let drained = start.next(Event::Changes(script.changes));
    let asked = Seq::<Request>::empty().push(drained.awaiting);
    if drained.awaiting != Request::ReadShader {
        FrameRun { end: drained, requests: asked }
    } else {
        let read = drained.next(Event::ShaderRead(script.shader));
        if read.awaiting != Request::Compile {
            FrameRun { end: read, requests: asked.push(read.awaiting) }
        } else {
            let built = read.next(Event::Compiled(script.compiled));
            FrameRun { end: built, requests: asked.push(read.awaiting).push(built.awaiting) }
        }
    }
}

/// A whole frame, from the drain of the watcher's queue to the poll of the
/// window, each request answered from the script.
pub open spec fn run_frame<P>(start: LoopModel<P>, script: FrameScript<P>) -> FrameRun<P> {
    let reloaded = run_reload(start, script);
    let measured = reloaded.end.next(
        Event::Measured {
            width: script.width,
            height: script.height,
            elapsed_millis: script.elapsed_millis,
        },
    );
    let presented = measured.next(Event::Presented);
    let polled = presented.next(Event::Input(script.inputs));
    FrameRun {
        end: polled,
        requests: reloaded.requests.push(measured.awaiting).push(presented.awaiting).push(
            polled.awaiting,
        ),
    }
}

/// How often `wanted` occurs among the requests.
pub open spec fn occurrences(requests: Seq<Request>, wanted: Request) -> nat
    decreases requests.len(),
{
    if requests.len() == 0 {
        0
    } else {
        occurrences(requests.drop_last(), wanted) + if requests.last() == wanted {
            1nat
        } else {
            0nat
        }
    }
}

/// The uniforms of the draw requests among the requests, in order.
pub open spec fn drawn(requests: Seq<Request>) -> Seq<FrameUniforms>
    decreases requests.len(),
{
    if requests.len() == 0 {
        Seq::empty()
    } else {
        match requests.last() {
            Request::Draw(uniforms) => drawn(requests.drop_last()).push(uniforms),
            _ => drawn(requests.drop_last()),
        }
    }
}

proof fn lemma_occurrences_push(requests: Seq<Request>, request: Request, wanted: Request)
    ensures
        occurrences(requests.push(request), wanted) == occurrences(requests, wanted) + if request
            == wanted {
            1nat
        } else {
            0nat
        },
{
    assert(requests.push(request).drop_last() =~= requests);
}

proof fn lemma_drawn_push(requests: Seq<Request>, request: Request)
    ensures
        drawn(requests.push(request)) == match request {
            Request::Draw(uniforms) => drawn(requests).push(uniforms),
            _ => drawn(requests),
        },
{
    assert(requests.push(request).drop_last() =~= requests);
}

/// Coalescing: however many creations and writes the watcher reports in one
/// frame, the shader file is read once and compiled at most once in that
/// frame; with no such event it is neither read nor compiled. It is compiled
/// exactly once where at least one such event came and the file could be
/// read. This holds whatever the active slot holds, so also after a build
/// that failed.
pub proof fn law_changes_coalesce<P>(start: LoopModel<P>, script: FrameScript<P>)
    requires
        start.awaiting == Request::DrainWatcher,
        start.settled(),
    ensures
        occurrences(run_frame(start, script).requests, Request::ReadShader) == if any_change(
            script.changes@,
        ) {
            1nat
        } else {
            0nat
        },
        occurrences(run_frame(start, script).requests, Request::Compile) == if any_change(
            script.changes@,
        ) && script.shader is Ok {
            1nat
        } else {
            0nat
        },
{
    let reloaded = run_reload(start, script);
    let drained = start.next(Event::Changes(script.changes));
    let none = Seq::<Request>::empty();
    let asked = none.push(drained.awaiting);
    lemma_occurrences_push(none, drained.awaiting, Request::ReadShader);
    lemma_occurrences_push(none, drained.awaiting, Request::Compile);
    if drained.awaiting == Request::ReadShader {
        let read = drained.next(Event::ShaderRead(script.shader));
        lemma_occurrences_push(asked, read.awaiting, Request::ReadShader);
        lemma_occurrences_push(asked, read.awaiting, Request::Compile);
        if read.awaiting == Request::Compile {
            let built = read.next(Event::Compiled(script.compiled));
            lemma_occurrences_push(asked.push(read.awaiting), built.awaiting, Request::ReadShader);
            lemma_occurrences_push(asked.push(read.awaiting), built.awaiting, Request::Compile);
        }
    }
    let measured = reloaded.end.next(
        Event::Measured {
            width: script.width,
            height: script.height,
            elapsed_millis: script.elapsed_millis,
        },
    );
    let presented = measured.next(Event::Presented);
    let polled = presented.next(Event::Input(script.inputs));
    let r1 = reloaded.requests.push(measured.awaiting);
    let r2 = r1.push(presented.awaiting);
    lemma_occurrences_push(reloaded.requests, measured.awaiting, Request::ReadShader);
    lemma_occurrences_push(reloaded.requests, measured.awaiting, Request::Compile);
    lemma_occurrences_push(r1, presented.awaiting, Request::ReadShader);
    lemma_occurrences_push(r1, presented.awaiting, Request::Compile);
    lemma_occurrences_push(r2, polled.awaiting, Request::ReadShader);
    lemma_occurrences_push(r2, polled.awaiting, Request::Compile);
}

/// Every frame is drawn once and counted once: a frame makes exactly one draw
/// request; its uniforms carry the framebuffer size and the clock reading
/// that were measured in that frame, a depth of one, and the number of
/// frames completed before it; and when the frame ends the counter is up by
/// exactly one. The frame ends settled, with the loop left if and only if a
/// close request came, and with the watcher to be drained otherwise, so the
/// same holds of the frame that follows.
pub proof fn law_frame_is_drawn_and_counted<P>(start: LoopModel<P>, script: FrameScript<P>)
    requires
        start.awaiting == Request::DrainWatcher,
        start.settled(),
        start.frame < u64::MAX,
    ensures
        drawn(run_frame(start, script).requests) == seq![
            FrameUniforms {
                resolution: (script.width, script.height, 1u32),
                time_millis: script.elapsed_millis,
                frame: start.frame,
            },
        ],
        run_frame(start, script).end.frame == start.frame + 1,
        run_frame(start, script).end.awaiting == if any_close(script.inputs@) {
            Request::Exit
        } else {
            Request::DrainWatcher
        },
        run_frame(start, script).end.settled(),
        run_frame(start, script).end.controller.default_program
            == start.controller.default_program,
{
    let reloaded = run_reload(start, script);
    let drained = start.next(Event::Changes(script.changes));
    let none = Seq::<Request>::empty();
    let asked = none.push(drained.awaiting);
    assert(drawn(none) =~= Seq::<FrameUniforms>::empty());
    lemma_drawn_push(none, drained.awaiting);
    if drained.awaiting == Request::ReadShader {
        let read = drained.next(Event::ShaderRead(script.shader));
        lemma_drawn_push(asked, read.awaiting);
        if read.awaiting == Request::Compile {
            let built = read.next(Event::Compiled(script.compiled));
            lemma_drawn_push(asked.push(read.awaiting), built.awaiting);
        }
    }
    assert(drawn(reloaded.requests) =~= Seq::<FrameUniforms>::empty());
    let measured = reloaded.end.next(
        Event::Measured {
            width: script.width,
            height: script.height,
            elapsed_millis: script.elapsed_millis,
        },
    );
    let presented = measured.next(Event::Presented);
    let polled = presented.next(Event::Input(script.inputs));
    let r1 = reloaded.requests.push(measured.awaiting);
    let r2 = r1.push(presented.awaiting);
    lemma_drawn_push(reloaded.requests, measured.awaiting);
    lemma_drawn_push(r1, presented.awaiting);
    lemma_drawn_push(r2, polled.awaiting);
    assert(drawn(run_frame(start, script).requests) =~= seq![
        FrameUniforms {
            resolution: (script.width, script.height, 1u32),
            time_millis: script.elapsed_millis,
            frame: start.frame,
        },
    ]);
}

/// From one frame to the next the frame index goes up by exactly one, and
/// the time follows the clock: where the clock reading of the second frame
/// is later than that of the first, so is the time it is drawn with.
pub proof fn law_uniforms_of_consecutive_frames<P>(
    start: LoopModel<P>,
    first: FrameScript<P>,
    second: FrameScript<P>,
)
    requires
        start.awaiting == Request::DrainWatcher,
        start.settled(),
        start.frame + 1 < u64::MAX,
        !any_close(first.inputs@),
    ensures
        ({
            let between = run_frame(start, first).end;
            let one = drawn(run_frame(start, first).requests);
            let two = drawn(run_frame(between, second).requests);
            &&& one.len() == 1
            &&& two.len() == 1
            &&& two[0].frame == one[0].frame + 1
            &&& one[0].resolution == (first.width, first.height, 1u32)
            &&& two[0].resolution == (second.width, second.height, 1u32)
            &&& first.elapsed_millis < second.elapsed_millis ==> one[0].time_millis
                < two[0].time_millis
        }),
{
    law_frame_is_drawn_and_counted(start, first);
    let between = run_frame(start, first).end;
    law_frame_is_drawn_and_counted(between, second);
}

} // verus!
