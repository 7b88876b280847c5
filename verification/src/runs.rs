//! What holds of every run, whatever comes of the work that it asks for.

use crate::commands;
use crate::config;
use crate::paths;
use crate::session;
use crate::session::{SessionView, Stage};
use crate::steps::{Action, Event, Failure, Notice};
use crate::text;
use crate::tools;
use vstd::prelude::*;

verus! {

/// A run after one more event. The same as [`SessionView::next`], kept folded in the proofs about
/// sequences of events.
#[verifier::opaque]
pub open spec fn step(state: SessionView, event: Event) -> SessionView {
    state.next(event)
}

/// A run after a sequence of events.
pub open spec fn after(windows: bool, events: Seq<Event>) -> SessionView
    decreases events.len(),
{
    if events.len() == 0 {
        session::start(windows)
    } else {
        step(after(windows, events.drop_last()), events.last())
    }
}

/// A run begins with nothing known, and each event takes it on as [`SessionView::next`] says: it
/// is what a new session becomes when it takes in the events one after another.
pub proof fn law_events_follow_one_another(windows: bool, events: Seq<Event>, event: Event)
    ensures
        after(windows, seq![]) == session::start(windows),
        after(windows, events.push(event)) == after(windows, events).next(event),
{
    reveal(step);
    assert(events.push(event).drop_last() =~= events);
}

/// The work that an event of a run answers.
pub open spec fn asked(windows: bool, events: Seq<Event>, i: int) -> Action<
    Seq<char>,
    Seq<Seq<char>>,
> {
    after(windows, events.take(i)).action()
}

/// At an event, nothing was found under a path.
pub open spec fn found_absent(
    windows: bool,
    events: Seq<Event>,
    i: int,
    path: Seq<char>,
) -> bool {
    &&& 0 <= i < events.len()
    &&& asked(windows, events, i) == Action::<Seq<char>, Seq<Seq<char>>>::CheckExists(path)
    &&& events[i] == Event::Answer(false)
}

/// At an event, something was found under a path.
pub open spec fn found_there(
    windows: bool,
    events: Seq<Event>,
    i: int,
    path: Seq<char>,
) -> bool {
    &&& 0 <= i < events.len()
    &&& asked(windows, events, i) == Action::<Seq<char>, Seq<Seq<char>>>::CheckExists(path)
    &&& events[i] == Event::Answer(true)
}

/// At an event, a directory was made.
pub open spec fn created(windows: bool, events: Seq<Event>, i: int, path: Seq<char>) -> bool {
    &&& 0 <= i < events.len()
    &&& asked(windows, events, i) == Action::<Seq<char>, Seq<Seq<char>>>::CreateDir(path)
    &&& events[i] is Done
}

/// A run made a directory that was not there before.
pub open spec fn made_new(windows: bool, events: Seq<Event>, path: Seq<char>) -> bool {
    exists|i: int, j: int|
        #![trigger found_absent(windows, events, i, path), created(windows, events, j, path)]
        i < j && found_absent(windows, events, i, path) && created(windows, events, j, path)
}

impl Stage {
    /// The place of a stage in the order of a run.
    pub open spec fn rank(self) -> int {
        match self {
            Stage::Locate => 0,
            Stage::Enter => 1,
            Stage::CheckConfig => 2,
            Stage::WriteConfig => 3,
            Stage::ShowConfig => 4,
            Stage::LoadConfig => 5,
            Stage::ListSearchDirs => 6,
            Stage::FindFfmpeg => 7,
            Stage::FindFfprobe => 8,
            Stage::FindUpscaler => 9,
            Stage::Welcome => 10,
            Stage::QueryVersion => 11,
            Stage::ShowVersion => 12,
            Stage::CheckUpscaler => 13,
            Stage::ShowUpscaler => 14,
            Stage::Divide => 15,
            Stage::AskVideo => 16,
            Stage::CheckVideo => 17,
            Stage::AskOutput => 18,
            Stage::ShowOutput => 19,
            Stage::CreateOutput => 20,
            Stage::Prepare => 21,
            Stage::CheckInput => 22,
            Stage::CreateInput => 23,
            Stage::CheckOutput => 24,
            Stage::CreateOutputFrames => 25,
            Stage::ShowExport => 26,
            Stage::Export => 27,
            Stage::CountFrames => 28,
            Stage::ShowFrames => 29,
            Stage::ShowUpscale => 30,
            Stage::OpenProgress => 31,
            Stage::Launch => 32,
            Stage::CountDone => 33,
            Stage::MoveProgress => 34,
            Stage::Poll => 35,
            Stage::Wait => 36,
            Stage::CountLast => 37,
            Stage::MoveLast => 38,
            Stage::CloseProgress => 39,
            Stage::AbandonProgress => 40,
            Stage::Upscaled => 41,
            Stage::ShowProbe => 42,
            Stage::Probe => 43,
            Stage::ShowRate => 44,
            Stage::ShowCompose => 45,
            Stage::Compose => 46,
            Stage::ShowComplete => 47,
            Stage::CheckInputLeft => 48,
            Stage::RemoveInput => 49,
            Stage::CheckOutputLeft => 50,
            Stage::RemoveOutput => 51,
            Stage::ShowCleaned => 52,
            Stage::AskExit => 53,
            Stage::Finished => 54,
            Stage::Failed => 55,
        }
    }
}

/// Whether an event lets a run pass a stage that no run gets round.
spec fn opens(stage: Stage, event: Event) -> bool {
    match stage {
        Stage::Locate => event is Located,
        Stage::LoadConfig => event is Loaded,
        Stage::ListSearchDirs => event is SearchDirs,
        Stage::FindFfmpeg | Stage::FindFfprobe | Stage::FindUpscaler | Stage::CheckUpscaler => {
            event is Probed
        },
        Stage::QueryVersion => event is Printed || event is Failed,
        Stage::AskVideo | Stage::AskOutput => event is Line,
        Stage::CheckVideo => event == Event::Answer(true),
        Stage::CreateOutput => event is Done,
        Stage::CheckInput | Stage::CheckOutput => event == Event::Answer(false),
        Stage::CreateInput | Stage::CreateOutputFrames => event is Done,
        Stage::Launch => event is Done,
        Stage::Probe => event matches Event::Printed { success, .. } && success,
        Stage::Export | Stage::Compose => event matches Event::Exited { success, .. } && success,
        _ => false,
    }
}

/// Whether a stage is one that no run gets round.
spec fn is_gate(stage: Stage) -> bool {
    match stage {
        Stage::Locate
        | Stage::LoadConfig
        | Stage::ListSearchDirs
        | Stage::FindFfmpeg
        | Stage::FindFfprobe
        | Stage::FindUpscaler
        | Stage::QueryVersion
        | Stage::CheckUpscaler
        | Stage::AskVideo
        | Stage::CheckVideo
        | Stage::AskOutput
        | Stage::CreateOutput
        | Stage::CheckInput
        | Stage::CreateInput
        | Stage::CheckOutput
        | Stage::CreateOutputFrames
        | Stage::Export
        | Stage::Launch
        | Stage::Probe
        | Stage::Compose => true,
        _ => false,
    }
}

/// Whether an event leaves a run as it is or takes it to a later stage.
spec fn goes_forward(state: SessionView, after: SessionView) -> bool {
    after == state || after.stage.rank() > state.stage.rank()
}

proof fn lemma_setup_forward(state: SessionView, event: Event)
    ensures
        goes_forward(state, state.next_setup(event)),
{
}

proof fn lemma_input_forward(state: SessionView, event: Event)
    ensures
        goes_forward(state, state.next_input(event)),
{
}

proof fn lemma_frames_forward(state: SessionView, event: Event)
    ensures
        state.stage != Stage::Wait ==> goes_forward(state, state.next_frames(event)),
{
}

proof fn lemma_compose_forward(state: SessionView, event: Event)
    ensures
        goes_forward(state, state.next_compose(event)),
{
}

/// A run only goes forward: each event leaves it where it is or takes it to a later stage. The
/// one step back is from a wait to the next look at the enlarged frames.
pub proof fn law_runs_go_forward(state: SessionView, event: Event)
    ensures
        state.stage != Stage::Wait ==> state.next(event) == state || state.next(event).stage.rank()
            > state.stage.rank(),
        state.stage == Stage::Wait ==> state.next(event) == state || state.next(event) == state.at(
            Stage::CountDone,
        ),
{
    lemma_setup_forward(state, event);
    lemma_input_forward(state, event);
    lemma_frames_forward(state, event);
    lemma_compose_forward(state, event);
}

/// The same for a folded step: the rank grows, but for the step back after a wait.
proof fn lemma_forward(state: SessionView, event: Event)
    ensures
        step(state, event) == state || step(state, event).stage.rank() > state.stage.rank() || (
        state.stage == Stage::Wait && step(state, event).stage == Stage::CountDone),
{
    reveal(step);
    law_runs_go_forward(state, event);
}

/// A gate is passed only by the event that opens it.
#[verifier::rlimit(60)]
proof fn lemma_gate(state: SessionView, event: Event, gate: Stage)
    requires
        is_gate(gate),
        state.stage.rank() <= gate.rank() < step(state, event).stage.rank(),
        step(state, event).stage != Stage::Failed,
    ensures
        state.stage == gate,
        opens(gate, event),
{
    reveal(step);
}

/// A run beyond a gate has passed it.
proof fn lemma_passed(windows: bool, events: Seq<Event>, gate: Stage) -> (i: int)
    requires
        is_gate(gate),
        after(windows, events).stage.rank() > gate.rank(),
        after(windows, events).stage != Stage::Failed,
    ensures
        0 <= i < events.len(),
        after(windows, events.take(i)).stage == gate,
        opens(gate, events[i]),
        step(after(windows, events.take(i)), events[i]).stage.rank() > gate.rank(),
        step(after(windows, events.take(i)), events[i]).stage != Stage::Failed,
    decreases events.len(),
{
    if events.len() == 0 {
        0
    } else {
        let before = events.drop_last();
        let state = after(windows, before);
        if state.stage.rank() > gate.rank() && state.stage != Stage::Failed {
            let i = lemma_passed(windows, before, gate);
            assert(before.take(i) =~= events.take(i));
            i
        } else {
            let last = events.len() - 1;
            assert(events.take(last) =~= before);
            lemma_forward(state, events.last());
            if state.stage != Stage::Failed {
                lemma_gate(state, events.last(), gate);
            }
            last
        }
    }
}

/// What was settled at a stage is not changed at another.
#[verifier::rlimit(60)]
proof fn lemma_kept_step(state: SessionView, event: Event)
    ensures
        state.stage != Stage::Locate ==> step(state, event).exe_dir == state.exe_dir,
        state.stage != Stage::LoadConfig ==> step(state, event).config == state.config,
        step(state, event).windows == state.windows,
        state.stage != Stage::ListSearchDirs ==> step(state, event).search_dirs
            == state.search_dirs,
        state.stage != Stage::FindFfmpeg ==> step(state, event).ffmpeg == state.ffmpeg,
        state.stage != Stage::FindFfprobe ==> step(state, event).ffprobe == state.ffprobe,
        state.stage != Stage::FindUpscaler ==> step(state, event).upscaler == state.upscaler,
        state.stage != Stage::QueryVersion ==> step(state, event).version == state.version,
        state.stage != Stage::CheckUpscaler ==> step(state, event).upscaler_found
            == state.upscaler_found,
        state.stage != Stage::AskVideo ==> step(state, event).video == state.video,
        state.stage != Stage::AskOutput ==> step(state, event).output_dir == state.output_dir,
        state.stage != Stage::CreateOutput ==> step(state, event).stem == state.stem,
        state.stage != Stage::Probe ==> step(state, event).rate == state.rate,
{
    reveal(step);
}

/// Whether two states of a run agree on what was settled before the first of them.
spec fn agree(early: SessionView, late: SessionView) -> bool {
    let rank = early.stage.rank();
    &&& late.windows == early.windows
    &&& rank > Stage::Locate.rank() ==> late.exe_dir == early.exe_dir && late.stage.rank()
        > Stage::Locate.rank()
    &&& rank > Stage::CheckConfig.rank() ==> late.stage.rank() > Stage::CheckConfig.rank()
    &&& rank > Stage::WriteConfig.rank() ==> late.stage.rank() > Stage::WriteConfig.rank()
    &&& rank > Stage::LoadConfig.rank() ==> late.config == early.config && late.stage.rank()
        > Stage::LoadConfig.rank()
    &&& rank > Stage::ListSearchDirs.rank() ==> late.search_dirs == early.search_dirs
        && late.stage.rank() > Stage::ListSearchDirs.rank()
    &&& rank > Stage::FindFfmpeg.rank() ==> late.ffmpeg == early.ffmpeg && late.stage.rank()
        > Stage::FindFfmpeg.rank()
    &&& rank > Stage::FindFfprobe.rank() ==> late.ffprobe == early.ffprobe && late.stage.rank()
        > Stage::FindFfprobe.rank()
    &&& rank > Stage::FindUpscaler.rank() ==> late.upscaler == early.upscaler
        && late.stage.rank() > Stage::FindUpscaler.rank()
    &&& rank > Stage::QueryVersion.rank() ==> late.version == early.version && late.stage.rank()
        > Stage::QueryVersion.rank()
    &&& rank > Stage::CheckUpscaler.rank() ==> late.upscaler_found == early.upscaler_found
        && late.stage.rank() > Stage::CheckUpscaler.rank()
    &&& rank > Stage::AskVideo.rank() ==> late.video == early.video && late.stage.rank()
        > Stage::AskVideo.rank()
    &&& rank > Stage::AskOutput.rank() ==> late.output_dir == early.output_dir
        && late.stage.rank() > Stage::AskOutput.rank()
    &&& rank > Stage::CreateOutput.rank() ==> late.stem == early.stem && late.stage.rank()
        > Stage::CreateOutput.rank()
    &&& rank > Stage::Probe.rank() ==> late.rate == early.rate && late.stage.rank()
        > Stage::Probe.rank()
}

/// What was settled in a run stays settled.
proof fn lemma_kept(windows: bool, events: Seq<Event>, i: int)
    requires
        0 <= i <= events.len(),
    ensures
        agree(after(windows, events.take(i)), after(windows, events)),
    decreases events.len(),
{
    if i == events.len() {
        assert(events.take(i) =~= events);
    } else {
        let before = events.drop_last();
        assert(before.take(i) =~= events.take(i));
        lemma_kept(windows, before, i);
        let state = after(windows, before);
        lemma_kept_step(state, events.last());
        lemma_forward(state, events.last());
    }
}

/// A run that is past the two gates of a directory for frames has made that directory.
proof fn lemma_made_new(windows: bool, events: Seq<Event>, path: Seq<char>)
    requires
        after(windows, events).stage != Stage::Failed,
        ({
            let state = after(windows, events);
            ||| state.stage.rank() > Stage::CreateInput.rank() && path == state.input()
            ||| state.stage.rank() > Stage::CreateOutputFrames.rank() && path == state.output()
        }),
    ensures
        made_new(windows, events, path),
{
    let state = after(windows, events);
    let (check, create) = if state.stage.rank() > Stage::CreateInput.rank() && path
        == state.input() {
        (Stage::CheckInput, Stage::CreateInput)
    } else {
        (Stage::CheckOutput, Stage::CreateOutputFrames)
    };
    let j = lemma_passed(windows, events, create);
    lemma_kept(windows, events, j);
    let prefix = events.take(j);
    let i = lemma_passed(windows, prefix, check);
    assert(prefix.take(i) =~= events.take(i));
    lemma_kept(windows, events, i);
    assert(found_absent(windows, events, i, path));
    assert(created(windows, events, j, path));
}

/// A run removes no directory but one that was not there when it looked, and that it then made
/// itself.
pub proof fn law_only_own_directories_are_removed(
    windows: bool,
    events: Seq<Event>,
    path: Seq<char>,
)
    requires
        after(windows, events).action() == Action::<Seq<char>, Seq<Seq<char>>>::RemoveDir(path),
    ensures
        made_new(windows, events, path),
{
    lemma_made_new(windows, events, path);
}

/// The outside programs that work on frames are run only once both directories for frames are
/// new and made, and the video was found.
pub proof fn law_work_starts_on_new_directories(windows: bool, events: Seq<Event>)
    requires
        ({
            let action = after(windows, events).action();
            action is Run || action is Spawn || action is Capture
        }),
    ensures
        made_new(windows, events, after(windows, events).input()),
        made_new(windows, events, after(windows, events).output()),
        exists|i: int| found_there(windows, events, i, after(windows, events).video),
{
    let state = after(windows, events);
    lemma_made_new(windows, events, state.input());
    lemma_made_new(windows, events, state.output());
    let i = lemma_passed(windows, events, Stage::CheckVideo);
    lemma_kept(windows, events, i);
    assert(found_there(windows, events, i, state.video));
}

/// At an event, ffmpeg had put the video together.
pub open spec fn composed(
    windows: bool,
    events: Seq<Event>,
    i: int,
    state: SessionView,
) -> bool {
    &&& 0 <= i < events.len()
    &&& asked(windows, events, i) == Action::Run(
        state.command(
            state.ffmpeg,
            commands::compose_arguments(state.rate, state.output(), state.video, state.file()),
        ),
    )
    &&& events[i] matches Event::Exited { success, .. } && success
}

/// Nothing is removed, and no run succeeds, before ffmpeg has put the video together.
pub proof fn law_success_means_a_composed_video(windows: bool, events: Seq<Event>)
    requires
        ({
            let action = after(windows, events).action();
            action is RemoveDir || action is Finish
        }),
    ensures
        exists|i: int| composed(windows, events, i, after(windows, events)),
{
    let state = after(windows, events);
    let i = lemma_passed(windows, events, Stage::Compose);
    lemma_kept(windows, events, i);
    assert(composed(windows, events, i, state));
}

proof fn lemma_removal_step(state: SessionView, event: Event)
    requires
        Stage::Compose.rank() < state.stage.rank() < Stage::Failed.rank(),
    ensures
        Stage::Compose.rank() < step(state, event).stage.rank() < Stage::Failed.rank(),
{
    reveal(step);
}

/// Once the video is put together, a run cannot fail any more: neither cleaning up nor the last
/// question makes it fail.
pub proof fn law_composed_runs_do_not_fail(windows: bool, events: Seq<Event>, i: int)
    requires
        0 <= i <= events.len(),
        Stage::Compose.rank() < after(windows, events.take(i)).stage.rank()
            < Stage::Failed.rank(),
    ensures
        Stage::Compose.rank() < after(windows, events).stage.rank() < Stage::Failed.rank(),
    decreases events.len(),
{
    if i == events.len() {
        assert(events.take(i) =~= events);
    } else {
        let before = events.drop_last();
        assert(before.take(i) =~= events.take(i));
        law_composed_runs_do_not_fail(windows, before, i);
        lemma_removal_step(after(windows, before), events.last());
    }
}

/// A run that fails has removed nothing: its frames are left to be looked at.
pub proof fn law_failed_runs_remove_nothing(windows: bool, events: Seq<Event>, i: int)
    requires
        0 <= i <= events.len(),
        after(windows, events).action() is Fail,
    ensures
        asked(windows, events, i) !is RemoveDir,
{
    if asked(windows, events, i) is RemoveDir {
        law_composed_runs_do_not_fail(windows, events, i);
    }
}

/// Once a run has succeeded or failed, no event changes it.
pub proof fn law_over_is_over(state: SessionView, event: Event)
    requires
        state.action() is Finish || state.action() is Fail,
    ensures
        state.next(event) == state,
{
}

/// What a state tells of the decisions behind it.
spec fn is_sound(state: SessionView) -> bool {
    &&& Stage::ShowUpscaler.rank() < state.stage.rank() < Stage::Failed.rank()
        ==> state.version is Some && state.upscaler_found
    &&& Stage::ShowFrames.rank() < state.stage.rank() < Stage::Failed.rank()
        ==> config::models().contains(state.config.realesrgan_model) && config::is_scale(
        state.config.realesrgan_scale,
    )
    &&& Stage::Upscaled.rank() <= state.stage.rank() < Stage::Failed.rank() ==> state.upscaled
    &&& Stage::Probe.rank() < state.stage.rank() < Stage::Failed.rank() ==> state.rate.len() > 0
}

#[verifier::rlimit(60)]
proof fn lemma_sound_step(state: SessionView, event: Event)
    requires
        is_sound(state),
    ensures
        is_sound(step(state, event)),
{
    reveal(step);
}

proof fn lemma_sound(windows: bool, events: Seq<Event>)
    ensures
        is_sound(after(windows, events)),
    decreases events.len(),
{
    if events.len() > 0 {
        lemma_sound(windows, events.drop_last());
        lemma_sound_step(after(windows, events.drop_last()), events.last());
    }
}

/// Where ffmpeg or Real-ESRGAN is missing, the run stops: no question is asked, no directory
/// made or removed, and no program run, unless ffmpeg has printed its version and Real-ESRGAN was
/// seen.
pub proof fn law_missing_tools_stop_the_run(windows: bool, events: Seq<Event>)
    requires
        ({
            let action = after(windows, events).action();
            action is Ask || action is CreateDir || action is RemoveDir || action is Run
                || action is Spawn || action is Capture || action is Finish
        }),
    ensures
        after(windows, events).version is Some,
        after(windows, events).upscaler_found,
        exists|i: int| version_printed(windows, events, i, after(windows, events)),
        exists|i: int| upscaler_seen(windows, events, i, after(windows, events)),
{
    let state = after(windows, events);
    lemma_sound(windows, events);
    let i = lemma_passed_through(windows, events, Stage::QueryVersion);
    lemma_settled(after(windows, events.take(i)), events[i]);
    assert(version_printed(windows, events, i, state));
    let i = lemma_passed_through(windows, events, Stage::CheckUpscaler);
    lemma_settled(after(windows, events.take(i)), events[i]);
    assert(upscaler_seen(windows, events, i, state));
}

/// Frames are enlarged only with a model and by a factor that are supported, and a run with others
/// does not come to what follows: neither the probing of the frame rate, nor the composing, nor a
/// removal, nor success.
pub proof fn law_only_supported_settings_are_used(windows: bool, events: Seq<Event>)
    requires
        ({
            let state = after(windows, events);
            ||| state.action() is Spawn
            ||| state.action() is Capture
            ||| state.stage == Stage::Compose
            ||| state.action() is RemoveDir
            ||| state.action() is Finish
        }),
    ensures
        config::models().contains(after(windows, events).config.realesrgan_model),
        config::is_scale(after(windows, events).config.realesrgan_scale),
{
    lemma_sound(windows, events);
}

/// At an event, Real-ESRGAN had ended well.
pub open spec fn enlarged(windows: bool, events: Seq<Event>, i: int) -> bool {
    &&& 0 <= i < events.len()
    &&& asked(windows, events, i) is Poll
    &&& events[i] matches Event::Exited { success, .. } && success
}

proof fn lemma_enlarged_step(state: SessionView, event: Event)
    requires
        step(state, event).upscaled,
    ensures
        state.upscaled || (state.stage == Stage::Poll && (event matches Event::Exited {
            success,
            ..
        } && success)),
{
    reveal(step);
}

proof fn lemma_enlarged(windows: bool, events: Seq<Event>) -> (i: int)
    requires
        after(windows, events).upscaled,
    ensures
        enlarged(windows, events, i),
    decreases events.len(),
{
    if events.len() == 0 {
        0
    } else {
        let before = events.drop_last();
        if after(windows, before).upscaled {
            let i = lemma_enlarged(windows, before);
            assert(before.take(i) =~= events.take(i));
            i
        } else {
            let last = events.len() - 1;
            assert(events.take(last) =~= before);
            lemma_enlarged_step(after(windows, before), events.last());
            last
        }
    }
}

/// The frame rate is probed, the video put together, a directory removed, and a run succeeds,
/// only after Real-ESRGAN has ended well. From the composing on, the frame rate is known.
pub proof fn law_success_means_enlarged_frames(windows: bool, events: Seq<Event>)
    requires
        ({
            let state = after(windows, events);
            ||| state.action() is Capture
            ||| state.stage == Stage::Compose
            ||| state.action() is RemoveDir
            ||| state.action() is Finish
        }),
    ensures
        exists|i: int| enlarged(windows, events, i),
        after(windows, events).action() !is Capture ==> after(windows, events).rate.len() > 0,
{
    lemma_sound(windows, events);
    let i = lemma_enlarged(windows, events);
    assert(enlarged(windows, events, i));
}

/// At an event, the default configuration was written to a file.
pub open spec fn written(windows: bool, events: Seq<Event>, i: int, path: Seq<char>) -> bool {
    &&& 0 <= i < events.len()
    &&& asked(windows, events, i) == Action::<Seq<char>, Seq<Seq<char>>>::WriteFile {
        path,
        content: config::commented_yaml(config::default_config()),
    }
    &&& events[i] is Done
}

proof fn lemma_config_step(state: SessionView, event: Event)
    ensures
        step(state, event).stage == Stage::ShowConfig ==> state.stage == Stage::ShowConfig || (
        state.stage == Stage::WriteConfig && event is Done),
        step(state, event).stage == Stage::LoadConfig ==> {
            ||| state.stage == Stage::LoadConfig
            ||| state.stage == Stage::ShowConfig
            ||| state.stage == Stage::CheckConfig && event == Event::Answer(true)
        },
{
    reveal(step);
}

proof fn lemma_config_there(windows: bool, events: Seq<Event>) -> (i: int)
    requires
        ({
            let stage = after(windows, events).stage;
            stage == Stage::ShowConfig || stage == Stage::LoadConfig
        }),
    ensures
        ({
            let path = config::config_file(after(windows, events).exe_dir);
            ||| written(windows, events, i, path)
            ||| found_there(windows, events, i, path) && after(windows, events).stage
                == Stage::LoadConfig
        }),
    decreases events.len(),
{
    if events.len() == 0 {
        0
    } else {
        let before = events.drop_last();
        let state = after(windows, before);
        let last = events.len() - 1;
        assert(events.take(last) =~= before);
        lemma_config_step(state, events.last());
        lemma_kept_step(state, events.last());
        if state.stage == Stage::ShowConfig || state.stage == Stage::LoadConfig {
            let i = lemma_config_there(windows, before);
            assert(before.take(i) =~= events.take(i));
            i
        } else {
            last
        }
    }
}

/// The configuration file is read only where it was found, or where the run has just written it
/// with the default configuration.
pub proof fn law_configuration_is_there_when_it_is_read(
    windows: bool,
    events: Seq<Event>,
    path: Seq<char>,
)
    requires
        after(windows, events).action() == Action::<Seq<char>, Seq<Seq<char>>>::LoadConfig(path),
    ensures
        exists|i: int|
            #![trigger found_there(windows, events, i, path)]
            #![trigger written(windows, events, i, path)]
            found_there(windows, events, i, path) || written(windows, events, i, path),
{
    let i = lemma_config_there(windows, events);
    assert(found_there(windows, events, i, path) || written(windows, events, i, path));
}

/// Whether work came out in a way that a run can go on from.
pub open spec fn came_out_well(state: SessionView, event: Event) -> bool {
    match state.stage {
        Stage::Locate => event matches Event::Located(path) && paths::parent_path(path@) is Some,
        Stage::CheckConfig | Stage::CheckInputLeft | Stage::CheckOutputLeft => event is Answer,
        Stage::LoadConfig => event is Loaded,
        Stage::ListSearchDirs => event is SearchDirs,
        Stage::FindFfmpeg | Stage::FindFfprobe | Stage::FindUpscaler | Stage::CheckUpscaler => {
            event is Probed
        },
        Stage::QueryVersion => event is Printed || event is Failed,
        Stage::ShowUpscaler => event is Done && state.version is Some && state.upscaler_found,
        Stage::AskVideo => event matches Event::Line(line) && text::answered(line@).len() > 0,
        Stage::AskOutput => event is Line,
        Stage::CheckVideo => event == Event::Answer(true),
        Stage::CreateOutput => event is Done && paths::path_stem(state.video) is Some,
        Stage::CheckInput | Stage::CheckOutput => event == Event::Answer(false),
        Stage::Export | Stage::Compose => event matches Event::Exited { success, .. } && success,
        Stage::CountFrames | Stage::CountDone | Stage::CountLast => event is Listed,
        Stage::ShowFrames => {
            &&& event is Done
            &&& config::models().contains(state.config.realesrgan_model)
            &&& config::is_scale(state.config.realesrgan_scale)
        },
        Stage::Poll => event is Running || event is Exited,
        Stage::CloseProgress => event is Done && state.upscaled,
        Stage::Probe => {
            event matches Event::Printed { success, stdout } && success && tools::printed_rate(
                stdout@,
            ).len() > 0
        },
        Stage::RemoveInput | Stage::RemoveOutput => event is Done || event is Failed,
        Stage::AskExit => event is Line || event is Failed,
        Stage::AbandonProgress | Stage::Finished | Stage::Failed => false,
        _ => event is Done,
    }
}

/// Work that came out well takes a run on, to another stage and not to a failure.
#[verifier::rlimit(60)]
pub proof fn law_good_outcomes_lead_on(state: SessionView, event: Event)
    requires
        came_out_well(state, event),
    ensures
        state.next(event).stage != state.stage,
        state.next(event).stage != Stage::Failed,
        state.next(event).stage != Stage::AbandonProgress,
{
}

/// How often Real-ESRGAN was found to be still running.
pub open spec fn still_running(events: Seq<Event>) -> nat
    decreases events.len(),
{
    if events.len() == 0 {
        0
    } else if events.last() is Running {
        still_running(events.drop_last()) + 1
    } else {
        still_running(events.drop_last())
    }
}

proof fn lemma_good_step(state: SessionView, event: Event)
    requires
        came_out_well(state, event),
    ensures
        step(state, event).stage != Stage::Failed,
        step(state, event).stage != Stage::AbandonProgress,
        state.stage == Stage::Wait ==> step(state, event).stage == Stage::CountDone,
        state.stage != Stage::Wait ==> step(state, event).stage.rank() > state.stage.rank(),
        step(state, event).stage == Stage::Wait ==> event is Running,
{
    reveal(step);
    law_good_outcomes_lead_on(state, event);
    law_runs_go_forward(state, event);
}

/// A run in which all work comes out well does not fail. It goes on to its end: it has no more
/// work than its stages and the turns of waiting for Real-ESRGAN.
pub proof fn law_good_runs_do_not_fail(windows: bool, events: Seq<Event>)
    requires
        forall|i: int|
            0 <= i < events.len() ==> came_out_well(
                after(windows, #[trigger] events.take(i)),
                events[i],
            ),
    ensures
        after(windows, events).action() !is Fail,
        after(windows, events).stage != Stage::AbandonProgress,
        events.len() <= Stage::Finished.rank() + 4 * still_running(events),
{
    lemma_good_run(windows, events);
}

proof fn lemma_good_run(windows: bool, events: Seq<Event>)
    requires
        forall|i: int|
            0 <= i < events.len() ==> came_out_well(
                after(windows, #[trigger] events.take(i)),
                events[i],
            ),
    ensures
        after(windows, events).stage != Stage::Failed,
        after(windows, events).stage != Stage::AbandonProgress,
        after(windows, events).stage.rank() + 4 * still_running(events) - events.len() >= if after(
            windows,
            events,
        ).stage == Stage::Wait {
            4int
        } else {
            0
        },
    decreases events.len(),
{
    if events.len() > 0 {
        let before = events.drop_last();
        let last = events.len() - 1;
        assert(events.take(last) =~= before);
        assert forall|i: int| 0 <= i < before.len() implies came_out_well(
            after(windows, #[trigger] before.take(i)),
            before[i],
        ) by {
            assert(before.take(i) =~= events.take(i));
        }
        lemma_good_run(windows, before);
        lemma_good_step(after(windows, before), events.last());
    }
}

/// At an event, ffmpeg had taken the video apart.
pub open spec fn exported(
    windows: bool,
    events: Seq<Event>,
    i: int,
    state: SessionView,
) -> bool {
    &&& 0 <= i < events.len()
    &&& asked(windows, events, i) == Action::Run(
        state.command(state.ffmpeg, commands::export_arguments(state.video, state.input())),
    )
    &&& events[i] matches Event::Exited { success, .. } && success
}

/// Only after ffmpeg has taken the video apart and ended well is Real-ESRGAN started, the frame
/// rate probed, the video put together, a directory removed or the run finished.
pub proof fn law_frames_are_exported_first(windows: bool, events: Seq<Event>)
    requires
        ({
            let state = after(windows, events);
            ||| state.action() is Spawn
            ||| state.action() is Capture
            ||| state.stage == Stage::Compose
            ||| state.action() is RemoveDir
            ||| state.action() is Finish
        }),
    ensures
        exists|i: int| exported(windows, events, i, after(windows, events)),
{
    let state = after(windows, events);
    let i = lemma_passed(windows, events, Stage::Export);
    lemma_kept(windows, events, i);
    assert(exported(windows, events, i, state));
}

/// At an event, Real-ESRGAN was started on the frames of a state.
pub open spec fn launched(
    windows: bool,
    events: Seq<Event>,
    i: int,
    state: SessionView,
) -> bool {
    &&& 0 <= i < events.len()
    &&& asked(windows, events, i) == Action::Spawn(
        state.command(
            state.upscaler,
            commands::upscale_arguments(
                state.input(),
                state.output(),
                state.config.realesrgan_model,
                state.config.realesrgan_scale,
            ),
        ),
    )
    &&& events[i] is Done
}

/// At an event, ffprobe had printed the frame rate of a state.
pub open spec fn rate_probed(
    windows: bool,
    events: Seq<Event>,
    i: int,
    state: SessionView,
) -> bool {
    &&& 0 <= i < events.len()
    &&& asked(windows, events, i) == Action::Capture(
        state.command(state.ffprobe, commands::probe_arguments(state.video)),
    )
    &&& events[i] matches Event::Printed { success, stdout } && success && state.rate
        == tools::printed_rate(stdout@) && state.rate.len() > 0
}

/// At an event, the path of the program was found, and with it the directory of a state.
pub open spec fn located(windows: bool, events: Seq<Event>, i: int, state: SessionView) -> bool {
    &&& 0 <= i < events.len()
    &&& asked(windows, events, i) is LocateProgram
    &&& events[i] matches Event::Located(path) && paths::parent_path(path@) == Some(state.exe_dir)
}

/// At an event, the directories of the search path were listed that a state holds.
pub open spec fn dirs_listed(
    windows: bool,
    events: Seq<Event>,
    i: int,
    state: SessionView,
) -> bool {
    &&& 0 <= i < events.len()
    &&& asked(windows, events, i) is ListSearchDirs
    &&& events[i] matches Event::SearchDirs(dirs) && text::texts(dirs@) == state.search_dirs
}

/// At an event, it was found out which of some places are files, and a tool's path is the one
/// that follows from that.
pub open spec fn tool_probed(
    windows: bool,
    events: Seq<Event>,
    i: int,
    places: Seq<Seq<char>>,
    path: Seq<char>,
) -> bool {
    &&& 0 <= i < events.len()
    &&& asked(windows, events, i) == Action::<Seq<char>, Seq<Seq<char>>>::ProbeFiles(places)
    &&& events[i] matches Event::Probed(answers) && path == tools::tool_path(places, answers@)
}

/// At an event, ffmpeg had printed the version of a state.
pub open spec fn version_printed(
    windows: bool,
    events: Seq<Event>,
    i: int,
    state: SessionView,
) -> bool {
    &&& 0 <= i < events.len()
    &&& asked(windows, events, i) == (Action::<Seq<char>, Seq<Seq<char>>>::QueryVersion {
        program: state.ffmpeg,
        args: commands::version_arguments(),
    })
    &&& events[i] matches Event::Printed { stdout, .. } && state.version is Some && state.version
        == tools::version_line(Some(stdout@))
}

/// At an event, one of the places in which Real-ESRGAN is looked for once more was a file.
pub open spec fn upscaler_seen(
    windows: bool,
    events: Seq<Event>,
    i: int,
    state: SessionView,
) -> bool {
    let places = tools::check_places(state.upscaler, state.search_dirs);
    &&& 0 <= i < events.len()
    &&& asked(windows, events, i) == Action::<Seq<char>, Seq<Seq<char>>>::ProbeFiles(places)
    &&& events[i] matches Event::Probed(answers) && tools::first_found(places, answers@) is Some
}

/// At an event, a configuration was read that a state holds.
pub open spec fn config_read(
    windows: bool,
    events: Seq<Event>,
    i: int,
    state: SessionView,
) -> bool {
    &&& 0 <= i < events.len()
    &&& asked(windows, events, i) == Action::<Seq<char>, Seq<Seq<char>>>::LoadConfig(
        config::config_file(state.exe_dir),
    )
    &&& events[i] matches Event::Loaded(config) && config@ == state.config
}

/// At an event, the user named the video of a state.
pub open spec fn video_named(
    windows: bool,
    events: Seq<Event>,
    i: int,
    state: SessionView,
) -> bool {
    &&& 0 <= i < events.len()
    &&& asked(windows, events, i) == Action::<Seq<char>, Seq<Seq<char>>>::Ask(session::ASK_VIDEO@)
    &&& events[i] matches Event::Line(line) && text::answered(line@).len() > 0 && state.video
        == paths::resolved_path(state.exe_dir, text::answered(line@))
}

/// At an event, the user named the output directory of a state, or left it at the default.
pub open spec fn output_named(
    windows: bool,
    events: Seq<Event>,
    i: int,
    state: SessionView,
) -> bool {
    &&& 0 <= i < events.len()
    &&& asked(windows, events, i) == Action::<Seq<char>, Seq<Seq<char>>>::Ask(
        "请输入视频放大输出目录 ("@ + state.default_output() + "): "@,
    )
    &&& events[i] matches Event::Line(line) && state.output_dir == if text::answered(line@).len()
        == 0 {
        state.default_output()
    } else {
        paths::resolved_path(state.exe_dir, text::answered(line@))
    }
}

/// What the events that settle a run's facts settle.
proof fn lemma_settled(state: SessionView, event: Event)
    ensures
        state.stage == Stage::LoadConfig && step(state, event).stage != Stage::Failed ==> (
        event matches Event::Loaded(config) ==> step(state, event).config == config@),
        state.stage == Stage::Locate && step(state, event).stage != Stage::Failed ==> (
        event matches Event::Located(path) ==> paths::parent_path(path@) == Some(
            step(state, event).exe_dir,
        )),
        state.stage == Stage::ListSearchDirs ==> (event matches Event::SearchDirs(dirs) ==> step(
            state,
            event,
        ).search_dirs == text::texts(dirs@)),
        state.stage == Stage::FindFfmpeg ==> (event matches Event::Probed(answers) ==> step(
            state,
            event,
        ).ffmpeg == tools::tool_path(
            state.places(state.config.ffmpeg_path, "ffmpeg"@),
            answers@,
        )),
        state.stage == Stage::FindFfprobe ==> (event matches Event::Probed(answers) ==> step(
            state,
            event,
        ).ffprobe == tools::tool_path(
            state.places(state.config.ffprobe_path, "ffprobe"@),
            answers@,
        )),
        state.stage == Stage::FindUpscaler ==> (event matches Event::Probed(answers) ==> step(
            state,
            event,
        ).upscaler == tools::tool_path(
            state.places(state.config.realesrgan_path, "realesrgan-ncnn-vulkan"@),
            answers@,
        )),
        state.stage == Stage::QueryVersion ==> (event matches Event::Printed { stdout, .. }
            ==> step(state, event).version == tools::version_line(Some(stdout@))),
        state.stage == Stage::QueryVersion && event is Failed ==> step(state, event).version is None,
        state.stage == Stage::CheckUpscaler ==> (event matches Event::Probed(answers) ==> step(
            state,
            event,
        ).upscaler_found == (tools::first_found(
            tools::check_places(state.upscaler, state.search_dirs),
            answers@,
        ) is Some)),
        state.stage == Stage::Probe && step(state, event).stage != Stage::Failed ==> (
        event matches Event::Printed { stdout, success } ==> step(state, event).rate
            == tools::printed_rate(stdout@) && step(state, event).rate.len() > 0),
        state.stage == Stage::AskVideo && step(state, event).stage != Stage::Failed ==> (
        event matches Event::Line(line) ==> text::answered(line@).len() > 0 && step(
            state,
            event,
        ).video == paths::resolved_path(state.exe_dir, text::answered(line@))),
        state.stage == Stage::AskOutput ==> (event matches Event::Line(line) ==> step(
            state,
            event,
        ).output_dir == if text::answered(line@).len() == 0 {
            state.default_output()
        } else {
            paths::resolved_path(state.exe_dir, text::answered(line@))
        }),
        state.stage == Stage::CreateOutput && event is Done && step(state, event).stage
            != Stage::Failed ==> paths::path_stem(state.video) == Some(step(state, event).stem),
{
    reveal(step);
}

/// A gate that a run has passed, with the state behind it: the event did not fail the run, and
/// what it settled is still so.
proof fn lemma_passed_through(windows: bool, events: Seq<Event>, gate: Stage) -> (i: int)
    requires
        is_gate(gate),
        after(windows, events).stage.rank() > gate.rank(),
        after(windows, events).stage != Stage::Failed,
    ensures
        0 <= i < events.len(),
        after(windows, events.take(i)).stage == gate,
        opens(gate, events[i]),
        agree(after(windows, events.take(i)), after(windows, events)),
        agree(step(after(windows, events.take(i)), events[i]), after(windows, events)),
        step(after(windows, events.take(i)), events[i]).stage.rank() > gate.rank(),
        step(after(windows, events.take(i)), events[i]).stage != Stage::Failed,
{
    let i = lemma_passed(windows, events, gate);
    lemma_kept(windows, events, i);
    lemma_kept(windows, events, i + 1);
    assert(events.take(i + 1).drop_last() =~= events.take(i));
    i
}

/// What a state was set up with came from the events: the program's directory, the configuration
/// that was read, the search path, and the paths of the three tools, which follow from where they
/// were found.
pub open spec fn is_set_up(windows: bool, events: Seq<Event>, state: SessionView) -> bool {
    &&& state.windows == windows
    &&& exists|i: int| located(windows, events, i, state)
    &&& exists|i: int| config_read(windows, events, i, state)
    &&& exists|i: int| dirs_listed(windows, events, i, state)
    &&& exists|i: int|
        tool_probed(
            windows,
            events,
            i,
            state.places(state.config.ffmpeg_path, "ffmpeg"@),
            state.ffmpeg,
        )
    &&& exists|i: int|
        tool_probed(
            windows,
            events,
            i,
            state.places(state.config.ffprobe_path, "ffprobe"@),
            state.ffprobe,
        )
    &&& exists|i: int|
        tool_probed(
            windows,
            events,
            i,
            state.places(state.config.realesrgan_path, "realesrgan-ncnn-vulkan"@),
            state.upscaler,
        )
}

proof fn lemma_set_up(windows: bool, events: Seq<Event>)
    requires
        Stage::FindUpscaler.rank() < after(windows, events).stage.rank() < Stage::Failed.rank(),
    ensures
        is_set_up(windows, events, after(windows, events)),
{
    let state = after(windows, events);
    lemma_kept(windows, events, 0);
    let i = lemma_passed_through(windows, events, Stage::Locate);
    lemma_settled(after(windows, events.take(i)), events[i]);
    assert(located(windows, events, i, state));
    let i = lemma_passed_through(windows, events, Stage::LoadConfig);
    lemma_settled(after(windows, events.take(i)), events[i]);
    assert(config_read(windows, events, i, state));
    let i = lemma_passed_through(windows, events, Stage::ListSearchDirs);
    lemma_settled(after(windows, events.take(i)), events[i]);
    assert(dirs_listed(windows, events, i, state));
    let i = lemma_passed_through(windows, events, Stage::FindFfmpeg);
    lemma_settled(after(windows, events.take(i)), events[i]);
    let places = state.places(state.config.ffmpeg_path, "ffmpeg"@);
    assert(tool_probed(windows, events, i, places, state.ffmpeg));
    let i = lemma_passed_through(windows, events, Stage::FindFfprobe);
    lemma_settled(after(windows, events.take(i)), events[i]);
    let places = state.places(state.config.ffprobe_path, "ffprobe"@);
    assert(tool_probed(windows, events, i, places, state.ffprobe));
    let i = lemma_passed_through(windows, events, Stage::FindUpscaler);
    lemma_settled(after(windows, events.take(i)), events[i]);
    let places = state.places(state.config.realesrgan_path, "realesrgan-ncnn-vulkan"@);
    assert(tool_probed(windows, events, i, places, state.upscaler));
}

proof fn lemma_rate_probed(windows: bool, events: Seq<Event>) -> (i: int)
    requires
        Stage::Probe.rank() < after(windows, events).stage.rank() < Stage::Failed.rank(),
    ensures
        rate_probed(windows, events, i, after(windows, events)),
        after(windows, events.take(i)).stage == Stage::Probe,
{
    let i = lemma_passed_through(windows, events, Stage::Probe);
    lemma_settled(after(windows, events.take(i)), events[i]);
    i
}

/// From the first program that works on frames to the end of a run, its facts are those that
/// were given: the directory is the program's, the configuration is the one that was read, the
/// paths of the tools follow from where they were found, the video and the output directory are
/// the user's answers, and the file that is written is named after the video. From the composing
/// on, the frame rate is the one that was printed.
pub proof fn law_runs_follow_the_answers(windows: bool, events: Seq<Event>)
    requires
        ({
            let action = after(windows, events).action();
            action is Run || action is Spawn || action is Capture || action is RemoveDir
                || action is Finish
        }),
    ensures
        is_set_up(windows, events, after(windows, events)),
        exists|i: int| video_named(windows, events, i, after(windows, events)),
        exists|i: int| output_named(windows, events, i, after(windows, events)),
        paths::path_stem(after(windows, events).video) == Some(after(windows, events).stem),
        after(windows, events).stage.rank() >= Stage::Compose.rank() ==> exists|i: int|
            rate_probed(windows, events, i, after(windows, events)),
{
    let state = after(windows, events);
    lemma_set_up(windows, events);
    if state.stage.rank() >= Stage::Compose.rank() {
        let i = lemma_rate_probed(windows, events);
        assert(rate_probed(windows, events, i, state));
    }
    let i = lemma_passed_through(windows, events, Stage::AskVideo);
    lemma_settled(after(windows, events.take(i)), events[i]);
    assert(video_named(windows, events, i, state));
    let i = lemma_passed_through(windows, events, Stage::AskOutput);
    lemma_settled(after(windows, events.take(i)), events[i]);
    assert(output_named(windows, events, i, state));
    let i = lemma_passed_through(windows, events, Stage::CreateOutput);
    lemma_settled(after(windows, events.take(i)), events[i]);
}

/// What comes before the composing is done in its order: the video is taken apart, Real-ESRGAN is
/// started on its frames, Real-ESRGAN ends well, and the frame rate is printed.
pub proof fn law_composing_comes_last(windows: bool, events: Seq<Event>)
    requires
        ({
            let state = after(windows, events);
            ||| state.stage == Stage::Compose
            ||| state.action() is RemoveDir
            ||| state.action() is Finish
        }),
    ensures
        exists|i: int, j: int, k: int, l: int|
            i < j < k < l && #[trigger] exported(windows, events, i, after(windows, events))
                && #[trigger] launched(windows, events, j, after(windows, events))
                && #[trigger] enlarged(windows, events, k) && #[trigger] rate_probed(
                windows,
                events,
                l,
                after(windows, events),
            ),
{
    let state = after(windows, events);
    let l = lemma_rate_probed(windows, events);
    let probing = events.take(l);
    lemma_sound(windows, probing);
    let k = lemma_enlarged(windows, probing);
    assert(probing.take(k) =~= events.take(k));
    let polling = events.take(k);
    let j = lemma_passed(windows, polling, Stage::Launch);
    assert(polling.take(j) =~= events.take(j));
    lemma_kept(windows, events, j);
    let launching = events.take(j);
    let i = lemma_passed(windows, launching, Stage::Export);
    assert(launching.take(i) =~= events.take(i));
    lemma_kept(windows, events, i);
    assert(exported(windows, events, i, state));
    assert(launched(windows, events, j, state));
    assert(enlarged(windows, events, k));
}

proof fn lemma_write_step(state: SessionView, event: Event)
    ensures
        step(state, event).stage == Stage::WriteConfig ==> state.stage == Stage::WriteConfig || (
        state.stage == Stage::CheckConfig && event == Event::Answer(false)),
{
    reveal(step);
}

proof fn lemma_config_absent(windows: bool, events: Seq<Event>) -> (i: int)
    requires
        after(windows, events).stage == Stage::WriteConfig,
    ensures
        found_absent(windows, events, i, config::config_file(after(windows, events).exe_dir)),
    decreases events.len(),
{
    if events.len() == 0 {
        0
    } else {
        let before = events.drop_last();
        let state = after(windows, before);
        let last = events.len() - 1;
        assert(events.take(last) =~= before);
        lemma_write_step(state, events.last());
        lemma_kept_step(state, events.last());
        if state.stage == Stage::WriteConfig {
            let i = lemma_config_absent(windows, before);
            assert(before.take(i) =~= events.take(i));
            i
        } else {
            last
        }
    }
}

/// A file is written only where nothing was found under its path before.
pub proof fn law_no_file_is_overwritten(
    windows: bool,
    events: Seq<Event>,
    path: Seq<char>,
    content: Seq<char>,
)
    requires
        after(windows, events).action() == (Action::<Seq<char>, Seq<Seq<char>>>::WriteFile {
            path,
            content,
        }),
    ensures
        exists|i: int| found_absent(windows, events, i, path),
{
    let i = lemma_config_absent(windows, events);
    assert(found_absent(windows, events, i, path));
}

/// A configuration file that is there is left as it is: a run that finds it writes no file at
/// all, neither before nor after.
pub proof fn law_present_configuration_is_kept(
    windows: bool,
    events: Seq<Event>,
    i: int,
    j: int,
)
    requires
        0 <= i < events.len(),
        0 <= j <= events.len(),
        after(windows, events.take(i)).stage == Stage::CheckConfig,
        events[i] == Event::Answer(true),
    ensures
        asked(windows, events, j) !is WriteFile,
{
    if asked(windows, events, j) is WriteFile {
        if j <= i {
            assert(events.take(i).take(j) =~= events.take(j));
            lemma_kept(windows, events.take(i), j);
        } else {
            assert(events.take(j).take(i + 1) =~= events.take(i + 1));
            assert(events.take(i + 1).drop_last() =~= events.take(i));
            assert(step(after(windows, events.take(i)), events[i]).stage == Stage::LoadConfig) by {
                reveal(step);
            }
            lemma_kept(windows, events.take(j), i + 1);
        }
    }
}

/// The work of the stages up to the questions: the configuration beside the program, the three
/// tools under their names, and what was found out.
pub proof fn law_setting_up_asks_for_this_work(state: SessionView)
    ensures
        ({
            let (action, input, output) = (
                state.action(),
                paths::joined_path(state.exe_dir, "input_image_tmp"@),
                paths::joined_path(state.exe_dir, "out_image_tmp"@),
            );
            match state.stage {
                Stage::Locate => action is LocateProgram,
                Stage::Enter => action == Action::<Seq<char>, Seq<Seq<char>>>::EnterDir(state.exe_dir),
                Stage::CheckConfig => action == Action::<Seq<char>, Seq<Seq<char>>>::CheckExists(paths::joined_path(state.exe_dir, "config.yaml"@)),
                Stage::WriteConfig => action == (Action::<Seq<char>, Seq<Seq<char>>>::WriteFile {
                    path: paths::joined_path(state.exe_dir, "config.yaml"@),
                    content: config::commented_yaml(config::default_config()),
                }),
                Stage::ShowConfig => action == Action::<Seq<char>, Seq<Seq<char>>>::Show(Notice::ConfigCreated(paths::joined_path(state.exe_dir, "config.yaml"@))),
                Stage::LoadConfig => action == Action::<Seq<char>, Seq<Seq<char>>>::LoadConfig(paths::joined_path(state.exe_dir, "config.yaml"@)),
                Stage::ListSearchDirs => action is ListSearchDirs,
                Stage::FindFfmpeg => action == Action::<Seq<char>, Seq<Seq<char>>>::ProbeFiles(
                    tools::tool_places(
                        state.exe_dir,
                        state.config.ffmpeg_path,
                        if state.windows {
                            "ffmpeg"@ + ".exe"@
                        } else {
                            "ffmpeg"@
                        },
                        state.search_dirs,
                    ),
                ),
                Stage::FindFfprobe => action == Action::<Seq<char>, Seq<Seq<char>>>::ProbeFiles(
                    tools::tool_places(
                        state.exe_dir,
                        state.config.ffprobe_path,
                        if state.windows {
                            "ffprobe"@ + ".exe"@
                        } else {
                            "ffprobe"@
                        },
                        state.search_dirs,
                    ),
                ),
                Stage::FindUpscaler => action == Action::<Seq<char>, Seq<Seq<char>>>::ProbeFiles(
                    tools::tool_places(
                        state.exe_dir,
                        state.config.realesrgan_path,
                        if state.windows {
                            "realesrgan-ncnn-vulkan"@ + ".exe"@
                        } else {
                            "realesrgan-ncnn-vulkan"@
                        },
                        state.search_dirs,
                    ),
                ),
                Stage::Welcome => action == Action::<Seq<char>, Seq<Seq<char>>>::Show(
                    Notice::Welcome {
                        work_dir: state.exe_dir,
                        output_dir: config::default_output(
                            state.exe_dir,
                            state.config.output_dir,
                        ),
                    },
                ),
                Stage::QueryVersion => action matches Action::QueryVersion { program, args } && program == state.ffmpeg
                    && args.len() == 1 && args[0] == "-version"@,
                Stage::ShowVersion => match state.version {
                    Some(version) => action == Action::<Seq<char>, Seq<Seq<char>>>::Show(Notice::Version(version)),
                    None => action == Action::<Seq<char>, Seq<Seq<char>>>::Show(Notice::NoFfmpeg(state.ffmpeg)),
                },
                Stage::CheckUpscaler => action == Action::<Seq<char>, Seq<Seq<char>>>::ProbeFiles(
                    tools::check_places(state.upscaler, state.search_dirs),
                ),
                Stage::ShowUpscaler => if state.upscaler_found {
                    action == Action::<Seq<char>, Seq<Seq<char>>>::Show(Notice::UpscalerFound(state.upscaler))
                } else {
                    action == Action::<Seq<char>, Seq<Seq<char>>>::Show(Notice::NoUpscaler(state.upscaler))
                },
                Stage::Divide => action == Action::<Seq<char>, Seq<Seq<char>>>::Show(Notice::Divider),
                _ => true,
            }
        }),
{
}

/// The work of the questions and of the directories that their answers call for.
pub proof fn law_asking_asks_for_this_work(state: SessionView)
    ensures
        ({
            let (action, input, output) = (
                state.action(),
                paths::joined_path(state.exe_dir, "input_image_tmp"@),
                paths::joined_path(state.exe_dir, "out_image_tmp"@),
            );
            match state.stage {
                Stage::AskVideo => action == Action::<Seq<char>, Seq<Seq<char>>>::Ask(session::ASK_VIDEO@),
                Stage::CheckVideo => action == Action::<Seq<char>, Seq<Seq<char>>>::CheckExists(state.video),
                Stage::AskOutput => action == Action::<Seq<char>, Seq<Seq<char>>>::Ask(
                    "请输入视频放大输出目录 ("@ + config::default_output(
                        state.exe_dir,
                        state.config.output_dir,
                    ) + "): "@,
                ),
                Stage::ShowOutput => action == Action::<Seq<char>, Seq<Seq<char>>>::Show(Notice::OutputDir(state.output_dir)),
                Stage::CreateOutput => action == Action::<Seq<char>, Seq<Seq<char>>>::CreateDir(state.output_dir),
                Stage::Prepare => action == Action::<Seq<char>, Seq<Seq<char>>>::Show(Notice::Gap),
                Stage::CheckInput => action == Action::<Seq<char>, Seq<Seq<char>>>::CheckExists(input),
                Stage::CreateInput => action == Action::<Seq<char>, Seq<Seq<char>>>::CreateDir(input),
                Stage::CheckOutput => action == Action::<Seq<char>, Seq<Seq<char>>>::CheckExists(output),
                Stage::CreateOutputFrames => action == Action::<Seq<char>, Seq<Seq<char>>>::CreateDir(output),
                _ => true,
            }
        }),
{
}

/// The work of taking the video apart and enlarging its frames: ffmpeg on the video, Real-ESRGAN
/// from one directory to the other by the configured model and factor, and the counts of frames
/// as they were found.
pub proof fn law_enlarging_asks_for_this_work(state: SessionView)
    ensures
        ({
            let (action, input, output) = (
                state.action(),
                paths::joined_path(state.exe_dir, "input_image_tmp"@),
                paths::joined_path(state.exe_dir, "out_image_tmp"@),
            );
            match state.stage {
                Stage::ShowExport => action == Action::<Seq<char>, Seq<Seq<char>>>::Show(Notice::ExportStep),
                Stage::Export => action matches Action::Run(command) && {
                    &&& command.program == state.ffmpeg
                    &&& command.dir == state.exe_dir
                    &&& command.args.len() == 11
                    &&& command.args[0] == "-i"@
                    &&& command.args[1] == state.video
                    &&& command.args[2] == "-qscale:v"@
                    &&& command.args[3] == "1"@
                    &&& command.args[4] == "-qmin"@
                    &&& command.args[5] == "1"@
                    &&& command.args[6] == "-qmax"@
                    &&& command.args[7] == "1"@
                    &&& command.args[8] == "-vsync"@
                    &&& command.args[9] == "0"@
                    &&& command.args[10] == paths::joined_path(input, "frame%08d.png"@)
                },
                Stage::CountFrames => action == Action::<Seq<char>, Seq<Seq<char>>>::ListDir(input),
                Stage::ShowFrames => action == Action::<Seq<char>, Seq<Seq<char>>>::Show(Notice::Frames(state.frames)),
                Stage::ShowUpscale => action == Action::<Seq<char>, Seq<Seq<char>>>::Show(
                    Notice::UpscaleStep {
                        scale: state.config.realesrgan_scale,
                        model: state.config.realesrgan_model,
                    },
                ),
                Stage::OpenProgress => action == Action::<Seq<char>, Seq<Seq<char>>>::OpenProgress(state.frames),
                Stage::Launch => action matches Action::Spawn(command) && {
                    &&& command.program == state.upscaler
                    &&& command.dir == state.exe_dir
                    &&& command.args.len() == 10
                    &&& command.args[0] == "-i"@
                    &&& command.args[1] == input
                    &&& command.args[2] == "-o"@
                    &&& command.args[3] == output
                    &&& command.args[4] == "-n"@
                    &&& command.args[5] == state.config.realesrgan_model
                    &&& command.args[6] == "-s"@
                    &&& command.args[7] == text::decimal_text(
                        state.config.realesrgan_scale as nat,
                    )
                    &&& command.args[8] == "-f"@
                    &&& command.args[9] == "png"@
                },
                Stage::CountDone | Stage::CountLast => action == Action::<Seq<char>, Seq<Seq<char>>>::ListDir(output),
                Stage::MoveProgress | Stage::MoveLast => action == Action::<Seq<char>, Seq<Seq<char>>>::MoveProgress(state.done),
                Stage::Poll => action is Poll,
                Stage::Wait => action == Action::<Seq<char>, Seq<Seq<char>>>::Sleep(500),
                Stage::CloseProgress => action is CloseProgress,
                Stage::AbandonProgress => action is AbandonProgress,
                Stage::Upscaled => action == Action::<Seq<char>, Seq<Seq<char>>>::Show(Notice::Gap),
                _ => true,
            }
        }),
{
}

/// The work of putting the video together and cleaning up: ffprobe on the video, ffmpeg at the
/// rate that was read and into the output directory under the video's name, and the removal of
/// the two directories for frames.
pub proof fn law_composing_asks_for_this_work(state: SessionView)
    ensures
        ({
            let (action, input, output) = (
                state.action(),
                paths::joined_path(state.exe_dir, "input_image_tmp"@),
                paths::joined_path(state.exe_dir, "out_image_tmp"@),
            );
            match state.stage {
                Stage::ShowProbe => action == Action::<Seq<char>, Seq<Seq<char>>>::Show(Notice::ProbeStep),
                Stage::Probe => action matches Action::Capture(command) && {
                    &&& command.program == state.ffprobe
                    &&& command.dir == state.exe_dir
                    &&& command.args.len() == 9
                    &&& command.args[0] == "-v"@
                    &&& command.args[1] == "error"@
                    &&& command.args[2] == "-select_streams"@
                    &&& command.args[3] == "v:0"@
                    &&& command.args[4] == "-show_entries"@
                    &&& command.args[5] == "stream=r_frame_rate"@
                    &&& command.args[6] == "-of"@
                    &&& command.args[7] == "default=noprint_wrappers=1:nokey=1"@
                    &&& command.args[8] == state.video
                },
                Stage::ShowRate => action == Action::<Seq<char>, Seq<Seq<char>>>::Show(Notice::Rate(state.rate)),
                Stage::ShowCompose => action == Action::<Seq<char>, Seq<Seq<char>>>::Show(Notice::ComposeStep),
                Stage::Compose => action matches Action::Run(command) && {
                    &&& command.program == state.ffmpeg
                    &&& command.dir == state.exe_dir
                    &&& command.args.len() == 19
                    &&& command.args[0] == "-framerate"@
                    &&& command.args[1] == state.rate
                    &&& command.args[2] == "-i"@
                    &&& command.args[3] == paths::joined_path(output, "frame%08d.png"@)
                    &&& command.args[4] == "-i"@
                    &&& command.args[5] == state.video
                    &&& command.args[6] == "-map"@
                    &&& command.args[7] == "0:v:0"@
                    &&& command.args[8] == "-map"@
                    &&& command.args[9] == "1:a:0"@
                    &&& command.args[10] == "-c:a"@
                    &&& command.args[11] == "copy"@
                    &&& command.args[12] == "-c:v"@
                    &&& command.args[13] == "libx264"@
                    &&& command.args[14] == "-r"@
                    &&& command.args[15] == state.rate
                    &&& command.args[16] == "-pix_fmt"@
                    &&& command.args[17] == "yuv420p"@
                    &&& command.args[18] == paths::joined_path(
                        state.output_dir,
                        "out_"@ + state.stem + ".mp4"@,
                    )
                },
                Stage::ShowComplete => action == Action::<Seq<char>, Seq<Seq<char>>>::Show(
                    Notice::Complete(
                        paths::joined_path(state.output_dir, "out_"@ + state.stem + ".mp4"@),
                    ),
                ),
                Stage::CheckInputLeft => action == Action::<Seq<char>, Seq<Seq<char>>>::CheckExists(input),
                Stage::RemoveInput => action == Action::<Seq<char>, Seq<Seq<char>>>::RemoveDir(input),
                Stage::CheckOutputLeft => action == Action::<Seq<char>, Seq<Seq<char>>>::CheckExists(output),
                Stage::RemoveOutput => action == Action::<Seq<char>, Seq<Seq<char>>>::RemoveDir(output),
                Stage::ShowCleaned => action == Action::<Seq<char>, Seq<Seq<char>>>::Show(Notice::Cleaned),
                Stage::AskExit => action == Action::<Seq<char>, Seq<Seq<char>>>::Ask(""@),
                Stage::Finished => action is Finish,
                Stage::Failed => action == Action::<Seq<char>, Seq<Seq<char>>>::Fail(state.failure),
                _ => true,
            }
        }),
{
}

/// Work that is done takes a run to the work that follows it. Where a decision is due, it goes by
/// what was found out: missing tools, a video without a file name, settings that are not
/// supported, and an upscaling that did not succeed end the run.
#[verifier::rlimit(60)]
pub proof fn law_work_that_is_done_leads_on(state: SessionView)
    ensures
        state.next(Event::Done) == match state.stage {
            Stage::Enter => SessionView { stage: Stage::CheckConfig, ..state },
            Stage::WriteConfig => SessionView { stage: Stage::ShowConfig, ..state },
            Stage::ShowConfig => SessionView { stage: Stage::LoadConfig, ..state },
            Stage::Welcome => SessionView { stage: Stage::QueryVersion, ..state },
            Stage::ShowVersion => SessionView { stage: Stage::CheckUpscaler, ..state },
            Stage::ShowUpscaler => if state.version is Some && state.upscaler_found {
                SessionView { stage: Stage::Divide, ..state }
            } else {
                SessionView {
                    stage: Stage::Failed,
                    failure: Failure::MissingTools {
                        ffmpeg: if state.version is Some {
                            None
                        } else {
                            Some(state.ffmpeg)
                        },
                        upscaler: if state.upscaler_found {
                            None
                        } else {
                            Some(state.upscaler)
                        },
                    },
                    ..state
                }
            },
            Stage::Divide => SessionView { stage: Stage::AskVideo, ..state },
            Stage::ShowOutput => SessionView { stage: Stage::CreateOutput, ..state },
            Stage::CreateOutput => match paths::path_stem(state.video) {
                Some(stem) => SessionView { stage: Stage::Prepare, stem, ..state },
                None => SessionView {
                stage: Stage::Failed,
                failure: Failure::NoFileName,
                ..state
            },
            },
            Stage::Prepare => SessionView { stage: Stage::CheckInput, ..state },
            Stage::CreateInput => SessionView { stage: Stage::CheckOutput, ..state },
            Stage::CreateOutputFrames => SessionView { stage: Stage::ShowExport, ..state },
            Stage::ShowExport => SessionView { stage: Stage::Export, ..state },
            Stage::ShowFrames => if !config::models().contains(state.config.realesrgan_model) {
                SessionView {
                stage: Stage::Failed,
                failure: Failure::BadModel(state.config.realesrgan_model),
                ..state
            }
            } else if !(2 <= state.config.realesrgan_scale <= 4) {
                SessionView {
                stage: Stage::Failed,
                failure: Failure::BadScale(state.config.realesrgan_scale),
                ..state
            }
            } else {
                SessionView { stage: Stage::ShowUpscale, ..state }
            },
            Stage::ShowUpscale => SessionView { stage: Stage::OpenProgress, ..state },
            Stage::OpenProgress => SessionView { stage: Stage::Launch, ..state },
            Stage::Launch => SessionView { stage: Stage::CountDone, ..state },
            Stage::MoveProgress => SessionView { stage: Stage::Poll, ..state },
            Stage::Wait => SessionView { stage: Stage::CountDone, ..state },
            Stage::MoveLast => SessionView { stage: Stage::CloseProgress, ..state },
            Stage::CloseProgress => if state.upscaled {
                SessionView { stage: Stage::Upscaled, ..state }
            } else {
                SessionView {
                stage: Stage::Failed,
                failure: Failure::UpscaleFailed(state.upscale_code),
                ..state
            }
            },
            Stage::AbandonProgress => SessionView {
                stage: Stage::Failed,
                failure: Failure::WaitFailed(state.wait_error),
                ..state
            },
            Stage::Upscaled => SessionView { stage: Stage::ShowProbe, ..state },
            Stage::ShowProbe => SessionView { stage: Stage::Probe, ..state },
            Stage::ShowRate => SessionView { stage: Stage::ShowCompose, ..state },
            Stage::ShowCompose => SessionView { stage: Stage::Compose, ..state },
            Stage::ShowComplete => SessionView { stage: Stage::CheckInputLeft, ..state },
            Stage::RemoveInput => SessionView { stage: Stage::CheckOutputLeft, ..state },
            Stage::RemoveOutput => SessionView { stage: Stage::ShowCleaned, ..state },
            Stage::ShowCleaned => SessionView { stage: Stage::AskExit, ..state },
            _ => state,
        },
{
}

/// Work that fails ends the run with a failure that names what it was about. The exceptions are a
/// version that cannot be asked for, which is taken for a missing ffmpeg, a Real-ESRGAN that cannot
/// be waited for, which is let go first, and all work after the composing.
#[verifier::rlimit(60)]
pub proof fn law_work_that_fails_ends_the_run(state: SessionView, reason: String)
    ensures
        state.next(Event::Failed(reason)) == match state.stage {
            Stage::Locate => SessionView {
                stage: Stage::Failed,
                failure: Failure::NoProgramPath,
                ..state
            },
            Stage::Enter => SessionView {
                stage: Stage::Failed,
                failure: Failure::EnterDir(state.exe_dir),
                ..state
            },
            Stage::WriteConfig => SessionView {
                stage: Stage::Failed,
                failure: Failure::WriteConfig(paths::joined_path(state.exe_dir, "config.yaml"@)),
                ..state
            },
            Stage::LoadConfig => SessionView {
                stage: Stage::Failed,
                failure: Failure::ReadConfig(paths::joined_path(state.exe_dir, "config.yaml"@)),
                ..state
            },
            Stage::QueryVersion => SessionView { stage: Stage::ShowVersion, version: None, ..state },
            Stage::AskVideo | Stage::AskOutput => SessionView {
                stage: Stage::Failed,
                failure: Failure::Console(reason@),
                ..state
            },
            Stage::CreateOutput => SessionView {
                stage: Stage::Failed,
                failure: Failure::CreateOutput(state.output_dir),
                ..state
            },
            Stage::CreateInput => SessionView {
                stage: Stage::Failed,
                failure: Failure::CreateFrames(
                    paths::joined_path(state.exe_dir, "input_image_tmp"@),
                ),
                ..state
            },
            Stage::CreateOutputFrames => SessionView {
                stage: Stage::Failed,
                failure: Failure::CreateFrames(
                    paths::joined_path(state.exe_dir, "out_image_tmp"@),
                ),
                ..state
            },
            Stage::Export => SessionView {
                stage: Stage::Failed,
                failure: Failure::StartExport(state.ffmpeg),
                ..state
            },
            Stage::Launch => SessionView {
                stage: Stage::Failed,
                failure: Failure::StartUpscale(state.upscaler),
                ..state
            },
            Stage::Poll => SessionView { stage: Stage::AbandonProgress, wait_error: reason@, ..state },
            Stage::Probe => SessionView {
                stage: Stage::Failed,
                failure: Failure::StartProbe(state.ffprobe),
                ..state
            },
            Stage::Compose => SessionView {
                stage: Stage::Failed,
                failure: Failure::StartCompose,
                ..state
            },
            Stage::RemoveInput => SessionView { stage: Stage::CheckOutputLeft, ..state },
            Stage::RemoveOutput => SessionView { stage: Stage::ShowCleaned, ..state },
            Stage::AskExit => SessionView { stage: Stage::Finished, ..state },
            _ => state,
        },
{
}

/// What is found under a path decides: the configuration is read or written first, a video that is
/// not there and frames that are there end the run, and only frames that are there are removed.
#[verifier::rlimit(60)]
pub proof fn law_what_is_there_decides(state: SessionView, answer: bool)
    ensures
        state.next(Event::Answer(answer)) == match state.stage {
            Stage::CheckConfig => if answer {
                SessionView { stage: Stage::LoadConfig, ..state }
            } else {
                SessionView { stage: Stage::WriteConfig, ..state }
            },
            Stage::CheckVideo => if answer {
                SessionView { stage: Stage::AskOutput, ..state }
            } else {
                SessionView {
                stage: Stage::Failed,
                failure: Failure::VideoMissing(state.video),
                ..state
            }
            },
            Stage::CheckInput => if answer {
                SessionView {
                stage: Stage::Failed,
                failure: Failure::FramesExist("input_image_tmp"@),
                ..state
            }
            } else {
                SessionView { stage: Stage::CreateInput, ..state }
            },
            Stage::CheckOutput => if answer {
                SessionView {
                stage: Stage::Failed,
                failure: Failure::FramesExist("out_image_tmp"@),
                ..state
            }
            } else {
                SessionView { stage: Stage::CreateOutputFrames, ..state }
            },
            Stage::CheckInputLeft => if answer {
                SessionView { stage: Stage::RemoveInput, ..state }
            } else {
                SessionView { stage: Stage::CheckOutputLeft, ..state }
            },
            Stage::CheckOutputLeft => if answer {
                SessionView { stage: Stage::RemoveOutput, ..state }
            } else {
                SessionView { stage: Stage::ShowCleaned, ..state }
            },
            _ => state,
        },
{
}

/// The program's directory is the one that its path lies in.
#[verifier::rlimit(60)]
pub proof fn law_the_program_is_located(state: SessionView, path: String)
    ensures
        state.next(Event::Located(path)) == match state.stage {
            Stage::Locate => match paths::parent_path(path@) {
                Some(dir) => SessionView { stage: Stage::Enter, exe_dir: dir, ..state },
                None => SessionView {
                stage: Stage::Failed,
                failure: Failure::NoProgramDir,
                ..state
            },
            },
            _ => state,
        },
{
}

/// A configuration that was read is taken over.
#[verifier::rlimit(60)]
pub proof fn law_the_configuration_is_taken_over(state: SessionView, config: config::Config)
    ensures
        state.next(Event::Loaded(config)) == match state.stage {
            Stage::LoadConfig => SessionView { stage: Stage::ListSearchDirs, config: config@, ..state },
            _ => state,
        },
{
}

/// A configuration file that does not hold a configuration ends the run, and is named.
#[verifier::rlimit(60)]
pub proof fn law_a_malformed_configuration_ends_the_run(state: SessionView)
    ensures
        state.next(Event::Malformed) == match state.stage {
            Stage::LoadConfig => SessionView {
                stage: Stage::Failed,
                failure: Failure::ConfigFormat(paths::joined_path(state.exe_dir, "config.yaml"@)),
                ..state
            },
            _ => state,
        },
{
}

/// The search path is taken over.
#[verifier::rlimit(60)]
pub proof fn law_the_search_path_is_taken_over(state: SessionView, dirs: Vec<String>)
    ensures
        state.next(Event::SearchDirs(dirs)) == match state.stage {
            Stage::ListSearchDirs => SessionView { stage: Stage::FindFfmpeg, search_dirs: text::texts(dirs@), ..state },
            _ => state,
        },
{
}

/// The files that were found settle the paths of the tools, and whether Real-ESRGAN is there.
#[verifier::rlimit(60)]
pub proof fn law_found_files_settle_the_tools(state: SessionView, answers: Vec<bool>)
    ensures
        state.next(Event::Probed(answers)) == match state.stage {
            Stage::FindFfmpeg => SessionView {
                stage: Stage::FindFfprobe,
                ffmpeg: tools::tool_path(
                    tools::tool_places(
                        state.exe_dir,
                        state.config.ffmpeg_path,
                        if state.windows {
                            "ffmpeg"@ + ".exe"@
                        } else {
                            "ffmpeg"@
                        },
                        state.search_dirs,
                    ),
                    answers@,
                ),
                ..state
            },
            Stage::FindFfprobe => SessionView {
                stage: Stage::FindUpscaler,
                ffprobe: tools::tool_path(
                    tools::tool_places(
                        state.exe_dir,
                        state.config.ffprobe_path,
                        if state.windows {
                            "ffprobe"@ + ".exe"@
                        } else {
                            "ffprobe"@
                        },
                        state.search_dirs,
                    ),
                    answers@,
                ),
                ..state
            },
            Stage::FindUpscaler => SessionView {
                stage: Stage::Welcome,
                upscaler: tools::tool_path(
                    tools::tool_places(
                        state.exe_dir,
                        state.config.realesrgan_path,
                        if state.windows {
                            "realesrgan-ncnn-vulkan"@ + ".exe"@
                        } else {
                            "realesrgan-ncnn-vulkan"@
                        },
                        state.search_dirs,
                    ),
                    answers@,
                ),
                ..state
            },
            Stage::CheckUpscaler => SessionView {
                stage: Stage::ShowUpscaler,
                upscaler_found: exists|i: int|
                    {
                        &&& 0 <= i < answers@.len()
                        &&& #[trigger] answers@[i]
                        &&& i == 0 || i <= state.search_dirs.len() && paths::last_component(
                            state.upscaler,
                        ) is Some
                    },
                ..state
            },
            _ => state,
        },
{
    tools::law_a_tool_exists_where_a_place_is_a_file(state.upscaler, state.search_dirs, answers@);
}

/// What was printed settles the version of ffmpeg, however it ended, and the frame rate, where
/// ffprobe ended well and printed one.
#[verifier::rlimit(60)]
pub proof fn law_printed_text_settles_version_and_rate(state: SessionView, success: bool, stdout: Vec<u8>)
    ensures
        state.next(Event::Printed { success, stdout }) == match state.stage {
            Stage::QueryVersion => SessionView { stage: Stage::ShowVersion, version: text::head_line(tools::lossy_text(stdout@)), ..state },
            Stage::Probe => if !success {
                SessionView {
                stage: Stage::Failed,
                failure: Failure::ProbeFailed,
                ..state
            }
            } else if text::stripped(tools::lossy_text(stdout@), text::Strip::Space).len() == 0 {
                SessionView {
                stage: Stage::Failed,
                failure: Failure::NoRate,
                ..state
            }
            } else {
                SessionView {
                    stage: Stage::ShowRate,
                    rate: text::stripped(tools::lossy_text(stdout@), text::Strip::Space),
                    ..state
                }
            },
            _ => state,
        },
{
}

/// What the user typed settles the video and the output directory, each resolved from the
/// program's directory. No answer is no video, and leaves the output directory at its default. Any
/// line ends a run that has succeeded.
#[verifier::rlimit(60)]
pub proof fn law_answers_settle_video_and_output(state: SessionView, line: String)
    ensures
        state.next(Event::Line(line)) == match state.stage {
            Stage::AskVideo => if text::answered(line@).len() == 0 {
                SessionView {
                stage: Stage::Failed,
                failure: Failure::NoVideo,
                ..state
            }
            } else {
                SessionView {
                    stage: Stage::CheckVideo,
                    video: paths::resolved_path(state.exe_dir, text::answered(line@)),
                    ..state
                }
            },
            Stage::AskOutput => SessionView {
                stage: Stage::ShowOutput,
                output_dir: if text::answered(line@).len() == 0 {
                    config::default_output(state.exe_dir, state.config.output_dir)
                } else {
                    paths::resolved_path(state.exe_dir, text::answered(line@))
                },
                ..state
            },
            Stage::AskExit => SessionView { stage: Stage::Finished, ..state },
            _ => state,
        },
{
}

/// A program that ended takes a run on where it ended well. ffmpeg ends the run with its exit code
/// where it did not; what Real-ESRGAN ended with is kept until its frames are counted.
#[verifier::rlimit(60)]
pub proof fn law_exits_are_taken_in(state: SessionView, success: bool, code: Option<i32>)
    ensures
        state.next(Event::Exited { success, code }) == match state.stage {
            Stage::Export => if success {
                SessionView { stage: Stage::CountFrames, ..state }
            } else {
                SessionView {
                stage: Stage::Failed,
                failure: Failure::ExportFailed(code),
                ..state
            }
            },
            Stage::Poll => SessionView { stage: Stage::CountLast, upscaled: success, upscale_code: code, ..state },
            Stage::Compose => if success {
                SessionView { stage: Stage::ShowComplete, ..state }
            } else {
                SessionView {
                stage: Stage::Failed,
                failure: Failure::ComposeFailed(code),
                ..state
            }
            },
            _ => state,
        },
{
}

/// A program that has not ended is waited for.
#[verifier::rlimit(60)]
pub proof fn law_a_running_program_is_waited_for(state: SessionView)
    ensures
        state.next(Event::Running) == match state.stage {
            Stage::Poll => SessionView { stage: Stage::Wait, ..state },
            _ => state,
        },
{
}

/// The files that are listed are counted, all of them: those in the directory for frames once the
/// video is taken apart, and those in the other as it fills.
#[verifier::rlimit(60)]
pub proof fn law_listed_frames_are_counted(state: SessionView, listing: tools::Listing)
    ensures
        ({
            let next = state.next(Event::Listed(listing));
            match state.stage {
                Stage::CountFrames => {
                    &&& next.frames as nat == tools::file_count(listing)
                    &&& next == SessionView {
                        stage: Stage::ShowFrames,
                        frames: next.frames,
                        ..state
                    }
                },
                Stage::CountDone => {
                    &&& next.done as nat == tools::file_count(listing)
                    &&& next == SessionView {
                        stage: Stage::MoveProgress,
                        done: next.done,
                        ..state
                    }
                },
                Stage::CountLast => {
                    &&& next.done as nat == tools::file_count(listing)
                    &&& next == SessionView { stage: Stage::MoveLast, done: next.done, ..state }
                },
                _ => next == state,
            }
        }),
{
    if let tools::Listing::Entries(entries) = listing {
        tools::law_files_are_entries(entries);
    }
}

/// A run begins by locating its program, and with no tool found and no frame enlarged.
pub proof fn law_a_run_begins_with_its_program(windows: bool)
    ensures
        session::start(windows).action() is LocateProgram,
        session::start(windows).stage == Stage::Locate,
        session::start(windows).windows == windows,
        session::start(windows).version is None,
        !session::start(windows).upscaler_found,
        !session::start(windows).upscaled,
{
}

/// The video is put together at the rate that ffprobe printed for it, read and written: what was
/// printed between white space is what ffmpeg is told both times.
pub proof fn law_the_video_keeps_its_rate(windows: bool, events: Seq<Event>)
    requires
        after(windows, events).stage == Stage::Compose,
    ensures
        exists|i: int|
            {
                &&& 0 <= i < events.len()
                &&& #[trigger] asked(windows, events, i) is Capture
                &&& events[i] matches Event::Printed { success, stdout } && success && (after(
                    windows,
                    events,
                ).action() matches Action::Run(command) && command.args[1] == text::stripped(
                    tools::lossy_text(stdout@),
                    text::Strip::Space,
                ) && command.args[15] == command.args[1])
            },
{
    law_composing_asks_for_this_work(after(windows, events));
    let i = lemma_rate_probed(windows, events);
    assert(asked(windows, events, i) is Capture);
}

/// Real-ESRGAN is started with the model and the factor of the configuration that was read.
pub proof fn law_the_enlargement_is_the_configured_one(windows: bool, events: Seq<Event>)
    requires
        after(windows, events).action() is Spawn,
    ensures
        exists|i: int|
            {
                &&& 0 <= i < events.len()
                &&& #[trigger] asked(windows, events, i) is LoadConfig
                &&& events[i] matches Event::Loaded(config) && (after(
                    windows,
                    events,
                ).action() matches Action::Spawn(command) && command.args[5]
                    == config.realesrgan_model@ && command.args[7] == text::decimal_text(
                    config.realesrgan_scale as nat,
                ))
            },
{
    let state = after(windows, events);
    law_enlarging_asks_for_this_work(state);
    let i = lemma_passed_through(windows, events, Stage::LoadConfig);
    lemma_settled(after(windows, events.take(i)), events[i]);
    assert(config_read(windows, events, i, state));
    assert(asked(windows, events, i) is LoadConfig);
}

/// The video is written under the name of the one that it was made from, whatever the extension
/// of that is.
pub proof fn law_the_video_keeps_its_name(
    windows: bool,
    events: Seq<Event>,
    name: Seq<char>,
    extension: Seq<char>,
)
    requires
        after(windows, events).stage == Stage::Compose,
        name.len() > 0,
        !extension.contains('.'),
        paths::last_component(after(windows, events).video) == Some(
            name + seq!['.'] + extension,
        ),
    ensures
        after(windows, events).action() matches Action::Run(command) && command.args[18]
            == paths::joined_path(
            after(windows, events).output_dir,
            "out_"@ + name + ".mp4"@,
        ),
{
    law_composing_asks_for_this_work(after(windows, events));
    law_runs_follow_the_answers(windows, events);
    paths::law_an_extension_is_taken_off(name, extension);
}

} // verus!
