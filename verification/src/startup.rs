//! Startup orchestration.
//!
//! Startup is a state machine driven by the host glue: the glue resolves
//! the drawing surface, fetches the metadata and loads the image, and feeds
//! the outcome of each as an event; `step` decides the next state and what
//! the glue must do. Playback begins only at the single transition that
//! emits `StartPlayback`, and that transition fires only once both the
//! frame table and the image are ready. Any failure is terminal: the
//! machine enters `Failed` and never leaves it. A failed image load aborts
//! startup explicitly — playback never begins with an unloaded image.

use vstd::prelude::*;

use crate::errors::{EnvironmentError, ImageLoadError, ResourceError, StartupError};
use crate::frames::FrameTable;

verus! {

/// An outcome of the host work that startup waits on.
pub enum StartupEvent {
    /// The drawing surface and its 2D context were resolved.
    ContextReady,
    /// The drawing surface could not be resolved.
    ContextFailed(EnvironmentError),
    /// The metadata document was fetched and validated into a frame table.
    MetadataReady(FrameTable),
    /// The metadata document could not be fetched or validated.
    MetadataFailed(ResourceError),
    /// The host finished decoding the sprite image.
    ImageReady,
    /// The host reported that the sprite image failed to load.
    ImageFailed(ImageLoadError),
}

/// Where startup stands.
pub enum Startup {
    /// Nothing has happened yet; the drawing surface is being resolved.
    Init,
    /// Both resource loads are in flight; each flag records what arrived.
    Loading { table: Option<FrameTable>, image_ready: bool },
    /// Playback has been handed the frame table and is running.
    Playing,
    /// Startup aborted; the machine never leaves this state.
    Failed(StartupError),
}

/// What the host glue must do after a step.
pub enum StartupAction {
    /// Nothing; keep waiting for events.
    Wait,
    /// Start the metadata fetch and the image load.
    BeginLoading,
    /// Hand the frame table and the image to the playback loop.
    StartPlayback(FrameTable),
    /// Log the error held in the `Failed` state and stop.
    Abort,
}

/// The transition relation of startup: next state and required action.
///
/// An event that its state cannot accept — a resource outcome before
/// loading began, or a second outcome for a resource that already has one —
/// is a protocol violation and aborts startup. Events reaching a terminal
/// state change nothing.
pub open spec fn spec_step(s: Startup, e: StartupEvent) -> (Startup, StartupAction) {
    match s {
        Startup::Init => match e {
            StartupEvent::ContextReady => (
                Startup::Loading { table: None, image_ready: false },
                StartupAction::BeginLoading,
            ),
            StartupEvent::ContextFailed(err) => (
                Startup::Failed(StartupError::Environment(err)),
                StartupAction::Abort,
            ),
            _ => (Startup::Failed(StartupError::Protocol), StartupAction::Abort),
        },
        Startup::Loading { table, image_ready } => match e {
            StartupEvent::ContextReady => (
                Startup::Failed(StartupError::Protocol),
                StartupAction::Abort,
            ),
            StartupEvent::ContextFailed(err) => (
                Startup::Failed(StartupError::Protocol),
                StartupAction::Abort,
            ),
            StartupEvent::MetadataReady(tbl) => if table is Some {
                (Startup::Failed(StartupError::Protocol), StartupAction::Abort)
            } else if image_ready {
                (Startup::Playing, StartupAction::StartPlayback(tbl))
            } else {
                (
                    Startup::Loading { table: Some(tbl), image_ready },
                    StartupAction::Wait,
                )
            },
            StartupEvent::MetadataFailed(err) => (
                Startup::Failed(StartupError::Resource(err)),
                StartupAction::Abort,
            ),
            StartupEvent::ImageReady => if image_ready {
                (Startup::Failed(StartupError::Protocol), StartupAction::Abort)
            } else {
                match table {
                    Some(tbl) => (Startup::Playing, StartupAction::StartPlayback(tbl)),
                    None => (
                        Startup::Loading { table: None, image_ready: true },
                        StartupAction::Wait,
                    ),
                }
            },
            StartupEvent::ImageFailed(err) => (
                Startup::Failed(StartupError::ImageLoad(err)),
                StartupAction::Abort,
            ),
        },
        Startup::Playing => (Startup::Playing, StartupAction::Wait),
        Startup::Failed(err) => (Startup::Failed(err), StartupAction::Wait),
    }
}

/// One step of startup: feed an event, get the next state and the action
/// the host glue must perform.
pub fn step(state: Startup, event: StartupEvent) -> (r: (Startup, StartupAction))
    ensures
        r == spec_step(state, event),
        r.1 is StartPlayback ==> r.0 is Playing && !(state is Playing),
{
    match state {
        Startup::Init => match event {
            StartupEvent::ContextReady => (
                Startup::Loading { table: None, image_ready: false },
                StartupAction::BeginLoading,
            ),
            StartupEvent::ContextFailed(err) => (
                Startup::Failed(StartupError::Environment(err)),
                StartupAction::Abort,
            ),
            _ => (Startup::Failed(StartupError::Protocol), StartupAction::Abort),
        },
        Startup::Loading { table, image_ready } => match event {
            StartupEvent::ContextReady => (
                Startup::Failed(StartupError::Protocol),
                StartupAction::Abort,
            ),
            StartupEvent::ContextFailed(_) => (
                Startup::Failed(StartupError::Protocol),
                StartupAction::Abort,
            ),
            StartupEvent::MetadataReady(tbl) => if table.is_some() {
                (Startup::Failed(StartupError::Protocol), StartupAction::Abort)
            } else if image_ready {
                (Startup::Playing, StartupAction::StartPlayback(tbl))
            } else {
                (
                    Startup::Loading { table: Some(tbl), image_ready },
                    StartupAction::Wait,
                )
            },
            StartupEvent::MetadataFailed(err) => (
                Startup::Failed(StartupError::Resource(err)),
                StartupAction::Abort,
            ),
            StartupEvent::ImageReady => if image_ready {
                (Startup::Failed(StartupError::Protocol), StartupAction::Abort)
            } else {
                match table {
                    Some(tbl) => (Startup::Playing, StartupAction::StartPlayback(tbl)),
                    None => (
                        Startup::Loading { table: None, image_ready: true },
                        StartupAction::Wait,
                    ),
                }
            },
            StartupEvent::ImageFailed(err) => (
                Startup::Failed(StartupError::ImageLoad(err)),
                StartupAction::Abort,
            ),
        },
        Startup::Playing => (Startup::Playing, StartupAction::Wait),
        Startup::Failed(err) => (Startup::Failed(err), StartupAction::Wait),
    }
}

/// The state after feeding `events`, in order, from the initial state.
pub open spec fn spec_run(events: Seq<StartupEvent>) -> Startup
    decreases events.len(),
{
    if events.len() == 0 {
        Startup::Init
    } else {
        spec_step(spec_run(events.drop_last()), events.last()).0
    }
}

/// Some event reports the frame table ready.
pub open spec fn has_metadata_ok(events: Seq<StartupEvent>) -> bool {
    exists|i: int| 0 <= i < events.len() && (#[trigger] events[i]) is MetadataReady
}

/// Some event reports the image loaded.
pub open spec fn has_image_ok(events: Seq<StartupEvent>) -> bool {
    exists|i: int| 0 <= i < events.len() && (#[trigger] events[i]) is ImageReady
}

/// Law: playback begins only after both resources have completed
/// successfully — whatever order the events arrive in, the machine is in
/// `Playing` only if the history holds both a metadata-ready and an
/// image-ready event; while loading, each recorded resource is backed by
/// its event.
pub proof fn lemma_no_playback_before_both(events: Seq<StartupEvent>)
    ensures
        spec_run(events) is Playing ==> has_metadata_ok(events) && has_image_ok(events),
        (spec_run(events) matches Startup::Loading { table, image_ready } ==> {
            &&& (table is Some ==> has_metadata_ok(events))
            &&& (image_ready ==> has_image_ok(events))
        }),
    decreases events.len(),
{
    if events.len() > 0 {
        let prefix = events.drop_last();
        lemma_no_playback_before_both(prefix);
        assert(forall|i: int|
            0 <= i < prefix.len() ==> prefix[i] == #[trigger] events[i]);
        if has_metadata_ok(prefix) {
            let i = choose|i: int| 0 <= i < prefix.len() && (#[trigger] prefix[i]) is MetadataReady;
            assert(events[i] is MetadataReady);
        }
        if has_image_ok(prefix) {
            let i = choose|i: int| 0 <= i < prefix.len() && (#[trigger] prefix[i]) is ImageReady;
            assert(events[i] is ImageReady);
        }
        if events.last() is MetadataReady {
            assert(events[events.len() - 1] is MetadataReady);
        }
        if events.last() is ImageReady {
            assert(events[events.len() - 1] is ImageReady);
        }
    }
}

/// Law: a startup that never saw the metadata succeed never plays; in
/// particular, when the metadata fetch fails, the scheduler is never
/// started.
pub proof fn lemma_no_playback_without_metadata(events: Seq<StartupEvent>)
    ensures
        !has_metadata_ok(events) ==> !(spec_run(events) is Playing),
{
    lemma_no_playback_before_both(events);
}

/// Law: failure is terminal. Once the machine has failed after some prefix
/// of the events, it is still failed, with the same error, after all of
/// them.
pub proof fn lemma_failure_is_terminal(events: Seq<StartupEvent>, k: int)
    requires
        0 <= k <= events.len(),
        spec_run(events.take(k)) is Failed,
    ensures
        spec_run(events) == spec_run(events.take(k)),
    decreases events.len() - k,
{
    if k < events.len() {
        assert(events.take(k + 1).drop_last() =~= events.take(k));
        assert(events.take(k + 1).last() == events[k]);
        lemma_failure_is_terminal(events, k + 1);
    } else {
        assert(events.take(k) =~= events);
    }
}

/// Law: the action of a step begins playback only when the history up to
/// and including that step holds both successful resource events.
pub proof fn lemma_playback_action_needs_both(events: Seq<StartupEvent>, e: StartupEvent)
    ensures
        spec_step(spec_run(events), e).1 is StartPlayback ==> has_metadata_ok(events.push(e))
            && has_image_ok(events.push(e)),
{
    let all = events.push(e);
    assert(all.drop_last() =~= events);
    assert(all.last() == e);
    lemma_no_playback_before_both(all);
    if spec_step(spec_run(events), e).1 is StartPlayback {
        assert(spec_run(all) == spec_step(spec_run(events), e).0);
        assert(spec_run(all) is Playing);
    }
}

} // verus!
