use sprite_anim::errors::{
    EnvironmentError, ImageLoadError, ResourceError, StartupError,
};
use sprite_anim::frames::{frame_table_from_doc, FrameTable};
use sprite_anim::json::{JsonMember, JsonValue};
use sprite_anim::playback::PlaybackState;
use sprite_anim::startup::{step, Startup, StartupAction, StartupEvent};

fn member(name: &str, value: JsonValue) -> JsonMember {
    JsonMember { name: name.to_string(), value }
}

fn obj(members: Vec<JsonMember>) -> JsonValue {
    JsonValue::Obj(members)
}

fn frame_cell(x: i64, y: i64, w: i64, h: i64) -> JsonValue {
    obj(vec![member(
        "frame",
        obj(vec![
            member("x", JsonValue::Int(x)),
            member("y", JsonValue::Int(y)),
            member("w", JsonValue::Int(w)),
            member("h", JsonValue::Int(h)),
        ]),
    )])
}

fn eight_frame_table() -> FrameTable {
    let cells: Vec<JsonMember> = (1..=8)
        .map(|i| member(&format!("Run ({}).png", i), frame_cell((i - 1) * 64, 0, 64, 64)))
        .collect();
    frame_table_from_doc(&obj(vec![member("frames", obj(cells))])).unwrap()
}

#[test]
fn metadata_then_image_starts_playback_only_at_the_end() {
    let (s, a) = step(Startup::Init, StartupEvent::ContextReady);
    assert!(matches!(a, StartupAction::BeginLoading));
    let (s, a) = step(s, StartupEvent::MetadataReady(eight_frame_table()));
    // Only one resource is ready: no playback yet.
    assert!(matches!(a, StartupAction::Wait));
    assert!(!matches!(s, Startup::Playing));
    let (s, a) = step(s, StartupEvent::ImageReady);
    assert!(matches!(s, Startup::Playing));
    match a {
        StartupAction::StartPlayback(table) => {
            assert_eq!(table.len(), 8);
        }
        _ => panic!("expected playback to start"),
    }
}

#[test]
fn image_then_metadata_starts_playback_only_at_the_end() {
    let (s, _) = step(Startup::Init, StartupEvent::ContextReady);
    let (s, a) = step(s, StartupEvent::ImageReady);
    assert!(matches!(a, StartupAction::Wait));
    assert!(!matches!(s, Startup::Playing));
    let (s, a) = step(s, StartupEvent::MetadataReady(eight_frame_table()));
    assert!(matches!(s, Startup::Playing));
    assert!(matches!(a, StartupAction::StartPlayback(_)));
}

#[test]
fn no_ticks_before_both_resources() {
    // Drive startup event by event; draw commands are only issued by ticks,
    // and ticking starts only on the StartPlayback action.
    let events = vec![
        StartupEvent::ContextReady,
        StartupEvent::ImageReady,
        StartupEvent::MetadataReady(eight_frame_table()),
    ];
    let mut state = Startup::Init;
    let mut draws = Vec::new();
    for (n, event) in events.into_iter().enumerate() {
        let (next, action) = step(state, event);
        state = next;
        if let StartupAction::StartPlayback(table) = action {
            // Both resources resolved only at the last event.
            assert_eq!(n, 2);
            let mut playback = PlaybackState::new(8);
            draws.push(playback.tick(&table).unwrap());
        } else {
            assert!(draws.is_empty());
        }
    }
    assert_eq!(draws.len(), 1);
}

#[test]
fn metadata_failure_aborts_and_playback_never_starts() {
    let (s, _) = step(Startup::Init, StartupEvent::ContextReady);
    let (s, a) = step(s, StartupEvent::MetadataFailed(ResourceError::Schema));
    assert!(matches!(a, StartupAction::Abort));
    assert!(matches!(
        s,
        Startup::Failed(StartupError::Resource(ResourceError::Schema))
    ));
    // Even when the image later loads, the machine stays failed and the
    // scheduler is never started.
    let (s, a) = step(s, StartupEvent::ImageReady);
    assert!(matches!(a, StartupAction::Wait));
    assert!(matches!(s, Startup::Failed(_)));
}

#[test]
fn transport_and_decode_failures_abort_startup() {
    let (s, _) = step(Startup::Init, StartupEvent::ContextReady);
    let (s, a) = step(s, StartupEvent::MetadataFailed(ResourceError::Transport));
    assert!(matches!(a, StartupAction::Abort));
    assert!(matches!(
        s,
        Startup::Failed(StartupError::Resource(ResourceError::Transport))
    ));

    let (s, _) = step(Startup::Init, StartupEvent::ContextReady);
    let (s, a) = step(s, StartupEvent::MetadataFailed(ResourceError::InvalidJson));
    assert!(matches!(a, StartupAction::Abort));
    assert!(matches!(
        s,
        Startup::Failed(StartupError::Resource(ResourceError::InvalidJson))
    ));
}

#[test]
fn image_failure_aborts_startup() {
    let (s, _) = step(Startup::Init, StartupEvent::ContextReady);
    let err = ImageLoadError { detail: "decode failed".to_string() };
    let (s, a) = step(s, StartupEvent::ImageFailed(err));
    assert!(matches!(a, StartupAction::Abort));
    assert!(matches!(s, Startup::Failed(StartupError::ImageLoad(_))));
}

#[test]
fn context_failure_aborts_startup() {
    let (s, a) = step(
        Startup::Init,
        StartupEvent::ContextFailed(EnvironmentError::NoCanvasElement),
    );
    assert!(matches!(a, StartupAction::Abort));
    assert!(matches!(
        s,
        Startup::Failed(StartupError::Environment(EnvironmentError::NoCanvasElement))
    ));
}

#[test]
fn duplicate_resource_event_is_a_protocol_violation() {
    let (s, _) = step(Startup::Init, StartupEvent::ContextReady);
    let (s, _) = step(s, StartupEvent::ImageReady);
    let (s, a) = step(s, StartupEvent::ImageReady);
    assert!(matches!(a, StartupAction::Abort));
    assert!(matches!(s, Startup::Failed(StartupError::Protocol)));
}
