use sprite_anim::errors::ResourceError;
use sprite_anim::frames::{frame_table_from_doc, FrameRect};
use sprite_anim::json::{JsonMember, JsonValue};

fn member(name: &str, value: JsonValue) -> JsonMember {
    JsonMember { name: name.to_string(), value }
}

fn obj(members: Vec<JsonMember>) -> JsonValue {
    JsonValue::Obj(members)
}

fn frame_cell(x: i64, y: i64, w: i64, h: i64) -> JsonValue {
    obj(vec![member(
        "frame",
        obj(vec![
            member("x", JsonValue::Int(x)),
            member("y", JsonValue::Int(y)),
            member("w", JsonValue::Int(w)),
            member("h", JsonValue::Int(h)),
        ]),
    )])
}

fn run_doc(count: i64) -> JsonValue {
    let cells: Vec<JsonMember> = (1..=count)
        .map(|i| member(&format!("Run ({}).png", i), frame_cell((i - 1) * 64, 0, 64, 64)))
        .collect();
    obj(vec![member("frames", obj(cells))])
}

#[test]
fn missing_frames_key_is_schema_error() {
    let doc = obj(vec![member("meta", JsonValue::Str("dropship".to_string()))]);
    let r = frame_table_from_doc(&doc);
    assert!(matches!(r, Err(ResourceError::Schema)));
}

#[test]
fn non_object_document_is_schema_error() {
    assert!(matches!(frame_table_from_doc(&JsonValue::Null), Err(ResourceError::Schema)));
    assert!(matches!(
        frame_table_from_doc(&JsonValue::Arr(vec![JsonValue::Int(1)])),
        Err(ResourceError::Schema)
    ));
}

#[test]
fn frames_not_an_object_is_schema_error() {
    let doc = obj(vec![member("frames", JsonValue::Int(8))]);
    assert!(matches!(frame_table_from_doc(&doc), Err(ResourceError::Schema)));
}

#[test]
fn cell_without_frame_member_is_schema_error() {
    let doc = obj(vec![member(
        "frames",
        obj(vec![member("Run (1).png", obj(vec![member("rotated", JsonValue::Bool(false))]))]),
    )]);
    assert!(matches!(frame_table_from_doc(&doc), Err(ResourceError::Schema)));
}

#[test]
fn fractional_coordinate_is_schema_error() {
    let cell = obj(vec![member(
        "frame",
        obj(vec![
            member("x", JsonValue::NonInt),
            member("y", JsonValue::Int(0)),
            member("w", JsonValue::Int(64)),
            member("h", JsonValue::Int(64)),
        ]),
    )]);
    let doc = obj(vec![member("frames", obj(vec![member("Run (1).png", cell)]))]);
    assert!(matches!(frame_table_from_doc(&doc), Err(ResourceError::Schema)));
}

#[test]
fn out_of_range_coordinate_is_schema_error() {
    let too_big = obj(vec![member("frames", obj(vec![member("Run (1).png", frame_cell(65536, 0, 64, 64))]))]);
    assert!(matches!(frame_table_from_doc(&too_big), Err(ResourceError::Schema)));
    let negative = obj(vec![member("frames", obj(vec![member("Run (1).png", frame_cell(-1, 0, 64, 64))]))]);
    assert!(matches!(frame_table_from_doc(&negative), Err(ResourceError::Schema)));
}

#[test]
fn missing_coordinate_is_schema_error() {
    let cell = obj(vec![member(
        "frame",
        obj(vec![
            member("x", JsonValue::Int(0)),
            member("y", JsonValue::Int(0)),
            member("w", JsonValue::Int(64)),
        ]),
    )]);
    let doc = obj(vec![member("frames", obj(vec![member("Run (1).png", cell)]))]);
    assert!(matches!(frame_table_from_doc(&doc), Err(ResourceError::Schema)));
}

#[test]
fn repeated_frame_name_is_schema_error() {
    let doc = obj(vec![member(
        "frames",
        obj(vec![
            member("Run (1).png", frame_cell(0, 0, 64, 64)),
            member("Run (1).png", frame_cell(64, 0, 64, 64)),
        ]),
    )]);
    assert!(matches!(frame_table_from_doc(&doc), Err(ResourceError::Schema)));
}

#[test]
fn valid_document_flattens_to_table() {
    let table = frame_table_from_doc(&run_doc(8)).unwrap();
    assert_eq!(table.len(), 8);
    assert_eq!(
        table.lookup(&"Run (1).png".to_string()),
        Some(FrameRect { x: 0, y: 0, w: 64, h: 64 })
    );
    assert_eq!(
        table.lookup(&"Run (8).png".to_string()),
        Some(FrameRect { x: 448, y: 0, w: 64, h: 64 })
    );
    assert_eq!(table.lookup(&"Run (9).png".to_string()), None);
    assert_eq!(table.lookup(&"Walk (1).png".to_string()), None);
}

#[test]
fn unknown_members_are_ignored() {
    let cell = obj(vec![
        member("rotated", JsonValue::Bool(false)),
        member(
            "frame",
            obj(vec![
                member("x", JsonValue::Int(10)),
                member("y", JsonValue::Int(20)),
                member("w", JsonValue::Int(30)),
                member("h", JsonValue::Int(40)),
                member("pivot", JsonValue::NonInt),
            ]),
        ),
        member("sourceSize", obj(vec![member("w", JsonValue::Int(64))])),
    ]);
    let doc = obj(vec![
        member("frames", obj(vec![member("Run (1).png", cell)])),
        member("meta", JsonValue::Str("exporter".to_string())),
    ]);
    let table = frame_table_from_doc(&doc).unwrap();
    assert_eq!(table.len(), 1);
    assert_eq!(
        table.lookup(&"Run (1).png".to_string()),
        Some(FrameRect { x: 10, y: 20, w: 30, h: 40 })
    );
}
