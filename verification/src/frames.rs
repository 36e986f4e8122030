//! Frame rectangles and the frame table.
//!
//! The metadata document has the shape
//! `{"frames": {"<name>": {"frame": {"x": .., "y": .., "w": .., "h": ..}}}}`;
//! only `frames.*.frame.{x,y,w,h}` are consumed and unknown members are
//! ignored. `frame_table_from_doc` validates that shape and flattens it to a
//! name-to-rectangle table, failing with a schema error on any mismatch.

use vstd::prelude::*;

use crate::errors::ResourceError;
use crate::json::{obj_lookup, JsonMember, JsonValue};

verus! {

/// Pixel offsets and dimensions of one sprite cell within the sheet image.
#[derive(Clone, Copy, PartialEq, Eq, Structural, Debug)]
pub struct FrameRect {
    pub x: u16,
    pub y: u16,
    pub w: u16,
    pub h: u16,
}

/// One named cell of the sheet.
pub struct FrameEntry {
    pub name: String,
    pub rect: FrameRect,
}

/// Mapping from frame name to its rectangle; names are unique.
pub struct FrameTable {
    entries: Vec<FrameEntry>,
}

/// The rectangle of the first entry named `name`, if any.
pub open spec fn table_lookup(entries: Seq<FrameEntry>, name: Seq<char>) -> Option<FrameRect>
    decreases entries.len(),
{
    if entries.len() == 0 {
        None
    } else if entries[0].name@ == name {
        Some(entries[0].rect)
    } else {
        table_lookup(entries.drop_first(), name)
    }
}

/// No two entries carry the same name.
pub open spec fn unique_names(entries: Seq<FrameEntry>) -> bool {
    forall|i: int, j: int|
        0 <= i < j < entries.len() ==> entries[i].name@ != entries[j].name@
}

/// The coordinate stored under `key`, when it is an integer fitting in `u16`.
pub open spec fn coord_of(f: Seq<JsonMember>, key: Seq<char>) -> Option<u16> {
    match obj_lookup(f, key) {
        Some(v) => match v {
            JsonValue::Int(n) => if 0 <= n <= 0xffff {
                Some(n as u16)
            } else {
                None
            },
            _ => None,
        },
        None => None,
    }
}

/// The rectangle described by one member of the `frames` object, when the
/// member's value is an object whose `frame` member is an object with the
/// four coordinates.
pub open spec fn member_rect(v: JsonValue) -> Option<FrameRect> {
    match v {
        JsonValue::Obj(cell) => match obj_lookup(cell@, "frame"@) {
            Some(fv) => match fv {
                JsonValue::Obj(f) => match (
                    coord_of(f@, "x"@),
                    coord_of(f@, "y"@),
                    coord_of(f@, "w"@),
                    coord_of(f@, "h"@),
                ) {
                    (Some(x), Some(y), Some(w), Some(h)) => Some(
                        FrameRect { x, y, w, h },
                    ),
                    _ => None,
                },
                _ => None,
            },
            None => None,
        },
        _ => None,
    }
}

/// The members of the `frames` object, when the document is an object whose
/// `frames` member is an object.
pub open spec fn doc_frames(doc: JsonValue) -> Option<Seq<JsonMember>> {
    match doc {
        JsonValue::Obj(top) => match obj_lookup(top@, "frames"@) {
            Some(fv) => match fv {
                JsonValue::Obj(fs) => Some(fs@),
                _ => None,
            },
            None => None,
        },
        _ => None,
    }
}

/// The names of the `frames` members, each paired with its rectangle; only
/// meaningful on a well-formed document.
pub open spec fn spec_frame_entries(fs: Seq<JsonMember>) -> Seq<FrameEntry> {
    fs.map(
        |i: int, m: JsonMember|
            FrameEntry {
                name: m.name,
                rect: match member_rect(m.value) {
                    Some(r) => r,
                    None => FrameRect { x: 0, y: 0, w: 0, h: 0 },
                },
            },
    )
}

/// The table a well-formed document flattens to; empty on a document with
/// no `frames` object.
pub open spec fn spec_frame_table_of(doc: JsonValue) -> Seq<FrameEntry> {
    match doc_frames(doc) {
        Some(fs) => spec_frame_entries(fs),
        None => Seq::empty(),
    }
}

/// The document matches the frame-table schema: a `frames` object whose
/// every member describes a rectangle, with no name repeated.
pub open spec fn doc_wellformed(doc: JsonValue) -> bool {
    match doc_frames(doc) {
        Some(fs) => {
            &&& (forall|i: int| 0 <= i < fs.len() ==> member_rect(#[trigger] fs[i].value) is Some)
            &&& unique_names(spec_frame_entries(fs))
        },
        None => false,
    }
}

impl FrameTable {
    /// The table as a sequence of named rectangles.
    pub closed spec fn view(&self) -> Seq<FrameEntry> {
        self.entries@
    }

    /// Table invariant: names are unique.
    pub open spec fn wf(&self) -> bool {
        unique_names(self@)
    }

    /// Number of entries.
    pub fn len(&self) -> (n: usize)
        ensures
            n == self@.len(),
    {
        self.entries.len()
    }

    /// The rectangle recorded under `name`, if any.
    pub fn lookup(&self, name: &String) -> (r: Option<FrameRect>)
        ensures
            r == table_lookup(self@, name@),
    {
        let mut i: usize = 0;
        proof {
            assert(self.entries@.skip(0) =~= self.entries@);
        }
        while i < self.entries.len()
            invariant
                i <= self.entries@.len(),
                table_lookup(self.entries@, name@) == table_lookup(
                    self.entries@.skip(i as int),
                    name@,
                ),
            decreases self.entries@.len() - i,
        {
            if self.entries[i].name == *name {
                proof {
                    assert(self.entries@.skip(i as int)[0] == self.entries@[i as int]);
                }
                return Some(self.entries[i].rect);
            }
            proof {
                assert(self.entries@.skip(i as int).drop_first() =~= self.entries@.skip(
                    i as int + 1,
                ));
            }
            i = i + 1;
        }
        None
    }
}

/// The coordinate stored under `key` of the object `f`, when it is an
/// integer fitting in `u16`.
fn coord_exec(f: &Vec<JsonMember>, key: &String) -> (r: Option<u16>)
    ensures
        r == coord_of(f@, key@),
{
    match crate::json::obj_get(f, key) {
        Some(i) => match &f[i].value {
            JsonValue::Int(n) => if 0 <= *n && *n <= 0xffff {
                Some(*n as u16)
            } else {
                None
            },
            _ => None,
        },
        None => None,
    }
}

/// The rectangle described by one member value of the `frames` object.
fn member_rect_exec(v: &JsonValue) -> (r: Option<FrameRect>)
    ensures
        r == member_rect(*v),
{
    let cell = match v {
        JsonValue::Obj(cell) => cell,
        _ => { return None },
    };
    let fi = match crate::json::obj_get(cell, &"frame".to_owned()) {
        Some(fi) => fi,
        None => { return None },
    };
    let f = match &cell[fi].value {
        JsonValue::Obj(f) => f,
        _ => { return None },
    };
    let x = match coord_exec(f, &"x".to_owned()) {
        Some(x) => x,
        None => { return None },
    };
    let y = match coord_exec(f, &"y".to_owned()) {
        Some(y) => y,
        None => { return None },
    };
    let w = match coord_exec(f, &"w".to_owned()) {
        Some(w) => w,
        None => { return None },
    };
    let h = match coord_exec(f, &"h".to_owned()) {
        Some(h) => h,
        None => { return None },
    };
    Some(FrameRect { x, y, w, h })
}

/// Validate a metadata document and flatten it into a frame table.
///
/// Returns the table exactly when the document matches the schema; any
/// mismatch — no `frames` object, a member that does not describe a
/// rectangle, or a repeated name — is a schema error.
pub fn frame_table_from_doc(doc: &JsonValue) -> (r: Result<FrameTable, ResourceError>)
    ensures
        match r {
            Ok(t) => {
                &&& doc_wellformed(*doc)
                &&& t@ == spec_frame_table_of(*doc)
                &&& t.wf()
            },
            Err(e) => {
                &&& !doc_wellformed(*doc)
                &&& e == ResourceError::Schema
            },
        },
{
    let top = match doc {
        JsonValue::Obj(top) => top,
        _ => { return Err(ResourceError::Schema) },
    };
    let fi = match crate::json::obj_get(top, &"frames".to_owned()) {
        Some(fi) => fi,
        None => { return Err(ResourceError::Schema) },
    };
    let fs = match &top[fi].value {
        JsonValue::Obj(fs) => fs,
        _ => { return Err(ResourceError::Schema) },
    };
    let ghost gfs = fs@;
    let mut out: Vec<FrameEntry> = Vec::new();
    let mut k: usize = 0;
    while k < fs.len()
        invariant
            k <= gfs.len(),
            fs@ == gfs,
            doc_frames(*doc) == Some(gfs),
            out@ == spec_frame_entries(gfs.take(k as int)),
            forall|i: int| 0 <= i < k ==> member_rect(#[trigger] gfs[i].value) is Some,
        decreases gfs.len() - k,
    {
        let rect = match member_rect_exec(&fs[k].value) {
            Some(rect) => rect,
            None => { return Err(ResourceError::Schema) },
        };
        out.push(FrameEntry { name: fs[k].name.clone(), rect });
        proof {
            assert(out@ =~= spec_frame_entries(gfs.take(k as int + 1)));
        }
        k = k + 1;
    }
    proof {
        assert(gfs.take(k as int) =~= gfs);
    }
    // Reject a repeated frame name: the table's keys must be unique.
    let mut a: usize = 0;
    while a < out.len()
        invariant
            doc_frames(*doc) == Some(gfs),
            out@ == spec_frame_entries(gfs),
            a <= out@.len(),
            unique_names(out@.take(a as int)),
        decreases out@.len() - a,
    {
        let mut b: usize = 0;
        while b < a
            invariant
                doc_frames(*doc) == Some(gfs),
                out@ == spec_frame_entries(gfs),
                b <= a < out@.len(),
                forall|j: int| 0 <= j < b ==> out@[j].name@ != out@[a as int].name@,
            decreases a - b,
        {
            if out[b].name == out[a].name {
                proof {
                    assert(!unique_names(out@)) by {
                        assert(out@[b as int].name@ == out@[a as int].name@);
                        assert(0 <= b < a < out@.len());
                    }
                }
                return Err(ResourceError::Schema);
            }
            b = b + 1;
        }
        proof {
            let s = out@.take(a as int + 1);
            assert forall|i: int, j: int| #![trigger s[i], s[j]] 0 <= i < j < s.len() implies s[i].name@
                != s[j].name@ by {
                assert(s[i] == out@[i]);
                assert(s[j] == out@[j]);
                if j < a as int {
                    assert(unique_names(out@.take(a as int)));
                    assert(out@.take(a as int)[i] == out@[i]);
                    assert(out@.take(a as int)[j] == out@[j]);
                }
            }
            assert(unique_names(s));
        }
        a = a + 1;
    }
    proof {
        assert(out@.take(a as int) =~= out@);
        assert(unique_names(out@));
    }
    Ok(FrameTable { entries: out })
}

} // verus!
