//! Parser for input log data: the binary container format, and the
//! conversion of a deserialized JSON tree into an `InputLog`.
//!
//! The binary format is a 32-byte little-endian header (magic "ILOG",
//! version, flags, target FPS, frame count, event count) followed by one
//! 24-byte record per event.

use crate::log::{
    spec_event_has_id, spec_has_mapping, spec_sorted_by_id, ButtonState, InputEvent, InputKind,
    InputLog, InputMapping, LogMetadata,
};
use crate::text::{spec_decimal, u64_to_dec};
use vstd::prelude::*;
use vstd::string::{StringExecFns, StringSliceAdditionalSpecFns};

verus! {

/// Errors that can occur during input log parsing.
#[derive(Debug)]
pub enum ParseError {
    /// The JSON text could not be parsed.  Line and column are 1-indexed
    /// positions within the text; zero means the position is unknown.
    JsonSyntax { message: String, line: usize, column: usize },
    /// A required field is missing from the JSON structure.
    MissingField { field: &'static str },
    /// A color string is not of the form "#RRGGBB".
    InvalidColor { value: String },
    /// An enum-valued field holds an unknown name.
    InvalidEnumValue { field: &'static str, value: String, expected: &'static str },
    /// The format version is not supported.
    UnsupportedVersion { version: u32 },
    /// A binary file does not start with the magic bytes "ILOG".
    InvalidMagic { found: [u8; 4] },
    /// A binary file is too small to contain the header.
    FileTooSmall { expected: usize, found: usize },
    /// A binary event record holds an invalid kind or state.
    InvalidBinaryEvent { index: usize, reason: String },
    /// The event count in the header does not match the file size.
    EventCountMismatch { header_count: u64, actual_count: usize },
}

/// Size of the binary header in bytes.
pub const BINARY_HEADER_SIZE: usize = 32;

/// Size of one binary event record in bytes.
pub const BINARY_EVENT_SIZE: usize = 24;

/// Binary file header.
#[derive(Clone, Copy, Debug)]
pub struct BinaryHeader {
    /// Magic bytes identifying the format: "ILOG".
    pub magic: [u8; 4],
    /// Format version number (currently 1).
    pub version: u32,
    /// Reserved flags, currently unused.
    pub flags: u32,
    /// Target frames per second of the original game.
    pub target_fps: u32,
    /// Total number of frames in the log.
    pub frame_count: u64,
    /// Total number of events in the file.
    pub event_count: u64,
}

/// The magic bytes "ILOG".
pub open spec fn spec_magic_bytes() -> Seq<u8> {
    seq![0x49u8, 0x4Cu8, 0x4Fu8, 0x47u8]
}

impl BinaryHeader {
    /// Validate the header: the magic must read "ILOG" and the version must
    /// be 1.
    pub fn validate(&self) -> (r: Result<(), ParseError>)
        ensures
            ({
                if self.magic@ != spec_magic_bytes() {
                    match r {
                        Err(ParseError::InvalidMagic { found }) => found == self.magic,
                        _ => false,
                    }
                } else if self.version != 1 {
                    match r {
                        Err(ParseError::UnsupportedVersion { version }) => version
                            == self.version,
                        _ => false,
                    }
                } else {
                    r is Ok
                }
            }),
    {
        if !(self.magic[0] == 0x49 && self.magic[1] == 0x4C && self.magic[2] == 0x4F
            && self.magic[3] == 0x47) {
            proof {
                assert(self.magic@ != spec_magic_bytes());
            }
            return Err(ParseError::InvalidMagic { found: self.magic });
        }
        proof {
            assert(self.magic@ =~= spec_magic_bytes());
        }
        if self.version != 1 {
            return Err(ParseError::UnsupportedVersion { version: self.version });
        }
        Ok(())
    }
}

/// One binary event record.
#[derive(Clone, Copy, Debug)]
pub struct BinaryEvent {
    /// Frame number when this event occurred.
    pub frame: u64,
    /// Input identifier.
    pub id: u32,
    /// Input kind tag (0 = Button, 1 = Axis1D, 2 = Axis2D).
    pub kind: u8,
    /// Button state tag (0 = Released, 1 = Pressed, 2 = Held).
    pub state: u8,
    /// Alignment padding, unused.
    pub _padding: [u8; 2],
    /// Axis payload as IEEE 754 bit patterns.
    pub value: [u32; 2],
}

/// The input kind for a valid kind tag.
pub open spec fn spec_kind_of(tag: u8) -> InputKind
    recommends
        tag < 3,
{
    if tag == 0 {
        InputKind::Button
    } else if tag == 1 {
        InputKind::Axis1D
    } else {
        InputKind::Axis2D
    }
}

/// The button state for a valid state tag.
pub open spec fn spec_state_of(tag: u8) -> ButtonState
    recommends
        tag < 3,
{
    if tag == 0 {
        ButtonState::Released
    } else if tag == 1 {
        ButtonState::Pressed
    } else {
        ButtonState::Held
    }
}

impl BinaryEvent {
    /// Convert the record to an `InputEvent`; the kind and state tags must
    /// both be below 3.
    pub fn to_input_event(self, index: usize) -> (r: Result<InputEvent, ParseError>)
        ensures
            ({
                if self.kind < 3 && self.state < 3 {
                    match r {
                        Ok(e) => e == (InputEvent {
                            frame: self.frame,
                            id: self.id,
                            kind: spec_kind_of(self.kind),
                            state: spec_state_of(self.state),
                            value: self.value,
                        }),
                        _ => false,
                    }
                } else {
                    match r {
                        Err(ParseError::InvalidBinaryEvent { index: i, reason: _ }) => i
                            == index,
                        _ => false,
                    }
                }
            }),
    {
        let kind = match self.kind {
            0 => InputKind::Button,
            1 => InputKind::Axis1D,
            2 => InputKind::Axis2D,
            _ => {
                let mut reason = String::from_str("invalid kind value: ");
                let digits = u64_to_dec(self.kind as u64);
                reason.append(digits.as_str());
                return Err(ParseError::InvalidBinaryEvent { index, reason });
            },
        };
        let state = match self.state {
            0 => ButtonState::Released,
            1 => ButtonState::Pressed,
            2 => ButtonState::Held,
            _ => {
                let mut reason = String::from_str("invalid state value: ");
                let digits = u64_to_dec(self.state as u64);
                reason.append(digits.as_str());
                return Err(ParseError::InvalidBinaryEvent { index, reason });
            },
        };
        Ok(InputEvent { frame: self.frame, id: self.id, kind, state, value: self.value })
    }
}

/// The little-endian 32-bit value stored at the given byte offset.
pub open spec fn spec_le_u32(b: Seq<u8>, off: int) -> int
    recommends
        0 <= off,
        off + 4 <= b.len(),
{
    b[off] + 0x100 * b[off + 1] + 0x1_0000 * b[off + 2] + 0x100_0000 * b[off + 3]
}

/// The little-endian 64-bit value stored at the given byte offset.
pub open spec fn spec_le_u64(b: Seq<u8>, off: int) -> int
    recommends
        0 <= off,
        off + 8 <= b.len(),
{
    spec_le_u32(b, off) + 0x1_0000_0000 * spec_le_u32(b, off + 4)
}

/// Read a little-endian u32 from a byte slice.
fn read_le_u32(data: &[u8], off: usize) -> (r: u32)
    requires
        off + 4 <= data@.len(),
    ensures
        r == spec_le_u32(data@, off as int),
{
    (data[off] as u32) + 0x100 * (data[off + 1] as u32) + 0x1_0000 * (data[off + 2] as u32)
        + 0x100_0000 * (data[off + 3] as u32)
}

/// Read a little-endian u64 from a byte slice.
fn read_le_u64(data: &[u8], off: usize) -> (r: u64)
    requires
        off + 8 <= data@.len(),
    ensures
        r == spec_le_u64(data@, off as int),
{
    let n = data.len();
    proof {
        assert(off + 8 <= n);
    }
    let lo = read_le_u32(data, off);
    let hi = read_le_u32(data, off + 4);
    (lo as u64) + 0x1_0000_0000u64 * (hi as u64)
}

/// Whether the event record at index `i` holds valid kind and state tags.
pub open spec fn spec_bin_event_ok(b: Seq<u8>, i: int) -> bool
    recommends
        0 <= i,
        32 + 24 * i + 24 <= b.len(),
{
    b[32 + 24 * i + 12] < 3 && b[32 + 24 * i + 13] < 3
}

/// The decoded event record at index `i`.
pub open spec fn spec_bin_event(b: Seq<u8>, i: int) -> InputEvent
    recommends
        0 <= i,
        32 + 24 * i + 24 <= b.len(),
        spec_bin_event_ok(b, i),
{
    let off = 32 + 24 * i;
    InputEvent {
        frame: spec_le_u64(b, off) as u64,
        id: spec_le_u32(b, off + 8) as u32,
        kind: spec_kind_of(b[off + 12]),
        state: spec_state_of(b[off + 13]),
        value: [spec_le_u32(b, off + 16) as u32, spec_le_u32(b, off + 20) as u32],
    }
}

/// The display name of an auto-generated mapping in a binary log.
pub open spec fn spec_bin_fallback_name(id: u32) -> Seq<char> {
    "Input "@ + spec_decimal(id as int)
}

/// The sequence is strictly ascending.
spec fn spec_ids_strictly_sorted(s: Seq<u32>) -> bool {
    forall|i: int, j: int| 0 <= i < j < s.len() ==> s[i] < s[j]
}

/// Insert an ID into a strictly ascending sequence, skipping duplicates.
fn insert_sorted_unique_id(v: &mut Vec<u32>, x: u32)
    requires
        spec_ids_strictly_sorted(old(v)@),
    ensures
        spec_ids_strictly_sorted(final(v)@),
        forall|y: u32| final(v)@.contains(y) <==> old(v)@.contains(y) || y == x,
{
    let ghost s0 = v@;
    let n = v.len();
    let mut k: usize = 0;
    while k < n && v[k] < x
        invariant
            0 <= k <= n,
            n == v@.len(),
            v@ == s0,
            forall|j: int| 0 <= j < k ==> s0[j] < x,
        decreases n - k,
    {
        k = k + 1;
    }
    if k < n && v[k] == x {
        proof {
            assert(s0.contains(x)) by {
                assert(s0[k as int] == x);
            }
        }
        return ;
    }
    v.insert(k, x);
    proof {
        s0.insert_ensures(k as int, x);
        let ins = s0.insert(k as int, x);
        assert(v@ == ins);
        assert forall|i: int, j: int| 0 <= i < j < ins.len() implies ins[i] < ins[j] by {
            if j < k {
                assert(ins[i] == s0[i] && ins[j] == s0[j]);
            } else if j == k {
                assert(ins[i] == s0[i] && ins[j] == x);
            } else if i < k {
                assert(ins[i] == s0[i] && ins[j] == s0[j - 1]);
                if i < j - 1 {
                    assert(s0[i] < s0[j - 1]);
                }
            } else if i == k {
                assert(ins[i] == x && ins[j] == s0[j - 1]);
                assert((k as int) < s0.len());
                assert(s0[k as int] != x);
                assert(s0[k as int] <= s0[j - 1]);
            } else {
                assert(ins[i] == s0[i - 1] && ins[j] == s0[j - 1]);
            }
        }
        assert(ins[k as int] == x);
        assert forall|y: u32| ins.contains(y) implies s0.contains(y) || y == x by {
            let i1 = choose|i1: int| 0 <= i1 < ins.len() && ins[i1] == y;
            if i1 < k {
                assert(s0[i1] == y);
            } else if i1 > k {
                assert(s0[i1 - 1] == y);
            }
        }
        assert forall|y: u32| s0.contains(y) || y == x implies ins.contains(y) by {
            if y == x {
                assert(ins[k as int] == y);
            } else {
                let j0 = choose|j0: int| 0 <= j0 < s0.len() && s0[j0] == y;
                if j0 < k {
                    assert(ins[j0] == y);
                } else {
                    assert(ins[j0 + 1] == y);
                }
            }
        }
    }
}

/// Auto-generate one mapping per distinct input ID found in the events, in
/// ascending ID order, named "Input N" with no color.
fn generate_default_mappings(events: &Vec<InputEvent>) -> (r: Vec<InputMapping>)
    ensures
        spec_sorted_by_id(r@),
        forall|x: InputMapping|
            #[trigger] r@.contains(x) ==> spec_event_has_id(events@, x.id) && x.name@
                == spec_bin_fallback_name(x.id) && x.color is None,
        forall|id: u32|
            #[trigger] spec_event_has_id(events@, id) ==> spec_has_mapping(r@, id),
{
    let mut ids: Vec<u32> = Vec::new();
    let ne = events.len();
    let mut i: usize = 0;
    while i < ne
        invariant
            0 <= i <= ne,
            ne == events@.len(),
            spec_ids_strictly_sorted(ids@),
            forall|y: u32| #[trigger] ids@.contains(y) ==> spec_event_has_id(events@, y),
            forall|j: int| 0 <= j < i ==> ids@.contains(#[trigger] events@[j].id),
        decreases ne - i,
    {
        let ghost ids0 = ids@;
        insert_sorted_unique_id(&mut ids, events[i].id);
        proof {
            assert(spec_event_has_id(events@, events@[i as int].id)) by {
                assert(events@[i as int].id == events@[i as int].id);
            }
            assert forall|y: u32| #[trigger] ids@.contains(y) implies spec_event_has_id(
                events@,
                y,
            ) by {
                if y != events@[i as int].id {
                    assert(ids0.contains(y));
                }
            }
        }
        i = i + 1;
    }
    let mut r: Vec<InputMapping> = Vec::new();
    let nk = ids.len();
    let mut k: usize = 0;
    while k < nk
        invariant
            0 <= k <= nk,
            nk == ids@.len(),
            spec_ids_strictly_sorted(ids@),
            forall|y: u32| #[trigger] ids@.contains(y) ==> spec_event_has_id(events@, y),
            forall|j: int| 0 <= j < ne ==> ids@.contains(#[trigger] events@[j].id),
            ne == events@.len(),
            r@.len() == k,
            forall|t: int|
                0 <= t < k ==> {
                    &&& (#[trigger] r@[t]).id == ids@[t]
                    &&& r@[t].name@ == spec_bin_fallback_name(ids@[t])
                    &&& r@[t].color is None
                },
        decreases nk - k,
    {
        let id = ids[k];
        let mut name = String::from_str("Input ");
        let digits = u64_to_dec(id as u64);
        name.append(digits.as_str());
        r.push(InputMapping { id, name, color: None });
        k = k + 1;
    }
    proof {
        assert forall|x: InputMapping| #[trigger] r@.contains(x) implies spec_event_has_id(
            events@,
            x.id,
        ) && x.name@ == spec_bin_fallback_name(x.id) && x.color is None by {
            let t = choose|t: int| 0 <= t < r@.len() && r@[t] == x;
            assert(ids@.contains(ids@[t]));
        }
        assert forall|id: u32| #[trigger]
            spec_event_has_id(events@, id) implies spec_has_mapping(r@, id) by {
            let j = choose|j: int| 0 <= j < events@.len() && events@[j].id == id;
            assert(ids@.contains(events@[j].id));
            let t = choose|t: int| 0 <= t < ids@.len() && ids@[t] == id;
            assert(r@[t].id == id);
        }
    }
    r
}

/// Parse a binary byte buffer into an `InputLog`.
///
/// The buffer must start with a valid 32-byte header whose event count
/// matches the file size; each 24-byte event record must carry valid kind
/// and state tags.  Mappings are auto-generated from the event IDs.
pub fn parse_binary(data: &[u8]) -> (r: Result<InputLog, ParseError>)
    ensures
        ({
            let b = data@;
            let n_events = if b.len() >= 32 {
                (b.len() - 32) / 24
            } else {
                0int
            };
            if b.len() < 32 {
                match r {
                    Err(ParseError::FileTooSmall { expected, found }) => expected == 32 && found
                        == b.len(),
                    _ => false,
                }
            } else if b.subrange(0, 4) != spec_magic_bytes() {
                match r {
                    Err(ParseError::InvalidMagic { found }) => found@ == b.subrange(0, 4),
                    _ => false,
                }
            } else if spec_le_u32(b, 4) != 1 {
                match r {
                    Err(ParseError::UnsupportedVersion { version }) => version == spec_le_u32(
                        b,
                        4,
                    ),
                    _ => false,
                }
            } else if n_events != spec_le_u64(b, 24) {
                match r {
                    Err(ParseError::EventCountMismatch { header_count, actual_count }) => {
                        header_count == spec_le_u64(b, 24) && actual_count == n_events
                    },
                    _ => false,
                }
            } else if !(forall|i: int| 0 <= i < n_events ==> spec_bin_event_ok(b, i)) {
                match r {
                    Err(ParseError::InvalidBinaryEvent { index, reason: _ }) => {
                        0 <= index < n_events && !spec_bin_event_ok(b, index as int)
                    },
                    _ => false,
                }
            } else {
                match r {
                    Ok(log) => {
                        &&& log.metadata.version == 1
                        &&& log.metadata.target_fps == spec_le_u32(b, 12)
                        &&& log.metadata.frame_count == spec_le_u64(b, 16)
                        &&& log.metadata.created_at is None
                        &&& log.metadata.source is None
                        &&& log.events@.len() == n_events
                        &&& (forall|i: int|
                            0 <= i < n_events ==> log.events@[i] == spec_bin_event(b, i))
                        &&& spec_sorted_by_id(log.mappings@)
                        &&& (forall|x: InputMapping|
                            #[trigger] log.mappings@.contains(x) ==> spec_event_has_id(
                                log.events@,
                                x.id,
                            ) && x.name@ == spec_bin_fallback_name(x.id) && x.color is None)
                        &&& (forall|id: u32|
                            #[trigger] spec_event_has_id(log.events@, id) ==> spec_has_mapping(
                                log.mappings@,
                                id,
                            ))
                    },
                    _ => false,
                }
            }
        }),
{
    let len = data.len();
    if len < 32 {
        return Err(ParseError::FileTooSmall { expected: 32, found: len });
    }
    if !(data[0] == 0x49 && data[1] == 0x4C && data[2] == 0x4F && data[3] == 0x47) {
        proof {
            assert(data@.subrange(0, 4) != spec_magic_bytes());
        }
        return Err(
            ParseError::InvalidMagic { found: [data[0], data[1], data[2], data[3]] },
        );
    }
    proof {
        assert(data@.subrange(0, 4) =~= spec_magic_bytes());
    }
    let version = read_le_u32(data, 4);
    if version != 1 {
        return Err(ParseError::UnsupportedVersion { version });
    }
    let target_fps = read_le_u32(data, 12);
    let frame_count = read_le_u64(data, 16);
    let event_count = read_le_u64(data, 24);
    let actual: usize = (len - 32) / 24;
    if (actual as u64) != event_count {
        return Err(
            ParseError::EventCountMismatch { header_count: event_count, actual_count: actual },
        );
    }
    proof {
        vstd::arithmetic::div_mod::lemma_fundamental_div_mod((len - 32) as int, 24);
        vstd::arithmetic::div_mod::lemma_mod_bound((len - 32) as int, 24);
    }
    let mut events: Vec<InputEvent> = Vec::new();
    let mut i: usize = 0;
    while i < actual
        invariant
            0 <= i <= actual,
            len == data@.len(),
            32 <= len,
            actual == ((len - 32) as int) / 24,
            32 + 24 * actual <= len,
            data@.subrange(0, 4) == spec_magic_bytes(),
            spec_le_u32(data@, 4) == 1,
            actual as int == spec_le_u64(data@, 24),
            events@.len() == i,
            forall|j: int|
                0 <= j < i ==> spec_bin_event_ok(data@, j) && events@[j] == spec_bin_event(
                    data@,
                    j,
                ),
        decreases actual - i,
    {
        let off: usize = 32 + 24 * i;
        let kind_b: u8 = data[off + 12];
        let state_b: u8 = data[off + 13];
        if kind_b >= 3 {
            proof {
                assert(!spec_bin_event_ok(data@, i as int));
            }
            let mut reason = String::from_str("invalid kind value: ");
            let digits = u64_to_dec(kind_b as u64);
            reason.append(digits.as_str());
            return Err(ParseError::InvalidBinaryEvent { index: i, reason });
        }
        if state_b >= 3 {
            proof {
                assert(!spec_bin_event_ok(data@, i as int));
            }
            let mut reason = String::from_str("invalid state value: ");
            let digits = u64_to_dec(state_b as u64);
            reason.append(digits.as_str());
            return Err(ParseError::InvalidBinaryEvent { index: i, reason });
        }
        let kind = if kind_b == 0 {
            InputKind::Button
        } else if kind_b == 1 {
            InputKind::Axis1D
        } else {
            InputKind::Axis2D
        };
        let state = if state_b == 0 {
            ButtonState::Released
        } else if state_b == 1 {
            ButtonState::Pressed
        } else {
            ButtonState::Held
        };
        let frame = read_le_u64(data, off);
        let id = read_le_u32(data, off + 8);
        let v0 = read_le_u32(data, off + 16);
        let v1 = read_le_u32(data, off + 20);
        events.push(InputEvent { frame, id, kind, state, value: [v0, v1] });
        i = i + 1;
    }
    let mappings = generate_default_mappings(&events);
    let metadata = LogMetadata {
        version,
        target_fps,
        frame_count,
        created_at: None,
        source: None,
    };
    Ok(InputLog { metadata, mappings, events })
}

/// Duplicate an optional string, preserving its value exactly.
fn dup_opt_string(s: &Option<String>) -> (r: Option<String>)
    ensures
        r == *s,
{
    match s {
        Some(x) => Some(x.clone()),
        None => None,
    }
}

/// Top-level shape of a deserialized JSON input log.
#[derive(Debug, Clone)]
pub struct JsonInputLog {
    /// Format version.
    pub version: u32,
    /// Metadata section.
    pub metadata: JsonMetadata,
    /// Input mappings.
    pub mappings: Vec<JsonMapping>,
    /// Input events.
    pub events: Vec<JsonEvent>,
}

/// Metadata section of a deserialized JSON input log.
#[derive(Debug, Clone)]
pub struct JsonMetadata {
    /// Target frames per second of the original game.
    pub target_fps: u32,
    /// Total number of frames in the log.
    pub frame_count: u64,
    /// Timestamp when the log was created.
    pub created_at: Option<String>,
    /// Source application that generated the log.
    pub source: Option<String>,
}

/// Input mapping as deserialized from JSON.
#[derive(Debug, Clone)]
pub struct JsonMapping {
    /// Input identifier.
    pub id: u32,
    /// Display name.
    pub name: String,
    /// Optional hex color string like "#RRGGBB".
    pub color: Option<String>,
}

/// Input event as deserialized from JSON.
#[derive(Debug, Clone)]
pub struct JsonEvent {
    /// Frame number.
    pub frame: u64,
    /// Input identifier.
    pub id: u32,
    /// Input kind name: "Button", "Axis1D" or "Axis2D".
    pub kind: String,
    /// Optional state name: "Released", "Pressed" or "Held".
    pub state: Option<String>,
    /// Axis payload as IEEE 754 bit patterns.
    pub value: [u32; 2],
}

/// The value of a hex digit byte, or -1 for a non-digit.
pub open spec fn spec_hex_digit_val(c: u8) -> int {
    if 0x30 <= c <= 0x39 {
        c - 0x30
    } else if 0x41 <= c <= 0x46 {
        c - 0x41 + 10
    } else if 0x61 <= c <= 0x66 {
        c - 0x61 + 10
    } else {
        -1int
    }
}

/// `k` is the length of the run of leading '#' bytes.
pub open spec fn spec_hex_prefix(b: Seq<u8>, k: int) -> bool {
    &&& 0 <= k <= b.len()
    &&& (forall|j: int| 0 <= j < k ==> b[j] == 0x23)
    &&& (k == b.len() || b[k] != 0x23)
}

/// After stripping leading '#' bytes, exactly six hex digits remain.
pub open spec fn spec_hex_valid(b: Seq<u8>) -> bool {
    exists|k: int|
        {
            &&& #[trigger] spec_hex_prefix(b, k)
            &&& b.len() - k == 6
            &&& (forall|j: int| k <= j < b.len() ==> spec_hex_digit_val(b[j]) >= 0)
        }
}

/// The color byte encoded by the two hex digits at position `p`.
pub open spec fn spec_hex_byte(b: Seq<u8>, p: int) -> int {
    16 * spec_hex_digit_val(b[p]) + spec_hex_digit_val(b[p + 1])
}

/// The decoded hex value of a digit byte, if it is one.
fn hex_val(c: u8) -> (v: Option<u8>)
    ensures
        match v {
            Some(x) => spec_hex_digit_val(c) == x && x < 16,
            None => spec_hex_digit_val(c) < 0,
        },
{
    if 0x30 <= c && c <= 0x39 {
        Some(c - 0x30)
    } else if 0x41 <= c && c <= 0x46 {
        Some(c - 0x41 + 10)
    } else if 0x61 <= c && c <= 0x66 {
        Some(c - 0x61 + 10)
    } else {
        None
    }
}

/// The display value for an invalid color: "#" followed by the input with
/// its leading '#' bytes stripped.
fn color_error_value(hex: &str, k: usize) -> (r: String)
{
    let mut r = String::from_str("#");
    if hex.is_char_boundary(k) {
        let (_, rest) = hex.split_at(k);
        r.append(rest);
    } else {
        r.append(hex);
    }
    r
}

/// Parse a hex color string such as "#FF5555" (the "#" is optional) into
/// RGB bytes.
pub fn parse_hex_color(hex: &str) -> (r: Result<[u8; 3], ParseError>)
    ensures
        ({
            let b = hex.spec_bytes();
            match r {
                Ok(c) => exists|k: int|
                    {
                        &&& #[trigger] spec_hex_prefix(b, k)
                        &&& b.len() - k == 6
                        &&& (forall|j: int| k <= j < b.len() ==> spec_hex_digit_val(b[j]) >= 0)
                        &&& c[0] == spec_hex_byte(b, k)
                        &&& c[1] == spec_hex_byte(b, k + 2)
                        &&& c[2] == spec_hex_byte(b, k + 4)
                    },
                Err(ParseError::InvalidColor { value: _ }) => !spec_hex_valid(b),
                Err(_) => false,
            }
        }),
{
    let b = hex.as_bytes();
    let n = b.len();
    let mut k: usize = 0;
    while k < n && b[k] == 0x23
        invariant
            0 <= k <= n,
            n == b@.len(),
            b@ == hex.spec_bytes(),
            forall|j: int| 0 <= j < k ==> b@[j] == 0x23,
        decreases n - k,
    {
        k = k + 1;
    }
    proof {
        assert(spec_hex_prefix(b@, k as int));
        assert forall|k2: int| #[trigger] spec_hex_prefix(b@, k2) implies k2 == k as int by {
            if k2 < k {
                assert(b@[k2] == 0x23);
            } else if k2 > k {
                assert((k as int) < b@.len());
                assert(b@[k as int] != 0x23);
            }
        }
    }
    if n - k != 6 {
        return Err(ParseError::InvalidColor { value: color_error_value(hex, k) });
    }
    let d0 = hex_val(b[k]);
    let d1 = hex_val(b[k + 1]);
    let d2 = hex_val(b[k + 2]);
    let d3 = hex_val(b[k + 3]);
    let d4 = hex_val(b[k + 4]);
    let d5 = hex_val(b[k + 5]);
    match (d0, d1, d2, d3, d4, d5) {
        (Some(x0), Some(x1), Some(x2), Some(x3), Some(x4), Some(x5)) => {
            proof {
                assert forall|j: int| k <= j < b@.len() implies spec_hex_digit_val(
                    b@[j],
                ) >= 0 by {
                    assert(j == k || j == k + 1 || j == k + 2 || j == k + 3 || j == k + 4 || j == k
                        + 5);
                }
            }
            Ok([16 * x0 + x1, 16 * x2 + x3, 16 * x4 + x5])
        },
        _ => Err(ParseError::InvalidColor { value: color_error_value(hex, k) }),
    }
}

/// Whether a string names an input kind.
pub open spec fn spec_kind_name_ok(s: Seq<char>) -> bool {
    s == "Button"@ || s == "Axis1D"@ || s == "Axis2D"@
}

/// The input kind named by a valid kind string.
pub open spec fn spec_kind_value(s: Seq<char>) -> InputKind
    recommends
        spec_kind_name_ok(s),
{
    if s == "Button"@ {
        InputKind::Button
    } else if s == "Axis1D"@ {
        InputKind::Axis1D
    } else {
        InputKind::Axis2D
    }
}

/// Whether a string names a button state.
pub open spec fn spec_state_name_ok(s: Seq<char>) -> bool {
    s == "Released"@ || s == "Pressed"@ || s == "Held"@
}

/// The button state named by a valid state string.
pub open spec fn spec_state_value(s: Seq<char>) -> ButtonState
    recommends
        spec_state_name_ok(s),
{
    if s == "Released"@ {
        ButtonState::Released
    } else if s == "Pressed"@ {
        ButtonState::Pressed
    } else {
        ButtonState::Held
    }
}

/// Parse an input kind name into an `InputKind`.
pub fn parse_input_kind(s: &str) -> (r: Result<InputKind, ParseError>)
    ensures
        ({
            if spec_kind_name_ok(s@) {
                r == Ok::<InputKind, ParseError>(spec_kind_value(s@))
            } else {
                match r {
                    Err(ParseError::InvalidEnumValue { field: _, value, expected: _ }) => value@
                        == s@,
                    _ => false,
                }
            }
        }),
{
    let owned = s.to_owned();
    if owned == String::from_str("Button") {
        Ok(InputKind::Button)
    } else if owned == String::from_str("Axis1D") {
        Ok(InputKind::Axis1D)
    } else if owned == String::from_str("Axis2D") {
        Ok(InputKind::Axis2D)
    } else {
        Err(
            ParseError::InvalidEnumValue {
                field: "kind",
                value: owned,
                expected: "Button, Axis1D, Axis2D",
            },
        )
    }
}

/// Parse a button state name into a `ButtonState`.
pub fn parse_button_state(s: &str) -> (r: Result<ButtonState, ParseError>)
    ensures
        ({
            if spec_state_name_ok(s@) {
                r == Ok::<ButtonState, ParseError>(spec_state_value(s@))
            } else {
                match r {
                    Err(ParseError::InvalidEnumValue { field: _, value, expected: _ }) => value@
                        == s@,
                    _ => false,
                }
            }
        }),
{
    let owned = s.to_owned();
    if owned == String::from_str("Released") {
        Ok(ButtonState::Released)
    } else if owned == String::from_str("Pressed") {
        Ok(ButtonState::Pressed)
    } else if owned == String::from_str("Held") {
        Ok(ButtonState::Held)
    } else {
        Err(
            ParseError::InvalidEnumValue {
                field: "state",
                value: owned,
                expected: "Released, Pressed, Held",
            },
        )
    }
}

/// Whether a JSON mapping's color is absent or a valid hex color.
pub open spec fn spec_json_mapping_ok(m: JsonMapping) -> bool {
    match m.color {
        Some(hex) => spec_hex_valid(vstd::utf8::encode_utf8(hex@)),
        None => true,
    }
}

/// The converted mapping matches the JSON mapping: same ID and name, with
/// the color decoded from the hex string when present.
pub open spec fn spec_json_mapping_converted(j: JsonMapping, m: InputMapping) -> bool {
    &&& m.id == j.id
    &&& m.name == j.name
    &&& (match j.color {
        None => m.color is None,
        Some(hex) => {
            let hb = vstd::utf8::encode_utf8(hex@);
            match m.color {
                Some(c) => exists|k: int|
                    {
                        &&& #[trigger] spec_hex_prefix(hb, k)
                        &&& hb.len() - k == 6
                        &&& c[0] == spec_hex_byte(hb, k)
                        &&& c[1] == spec_hex_byte(hb, k + 2)
                        &&& c[2] == spec_hex_byte(hb, k + 4)
                    },
                None => false,
            }
        },
    })
}

/// Convert a JSON mapping to an `InputMapping`.
pub fn convert_mapping(json: JsonMapping) -> (r: Result<InputMapping, ParseError>)
    ensures
        ({
            if spec_json_mapping_ok(json) {
                match r {
                    Ok(m) => spec_json_mapping_converted(json, m),
                    _ => false,
                }
            } else {
                match r {
                    Err(ParseError::InvalidColor { value: _ }) => true,
                    _ => false,
                }
            }
        }),
{
    let JsonMapping { id, name, color } = json;
    let color = match color {
        Some(hex) => match parse_hex_color(hex.as_str()) {
            Ok(c) => Some(c),
            Err(e) => {
                return Err(e);
            },
        },
        None => None,
    };
    Ok(InputMapping { id, name, color })
}

/// Whether a JSON event carries a known kind and an acceptable state (a
/// button event must name a state; axis events may leave it out).
pub open spec fn spec_json_event_ok(e: JsonEvent) -> bool {
    &&& spec_kind_name_ok(e.kind@)
    &&& (match e.state {
        Some(st) => spec_state_name_ok(st@),
        None => spec_kind_value(e.kind@) != InputKind::Button,
    })
}

/// The event a valid JSON event converts to: a missing state means
/// `Released` for axis events.
pub open spec fn spec_json_event_converted(e: JsonEvent) -> InputEvent
    recommends
        spec_json_event_ok(e),
{
    InputEvent {
        frame: e.frame,
        id: e.id,
        kind: spec_kind_value(e.kind@),
        state: match e.state {
            Some(st) => spec_state_value(st@),
            None => ButtonState::Released,
        },
        value: e.value,
    }
}

/// Convert a JSON event to an `InputEvent`.
pub fn convert_event(json: JsonEvent) -> (r: Result<InputEvent, ParseError>)
    ensures
        ({
            if spec_json_event_ok(json) {
                r == Ok::<InputEvent, ParseError>(spec_json_event_converted(json))
            } else if !spec_kind_name_ok(json.kind@) {
                match r {
                    Err(ParseError::InvalidEnumValue { field: _, value, expected: _ }) => value@
                        == json.kind@,
                    _ => false,
                }
            } else {
                match r {
                    Err(ParseError::MissingField { field: _ }) => json.state is None,
                    Err(ParseError::InvalidEnumValue { field: _, value: _, expected: _ }) => {
                        json.state is Some
                    },
                    _ => false,
                }
            }
        }),
{
    let JsonEvent { frame, id, kind, state, value } = json;
    let kind = match parse_input_kind(kind.as_str()) {
        Ok(k) => k,
        Err(e) => {
            return Err(e);
        },
    };
    let state = match kind {
        InputKind::Button => match &state {
            Some(s) => match parse_button_state(s.as_str()) {
                Ok(st) => st,
                Err(e) => {
                    return Err(e);
                },
            },
            None => {
                return Err(
                    ParseError::MissingField { field: "state (required for Button kind)" },
                );
            },
        },
        InputKind::Axis1D | InputKind::Axis2D => match &state {
            Some(s) => match parse_button_state(s.as_str()) {
                Ok(st) => st,
                Err(e) => {
                    return Err(e);
                },
            },
            None => ButtonState::Released,
        },
    };
    Ok(InputEvent { frame, id, kind, state, value })
}

/// Convert a whole deserialized JSON tree into an `InputLog`.  Succeeds
/// exactly when the version is 1 and every mapping and event is valid.
pub fn convert_json_log(json: JsonInputLog) -> (r: Result<InputLog, ParseError>)
    ensures
        json.version != 1 ==> (match r {
            Err(ParseError::UnsupportedVersion { version }) => version == json.version,
            _ => false,
        }),
        json.version == 1 ==> ({
            if (forall|i: int|
                0 <= i < json.mappings@.len() ==> spec_json_mapping_ok(#[trigger] json.mappings@[i]))
                && (forall|i: int|
                0 <= i < json.events@.len() ==> spec_json_event_ok(#[trigger] json.events@[i])) {
                match r {
                    Ok(log) => {
                        &&& log.metadata.version == 1
                        &&& log.metadata.target_fps == json.metadata.target_fps
                        &&& log.metadata.frame_count == json.metadata.frame_count
                        &&& log.metadata.created_at == json.metadata.created_at
                        &&& log.metadata.source == json.metadata.source
                        &&& log.mappings@.len() == json.mappings@.len()
                        &&& (forall|i: int|
                            0 <= i < json.mappings@.len() ==> spec_json_mapping_converted(
                                json.mappings@[i],
                                #[trigger] log.mappings@[i],
                            ))
                        &&& log.events@.len() == json.events@.len()
                        &&& (forall|i: int|
                            0 <= i < json.events@.len() ==> #[trigger] log.events@[i]
                                == spec_json_event_converted(json.events@[i]))
                    },
                    _ => false,
                }
            } else {
                r is Err
            }
        }),
{
    if json.version != 1 {
        return Err(ParseError::UnsupportedVersion { version: json.version });
    }
    let metadata = LogMetadata {
        version: json.version,
        target_fps: json.metadata.target_fps,
        frame_count: json.metadata.frame_count,
        created_at: dup_opt_string(&json.metadata.created_at),
        source: dup_opt_string(&json.metadata.source),
    };
    let mut mappings: Vec<InputMapping> = Vec::new();
    let nm = json.mappings.len();
    let mut i: usize = 0;
    while i < nm
        invariant
            0 <= i <= nm,
            nm == json.mappings@.len(),
            json.version == 1,
            mappings@.len() == i,
            forall|j: int|
                0 <= j < i ==> spec_json_mapping_ok(#[trigger] json.mappings@[j])
                    && spec_json_mapping_converted(json.mappings@[j], mappings@[j]),
        decreases nm - i,
    {
        let jm = &json.mappings[i];
        let m = JsonMapping { id: jm.id, name: jm.name.clone(), color: dup_opt_string(&jm.color) };
        proof {
            assert(m == json.mappings@[i as int]);
        }
        match convert_mapping(m) {
            Ok(cm) => {
                mappings.push(cm);
            },
            Err(e) => {
                return Err(e);
            },
        }
        i = i + 1;
    }
    let mut events: Vec<InputEvent> = Vec::new();
    let ne = json.events.len();
    let mut i2: usize = 0;
    while i2 < ne
        invariant
            0 <= i2 <= ne,
            ne == json.events@.len(),
            json.version == 1,
            events@.len() == i2,
            forall|j: int|
                0 <= j < i2 ==> spec_json_event_ok(#[trigger] json.events@[j]) && events@[j]
                    == spec_json_event_converted(json.events@[j]),
        decreases ne - i2,
    {
        let je = &json.events[i2];
        let e = JsonEvent {
            frame: je.frame,
            id: je.id,
            kind: je.kind.clone(),
            state: dup_opt_string(&je.state),
            value: je.value,
        };
        proof {
            assert(e == json.events@[i2 as int]);
        }
        match convert_event(e) {
            Ok(ce) => {
                events.push(ce);
            },
            Err(err) => {
                return Err(err);
            },
        }
        i2 = i2 + 1;
    }
    Ok(InputLog { metadata, mappings, events })
}

} // verus!
