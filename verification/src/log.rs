//! Input log data structures: events, mappings, metadata and bookmarks.

use crate::text::{spec_decimal, u64_to_dec};
use vstd::prelude::*;
use vstd::seq_lib::*;
use vstd::string::StringExecFns;

verus! {

/// Input type classification.
#[derive(Clone, Copy, Debug, PartialEq, Eq, Structural)]
pub enum InputKind {
    /// Button input (on/off state).
    Button,
    /// Single-axis input (e.g. a trigger).
    Axis1D,
    /// Dual-axis input (e.g. an analog stick).
    Axis2D,
}

/// Button state for button-type inputs.
#[derive(Clone, Copy, Debug, PartialEq, Eq, Structural)]
pub enum ButtonState {
    /// Button released or not pressed.
    Released,
    /// Button press started this frame.
    Pressed,
    /// Button held down, continuing from the previous frame.
    Held,
}

/// A single input event at a specific frame.  The engine treats the axis
/// payload as opaque: the two components are carried as raw IEEE 754
/// single-precision bit patterns (1D inputs use index 0, 2D inputs both).
#[derive(Clone, Copy, Debug, PartialEq)]
pub struct InputEvent {
    /// Frame number when this event occurred.
    pub frame: u64,
    /// Input identifier.
    pub id: u32,
    /// Type of input.
    pub kind: InputKind,
    /// Button state (only meaningful for the Button kind).
    pub state: ButtonState,
    /// Axis payload as IEEE 754 bit patterns.
    pub value: [u32; 2],
}

/// Mapping from input ID to display information.
#[derive(Clone, Debug, PartialEq)]
pub struct InputMapping {
    /// Input identifier.
    pub id: u32,
    /// Display name for this input.
    pub name: String,
    /// Optional RGB color for visualization.
    pub color: Option<[u8; 3]>,
}

/// Metadata about the input log.
#[derive(Clone, Debug, PartialEq)]
pub struct LogMetadata {
    /// Format version.
    pub version: u32,
    /// Target frames per second of the original game.
    pub target_fps: u32,
    /// Total number of frames in the log.
    pub frame_count: u64,
    /// Timestamp when the log was created.
    pub created_at: Option<String>,
    /// Source application that generated the log.
    pub source: Option<String>,
}

impl Default for LogMetadata {
    /// Defaults: version 1, 60 FPS, an empty log.
    fn default() -> (r: Self)
        ensures
            r.version == 1,
            r.target_fps == 60,
            r.frame_count == 0,
            r.created_at is None,
            r.source is None,
    {
        LogMetadata {
            version: 1,
            target_fps: 60,
            frame_count: 0,
            created_at: None,
            source: None,
        }
    }
}

/// Complete input log containing metadata, mappings, and events.
#[derive(Clone, Debug, PartialEq)]
pub struct InputLog {
    /// Log metadata.
    pub metadata: LogMetadata,
    /// Input ID to name/color mappings.
    pub mappings: Vec<InputMapping>,
    /// All input events, ordered by frame.
    pub events: Vec<InputEvent>,
}

impl Default for InputLog {
    /// Defaults: default metadata, no mappings, no events.
    fn default() -> (r: Self)
        ensures
            r.metadata.version == 1,
            r.metadata.target_fps == 60,
            r.metadata.frame_count == 0,
            r.mappings@.len() == 0,
            r.events@.len() == 0,
    {
        InputLog { metadata: LogMetadata::default(), mappings: Vec::new(), events: Vec::new() }
    }
}

/// A bookmark marking an important frame.
#[derive(Clone, Debug, PartialEq)]
pub struct Bookmark {
    /// Frame number of the bookmark.
    pub frame: u64,
    /// Optional label for the bookmark.
    pub label: Option<String>,
}

/// The first mapping with the given ID, scanning front to back.
pub open spec fn spec_lookup_mapping(mappings: Seq<InputMapping>, id: u32) -> Option<InputMapping>
    decreases mappings.len(),
{
    if mappings.len() == 0 {
        None
    } else if mappings[0].id == id {
        Some(mappings[0])
    } else {
        spec_lookup_mapping(mappings.subrange(1, mappings.len() as int), id)
    }
}

/// Some mapping in the sequence carries the given ID.
pub open spec fn spec_has_mapping(mappings: Seq<InputMapping>, id: u32) -> bool {
    exists|j: int| 0 <= j < mappings.len() && mappings[j].id == id
}

/// Some event in the sequence carries the given ID.
pub open spec fn spec_event_has_id(events: Seq<InputEvent>, id: u32) -> bool {
    exists|j: int| 0 <= j < events.len() && events[j].id == id
}

/// The display name of a fallback mapping for an unmapped input ID.
pub open spec fn spec_fallback_name(id: u32) -> Seq<char> {
    "Input #"@ + spec_decimal(id as int)
}

/// The sequence is ordered by mapping ID (non-strictly).
pub open spec fn spec_sorted_by_id(s: Seq<InputMapping>) -> bool {
    forall|i: int, j: int| 0 <= i < j < s.len() ==> s[i].id <= s[j].id
}

/// Inserting into a sequence keeps every element, and adds only `m`.
proof fn lemma_insert_effects(s: Seq<InputMapping>, k: int, m: InputMapping)
    requires
        0 <= k <= s.len(),
    ensures
        s.insert(k, m).contains(m),
        forall|x: InputMapping| #[trigger] s.contains(x) ==> s.insert(k, m).contains(x),
        forall|x: InputMapping| #[trigger] s.insert(k, m).contains(x) ==> x == m || s.contains(x),
{
    s.insert_ensures(k, m);
    let ins = s.insert(k, m);
    assert(ins[k] == m);
    assert forall|x: InputMapping| #[trigger] s.contains(x) implies ins.contains(x) by {
        let j0 = choose|j0: int| 0 <= j0 < s.len() && s[j0] == x;
        if j0 < k {
            assert(ins[j0] == x);
        } else {
            assert(ins[j0 + 1] == x);
        }
    }
    assert forall|x: InputMapping| #[trigger] ins.contains(x) implies x == m || s.contains(
        x,
    ) by {
        let i1 = choose|i1: int| 0 <= i1 < ins.len() && ins[i1] == x;
        if i1 < k {
            assert(s[i1] == x);
        } else if i1 > k {
            assert(s[i1 - 1] == x);
        }
    }
}

/// Insert a mapping into a sequence ordered by ID, keeping the order and
/// placing it after any mapping with the same ID.
fn insert_sorted_mapping(v: &mut Vec<InputMapping>, m: InputMapping)
    requires
        spec_sorted_by_id(old(v)@),
    ensures
        spec_sorted_by_id(final(v)@),
        exists|k: int| 0 <= k <= old(v)@.len() && final(v)@ == old(v)@.insert(k, m),
{
    let ghost s0 = v@;
    let n = v.len();
    let mut k: usize = 0;
    while k < n && v[k].id <= m.id
        invariant
            0 <= k <= n,
            n == v@.len(),
            v@ == s0,
            forall|j: int| 0 <= j < k ==> s0[j].id <= m.id,
        decreases n - k,
    {
        k = k + 1;
    }
    v.insert(k, m);
    proof {
        s0.insert_ensures(k as int, m);
        let ins = s0.insert(k as int, m);
        assert forall|i: int, j: int| 0 <= i < j < ins.len() implies ins[i].id <= ins[j].id by {
            if j < k {
                assert(ins[i] == s0[i] && ins[j] == s0[j]);
            } else if j == k {
                assert(ins[i] == s0[i] && ins[j] == m);
            } else if i < k {
                assert(ins[i] == s0[i] && ins[j] == s0[j - 1]);
                if i < j - 1 {
                    assert(s0[i].id <= s0[j - 1].id);
                }
            } else if i == k {
                assert(ins[i] == m && ins[j] == s0[j - 1]);
                assert((k as int) < s0.len());
                assert(s0[k as int].id > m.id);
                assert(s0[k as int].id <= s0[j - 1].id);
            } else {
                assert(ins[i] == s0[i - 1] && ins[j] == s0[j - 1]);
            }
        }
        assert(v@ == s0.insert(k as int, m));
    }
}

/// Whether some mapping in the vector carries the given ID.
fn has_mapping(mappings: &Vec<InputMapping>, id: u32) -> (r: bool)
    ensures
        r == spec_has_mapping(mappings@, id),
{
    let n = mappings.len();
    let mut i: usize = 0;
    while i < n
        invariant
            0 <= i <= n,
            n == mappings@.len(),
            forall|j: int| 0 <= j < i ==> mappings@[j].id != id,
        decreases n - i,
    {
        if mappings[i].id == id {
            return true;
        }
        i = i + 1;
    }
    false
}

/// Whether the vector contains the given value.
fn contains_u32(v: &Vec<u32>, x: u32) -> (r: bool)
    ensures
        r == v@.contains(x),
{
    let n = v.len();
    let mut i: usize = 0;
    while i < n
        invariant
            0 <= i <= n,
            n == v@.len(),
            forall|j: int| 0 <= j < i ==> v@[j] != x,
        decreases n - i,
    {
        if v[i] == x {
            return true;
        }
        i = i + 1;
    }
    false
}

/// The auto-generated mapping for an input ID that appears in events but has
/// no explicit mapping: the fallback name and no color.
fn fallback_mapping(id: u32) -> (m: InputMapping)
    ensures
        m.id == id,
        m.name@ == spec_fallback_name(id),
        m.color is None,
{
    let mut name = String::from_str("Input #");
    let digits = u64_to_dec(id as u64);
    name.append(digits.as_str());
    InputMapping { id, name, color: None }
}

impl InputLog {
    /// Get the display name for an input ID: the first mapped name, or the
    /// fallback "Input #N".
    pub fn get_input_name(&self, id: u32) -> (r: String)
        ensures
            match spec_lookup_mapping(self.mappings@, id) {
                Some(m) => r@ == m.name@,
                None => r@ == spec_fallback_name(id),
            },
    {
        let n = self.mappings.len();
        let mut i: usize = 0;
        proof {
            assert(self.mappings@.subrange(0, n as int) =~= self.mappings@);
        }
        while i < n
            invariant
                0 <= i <= n,
                n == self.mappings@.len(),
                spec_lookup_mapping(self.mappings@, id) == spec_lookup_mapping(
                    self.mappings@.subrange(i as int, n as int),
                    id,
                ),
            decreases n - i,
        {
            if self.mappings[i].id == id {
                proof {
                    assert(self.mappings@.subrange(i as int, n as int)[0] == self.mappings@[
                        i as int]);
                }
                return self.mappings[i].name.clone();
            }
            proof {
                assert(self.mappings@.subrange(i as int, n as int).subrange(
                    1,
                    (n - i) as int,
                ) =~= self.mappings@.subrange(i as int + 1, n as int));
            }
            i = i + 1;
        }
        let mut r = String::from_str("Input #");
        let digits = u64_to_dec(id as u64);
        r.append(digits.as_str());
        r
    }

    /// Get the color for an input ID, if the first mapping with it has one.
    pub fn get_input_color(&self, id: u32) -> (r: Option<[u8; 3]>)
        ensures
            r == match spec_lookup_mapping(self.mappings@, id) {
                Some(m) => m.color,
                None => None,
            },
    {
        let n = self.mappings.len();
        let mut i: usize = 0;
        proof {
            assert(self.mappings@.subrange(0, n as int) =~= self.mappings@);
        }
        while i < n
            invariant
                0 <= i <= n,
                n == self.mappings@.len(),
                spec_lookup_mapping(self.mappings@, id) == spec_lookup_mapping(
                    self.mappings@.subrange(i as int, n as int),
                    id,
                ),
            decreases n - i,
        {
            if self.mappings[i].id == id {
                proof {
                    assert(self.mappings@.subrange(i as int, n as int)[0] == self.mappings@[
                        i as int]);
                }
                return self.mappings[i].color;
            }
            proof {
                assert(self.mappings@.subrange(i as int, n as int).subrange(
                    1,
                    (n - i) as int,
                ) =~= self.mappings@.subrange(i as int + 1, n as int));
            }
            i = i + 1;
        }
        None
    }

    /// Effective mappings: the explicit mappings plus an auto-generated
    /// fallback for every input ID that appears in events without a mapping,
    /// the whole ordered by ID (explicit mappings keep their relative order
    /// among equal IDs).
    pub fn get_effective_mappings(&self) -> (r: Vec<InputMapping>)
        ensures
            spec_sorted_by_id(r@),
            forall|x: InputMapping|
                #[trigger] r@.contains(x) ==> self.mappings@.contains(x) || (!spec_has_mapping(
                    self.mappings@,
                    x.id,
                ) && spec_event_has_id(self.events@, x.id) && x.name@ == spec_fallback_name(x.id)
                    && x.color is None),
            forall|s: int|
                0 <= s < self.mappings@.len() ==> r@.contains(#[trigger] self.mappings@[s]),
            forall|id: u32|
                #[trigger] spec_event_has_id(self.events@, id) ==> spec_has_mapping(r@, id),
    {
        let unmapped = collect_unmapped_ids(&self.mappings, &self.events);
        let mut result = build_sorted_mappings(&self.mappings);
        proof {
            assert forall|s: int| 0 <= s < self.mappings@.len() implies result@.contains(
                #[trigger] self.mappings@[s],
            ) by {}
        }
        let ghost before = result@;
        add_fallback_mappings(&mut result, &unmapped, Ghost(self.mappings@), Ghost(self.events@));
        proof {
            assert forall|s: int| 0 <= s < self.mappings@.len() implies result@.contains(
                #[trigger] self.mappings@[s],
            ) by {
                assert(before.contains(self.mappings@[s]));
            }
            assert forall|id: u32| #[trigger]
                spec_event_has_id(self.events@, id) implies spec_has_mapping(result@, id) by {
                if spec_has_mapping(self.mappings@, id) {
                    let s = choose|s: int|
                        0 <= s < self.mappings@.len() && self.mappings@[s].id == id;
                    let x = self.mappings@[s];
                    assert(result@.contains(x));
                    let i2 = choose|i2: int| 0 <= i2 < result@.len() && result@[i2] == x;
                    assert(result@[i2].id == id);
                } else {
                    let k = choose|k: int| 0 <= k < unmapped@.len() && unmapped@[k] == id;
                    assert(spec_has_mapping(result@, unmapped@[k]));
                }
            }
        }
        result
    }
}

/// The input IDs that occur in events but have no explicit mapping, each
/// listed once.
fn collect_unmapped_ids(mappings: &Vec<InputMapping>, events: &Vec<InputEvent>) -> (u: Vec<u32>)
    ensures
        forall|k: int|
            0 <= k < u@.len() ==> !spec_has_mapping(mappings@, #[trigger] u@[k])
                && spec_event_has_id(events@, u@[k]),
        forall|j: int|
            0 <= j < events@.len() ==> spec_has_mapping(mappings@, #[trigger] events@[j].id)
                || u@.contains(events@[j].id),
{
    let mut u: Vec<u32> = Vec::new();
    let ne = events.len();
    let mut i: usize = 0;
    while i < ne
        invariant
            0 <= i <= ne,
            ne == events@.len(),
            forall|k: int|
                0 <= k < u@.len() ==> !spec_has_mapping(mappings@, #[trigger] u@[k])
                    && spec_event_has_id(events@, u@[k]),
            forall|j: int|
                0 <= j < i ==> spec_has_mapping(mappings@, #[trigger] events@[j].id)
                    || u@.contains(events@[j].id),
        decreases ne - i,
    {
        let id = events[i].id;
        if !has_mapping(mappings, id) && !contains_u32(&u, id) {
            let ghost u0 = u@;
            u.push(id);
            proof {
                assert(spec_event_has_id(events@, id)) by {
                    assert(events@[i as int].id == id);
                }
                assert(u@[u0.len() as int] == id);
                assert forall|j: int|
                    0 <= j < i && u0.contains(events@[j].id) implies u@.contains(
                    events@[j].id) by {
                    let jj = choose|jj: int| 0 <= jj < u0.len() && u0[jj] == events@[j].id;
                    assert(u@[jj] == events@[j].id);
                }
            }
        }
        i = i + 1;
    }
    u
}

/// All the given mappings, in ID order (stable among equal IDs).
fn build_sorted_mappings(mappings: &Vec<InputMapping>) -> (r: Vec<InputMapping>)
    ensures
        spec_sorted_by_id(r@),
        forall|x: InputMapping| #[trigger] r@.contains(x) ==> mappings@.contains(x),
        forall|s: int| 0 <= s < mappings@.len() ==> r@.contains(#[trigger] mappings@[s]),
{
    let mut r: Vec<InputMapping> = Vec::new();
    let nm = mappings.len();
    let mut j: usize = 0;
    while j < nm
        invariant
            0 <= j <= nm,
            nm == mappings@.len(),
            spec_sorted_by_id(r@),
            forall|x: InputMapping| #[trigger] r@.contains(x) ==> mappings@.contains(x),
            forall|s: int| 0 <= s < j ==> r@.contains(#[trigger] mappings@[s]),
        decreases nm - j,
    {
        let m0 = &mappings[j];
        let copy = InputMapping { id: m0.id, name: m0.name.clone(), color: m0.color };
        proof {
            assert(copy == mappings@[j as int]);
            assert(mappings@.contains(copy));
        }
        let ghost r0 = r@;
        insert_sorted_mapping(&mut r, copy);
        proof {
            let k = choose|k: int| 0 <= k <= r0.len() && r@ == r0.insert(k, copy);
            lemma_insert_effects(r0, k, copy);
            assert forall|x: InputMapping| #[trigger] r@.contains(x) implies mappings@.contains(
                x,
            ) by {
                if x != copy {
                    assert(r0.contains(x));
                }
            }
        }
        j = j + 1;
    }
    r
}

/// Insert a fallback mapping for each listed ID into the ID-ordered vector.
fn add_fallback_mappings(
    result: &mut Vec<InputMapping>,
    unmapped: &Vec<u32>,
    Ghost(mappings): Ghost<Seq<InputMapping>>,
    Ghost(events): Ghost<Seq<InputEvent>>,
)
    requires
        spec_sorted_by_id(old(result)@),
        forall|k: int|
            0 <= k < unmapped@.len() ==> !spec_has_mapping(mappings, #[trigger] unmapped@[k])
                && spec_event_has_id(events, unmapped@[k]),
        forall|x: InputMapping| #[trigger] old(result)@.contains(x) ==> mappings.contains(x),
    ensures
        spec_sorted_by_id(final(result)@),
        forall|x: InputMapping|
            #[trigger] final(result)@.contains(x) ==> mappings.contains(x) || (!spec_has_mapping(
                mappings,
                x.id,
            ) && spec_event_has_id(events, x.id) && x.name@ == spec_fallback_name(x.id)
                && x.color is None),
        forall|x: InputMapping| #[trigger] old(result)@.contains(x) ==> final(result)@.contains(x),
        forall|k: int|
            0 <= k < unmapped@.len() ==> spec_has_mapping(final(result)@, #[trigger] unmapped@[k]),
{
    let ghost orig = result@;
    let nu = unmapped.len();
    let mut t: usize = 0;
    while t < nu
        invariant
            0 <= t <= nu,
            nu == unmapped@.len(),
            spec_sorted_by_id(result@),
            forall|k: int|
                0 <= k < unmapped@.len() ==> !spec_has_mapping(mappings, #[trigger] unmapped@[k])
                    && spec_event_has_id(events, unmapped@[k]),
            forall|x: InputMapping|
                #[trigger] result@.contains(x) ==> mappings.contains(x) || (!spec_has_mapping(
                    mappings,
                    x.id,
                ) && spec_event_has_id(events, x.id) && x.name@ == spec_fallback_name(x.id)
                    && x.color is None),
            forall|x: InputMapping| #[trigger] orig.contains(x) ==> result@.contains(x),
            forall|k: int| 0 <= k < t ==> spec_has_mapping(result@, #[trigger] unmapped@[k]),
        decreases nu - t,
    {
        let fb = fallback_mapping(unmapped[t]);
        let ghost r0 = result@;
        insert_sorted_mapping(result, fb);
        proof {
            let k = choose|k: int| 0 <= k <= r0.len() && result@ == r0.insert(k, fb);
            lemma_insert_effects(r0, k, fb);
            assert(result@.contains(fb));
            assert forall|x: InputMapping| #[trigger] result@.contains(x) implies
                mappings.contains(x) || (!spec_has_mapping(mappings, x.id) && spec_event_has_id(
                events,
                x.id,
            ) && x.name@ == spec_fallback_name(x.id) && x.color is None) by {
                if x != fb {
                    assert(r0.contains(x));
                }
            }
            assert forall|x: InputMapping| #[trigger] orig.contains(x) implies result@.contains(
                x,
            ) by {
                assert(r0.contains(x));
            }
            assert forall|k2: int| 0 <= k2 < t + 1 implies spec_has_mapping(
                result@,
                #[trigger] unmapped@[k2],
            ) by {
                if k2 < t {
                    let j0 = choose|j0: int| 0 <= j0 < r0.len() && r0[j0].id == unmapped@[k2];
                    let x0 = r0[j0];
                    assert(r0.contains(x0));
                    assert(result@.contains(x0));
                    let i1 = choose|i1: int| 0 <= i1 < result@.len() && result@[i1] == x0;
                    assert(result@[i1].id == unmapped@[k2]);
                } else {
                    assert(result@.contains(fb));
                    let i1 = choose|i1: int| 0 <= i1 < result@.len() && result@[i1] == fb;
                    assert(result@[i1].id == unmapped@[k2]);
                }
            }
        }
        t = t + 1;
    }
    proof {
        assert(orig == old(result)@);
        assert forall|x: InputMapping| #[trigger] old(result)@.contains(x) implies result@.contains(
            x,
        ) by {
            assert(orig.contains(x));
        }
        assert(t == nu);
    }
}

} // verus!
