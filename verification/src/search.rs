//! Search over input logs: query criteria, result navigation, and the frame
//! matcher.

use crate::log::{ButtonState, InputEvent, InputKind, InputLog};
use vstd::prelude::*;
use vstd::seq_lib::*;

verus! {

/// Search criteria for finding matching frames.
#[derive(Debug, Clone, Copy)]
pub struct SearchQuery {
    /// Filter by input ID (`None` matches any input).
    pub input_id: Option<u32>,
    /// Filter by input kind (`None` matches any kind).
    pub kind: Option<InputKind>,
    /// Filter by button state (`None` matches any state; only applies to
    /// button-kind events).
    pub button_state: Option<ButtonState>,
}

/// Whether an event satisfies every criterion of the query.  The state
/// criterion only constrains button-kind events.
pub open spec fn spec_query_matches(q: SearchQuery, e: InputEvent) -> bool {
    &&& (match q.input_id {
        Some(id) => e.id == id,
        None => true,
    })
    &&& (match q.kind {
        Some(k) => e.kind == k,
        None => true,
    })
    &&& (match q.button_state {
        Some(s) => e.kind == InputKind::Button ==> e.state == s,
        None => true,
    })
}

impl SearchQuery {
    /// No criteria at all.
    pub open spec fn spec_is_empty(&self) -> bool {
        self.input_id is None && self.kind is None && self.button_state is None
    }

    /// Create a new empty search query that matches all events.
    pub fn new() -> (r: Self)
        ensures
            r.input_id is None,
            r.kind is None,
            r.button_state is None,
    {
        SearchQuery { input_id: None, kind: None, button_state: None }
    }

    /// Create a query for a specific input ID.
    pub fn with_input_id(input_id: u32) -> (r: Self)
        ensures
            r.input_id == Some(input_id),
            r.kind is None,
            r.button_state is None,
    {
        SearchQuery { input_id: Some(input_id), kind: None, button_state: None }
    }

    /// Set the input ID criterion.
    pub fn input_id(self, id: u32) -> (r: Self)
        ensures
            r == (SearchQuery { input_id: Some(id), ..self }),
    {
        SearchQuery { input_id: Some(id), ..self }
    }

    /// Set the input kind criterion.
    pub fn kind(self, kind: InputKind) -> (r: Self)
        ensures
            r == (SearchQuery { kind: Some(kind), ..self }),
    {
        SearchQuery { kind: Some(kind), ..self }
    }

    /// Set the button state criterion (only applies to button-kind events).
    pub fn button_state(self, state: ButtonState) -> (r: Self)
        ensures
            r == (SearchQuery { button_state: Some(state), ..self }),
    {
        SearchQuery { button_state: Some(state), ..self }
    }

    /// Whether no criteria are set.
    pub fn is_empty(&self) -> (r: bool)
        ensures
            r == self.spec_is_empty(),
    {
        self.input_id.is_none() && self.kind.is_none() && self.button_state.is_none()
    }

    /// Whether an event matches this query.
    pub fn matches(&self, event: &InputEvent) -> (r: bool)
        ensures
            r == spec_query_matches(*self, *event),
    {
        if let Some(id) = self.input_id {
            if event.id != id {
                return false;
            }
        }
        if let Some(kind) = self.kind {
            if event.kind != kind {
                return false;
            }
        }
        if let Some(state) = self.button_state {
            if event.kind == InputKind::Button && event.state != state {
                return false;
            }
        }
        true
    }
}

impl Default for SearchQuery {
    /// Defaults to the empty query.
    fn default() -> (r: Self)
        ensures
            r.input_id is None,
            r.kind is None,
            r.button_state is None,
    {
        SearchQuery::new()
    }
}

/// Search results: the matching frame numbers and a cursor among them.
#[derive(Debug, Clone, PartialEq)]
pub struct SearchResult {
    /// Frame numbers that match the query, in strictly ascending order.
    pub matches: Vec<u64>,
    /// Current position in the matches list (`None` when empty).
    pub current_index: Option<usize>,
}

impl SearchResult {
    /// The cursor, when present, points inside the matches list.
    pub open spec fn wf(&self) -> bool {
        match self.current_index {
            Some(i) => i < self.matches@.len(),
            None => true,
        }
    }

    /// An empty search result.
    pub fn new() -> (r: Self)
        ensures
            r.matches@.len() == 0,
            r.current_index is None,
            r.wf(),
    {
        SearchResult { matches: Vec::new(), current_index: None }
    }

    /// Results from a list of matching frames, with the cursor on the first
    /// match (or absent when there are none).
    pub fn from_matches(matches: Vec<u64>) -> (r: Self)
        ensures
            r.matches@ == matches@,
            r.current_index == (if matches@.len() == 0 {
                Option::<usize>::None
            } else {
                Option::<usize>::Some(0usize)
            }),
            r.wf(),
    {
        let current_index: Option<usize> = if matches.len() == 0 {
            None
        } else {
            Some(0)
        };
        SearchResult { matches, current_index }
    }

    /// The total number of matches.
    pub fn count(&self) -> (r: usize)
        ensures
            r == self.matches@.len(),
    {
        self.matches.len()
    }

    /// Whether there are any matches.
    pub fn is_empty(&self) -> (r: bool)
        ensures
            r == (self.matches@.len() == 0),
    {
        self.matches.len() == 0
    }

    /// The frame number under the cursor, if any.
    pub fn current_frame(&self) -> (r: Option<u64>)
        ensures
            r == (match self.current_index {
                Some(i) => if i < self.matches@.len() {
                    Some(self.matches@[i as int])
                } else {
                    Option::<u64>::None
                },
                None => Option::<u64>::None,
            }),
    {
        match self.current_index {
            Some(i) => if i < self.matches.len() {
                Some(self.matches[i])
            } else {
                None
            },
            None => None,
        }
    }

    /// The 1-based cursor position for display (e.g. "3 of 10").
    pub fn current_position(&self) -> (r: Option<usize>)
        requires
            self.wf(),
        ensures
            r == (match self.current_index {
                Some(i) => Some((i + 1) as usize),
                None => Option::<usize>::None,
            }),
    {
        match self.current_index {
            Some(i) => {
                let n = self.matches.len();
                proof {
                    assert(i < n);
                }
                Some(i + 1)
            },
            None => None,
        }
    }

    /// Move the cursor to the next match, wrapping at the end, and return
    /// the frame under it.  Without matches nothing changes.
    pub fn next(&mut self) -> (r: Option<u64>)
        requires
            old(self).wf(),
        ensures
            final(self).matches@ == old(self).matches@,
            final(self).wf(),
            ({
                let len = old(self).matches@.len();
                if len == 0 {
                    r is None && *final(self) == *old(self)
                } else {
                    let ni = match old(self).current_index {
                        Some(i) => ((i + 1) as int) % (len as int),
                        None => 0int,
                    };
                    final(self).current_index == Some(ni as usize) && r == Some(
                        old(self).matches@[ni],
                    )
                }
            }),
    {
        if self.matches.len() == 0 {
            return None;
        }
        let new_index: usize = match self.current_index {
            Some(i) => (i + 1) % self.matches.len(),
            None => 0,
        };
        self.current_index = Some(new_index);
        Some(self.matches[new_index])
    }

    /// Move the cursor to the previous match, wrapping at the start, and
    /// return the frame under it.  Without matches nothing changes.
    pub fn prev(&mut self) -> (r: Option<u64>)
        requires
            old(self).wf(),
        ensures
            final(self).matches@ == old(self).matches@,
            final(self).wf(),
            ({
                let len = old(self).matches@.len();
                if len == 0 {
                    r is None && *final(self) == *old(self)
                } else {
                    let ni = match old(self).current_index {
                        Some(i) => if i == 0 {
                            len - 1
                        } else {
                            i - 1
                        },
                        None => len - 1,
                    };
                    final(self).current_index == Some(ni as usize) && r == Some(
                        old(self).matches@[ni as int],
                    )
                }
            }),
    {
        if self.matches.len() == 0 {
            return None;
        }
        let new_index: usize = match self.current_index {
            Some(i) => if i == 0 {
                self.matches.len() - 1
            } else {
                i - 1
            },
            None => self.matches.len() - 1,
        };
        self.current_index = Some(new_index);
        Some(self.matches[new_index])
    }

    /// Move the cursor to the first match at or after `frame`, or to the
    /// first match when none lies at or after it.
    pub fn set_closest_to_frame(&mut self, frame: u64)
        ensures
            final(self).matches@ == old(self).matches@,
            final(self).wf(),
            ({
                let s = old(self).matches@;
                if s.len() == 0 {
                    final(self).current_index is None
                } else if exists|i: int| 0 <= i < s.len() && s[i] >= frame {
                    exists|j: int|
                        {
                            &&& final(self).current_index == Some(j as usize)
                            &&& 0 <= j < s.len()
                            &&& s[j] >= frame
                            &&& forall|k: int| 0 <= k < j ==> s[k] < frame
                        }
                } else {
                    final(self).current_index == Some(0usize)
                }
            }),
    {
        let n = self.matches.len();
        if n == 0 {
            self.current_index = None;
            return ;
        }
        let mut i: usize = 0;
        while i < n && self.matches[i] < frame
            invariant
                0 <= i <= n,
                n == self.matches@.len(),
                forall|k: int| 0 <= k < i ==> self.matches@[k] < frame,
            decreases n - i,
        {
            i = i + 1;
        }
        if i < n {
            self.current_index = Some(i);
        } else {
            self.current_index = Some(0);
        }
    }

    /// Whether a frame is among the matches.
    pub fn contains_frame(&self, frame: u64) -> (r: bool)
        ensures
            r == self.matches@.contains(frame),
    {
        let n = self.matches.len();
        let mut i: usize = 0;
        while i < n
            invariant
                0 <= i <= n,
                n == self.matches@.len(),
                forall|k: int| 0 <= k < i ==> self.matches@[k] != frame,
            decreases n - i,
        {
            if self.matches[i] == frame {
                return true;
            }
            i = i + 1;
        }
        false
    }
}

impl Default for SearchResult {
    /// Defaults to the empty result.
    fn default() -> (r: Self)
        ensures
            r.matches@.len() == 0,
            r.current_index is None,
            r.wf(),
    {
        SearchResult::new()
    }
}

/// The sequence is strictly ascending.
pub open spec fn spec_strictly_sorted(s: Seq<u64>) -> bool {
    forall|i: int, j: int| 0 <= i < j < s.len() ==> s[i] < s[j]
}

/// Insert a frame into a strictly ascending sequence, keeping it strictly
/// ascending: the value is skipped if already present.
fn insert_sorted_unique(v: &mut Vec<u64>, x: u64)
    requires
        spec_strictly_sorted(old(v)@),
    ensures
        spec_strictly_sorted(final(v)@),
        forall|y: u64| final(v)@.contains(y) <==> old(v)@.contains(y) || y == x,
{
    let ghost s0 = v@;
    let n = v.len();
    let mut k: usize = 0;
    while k < n && v[k] < x
        invariant
            0 <= k <= n,
            n == v@.len(),
            v@ == s0,
            forall|j: int| 0 <= j < k ==> s0[j] < x,
        decreases n - k,
    {
        k = k + 1;
    }
    if k < n && v[k] == x {
        proof {
            assert(s0.contains(x)) by {
                assert(s0[k as int] == x);
            }
            assert forall|y: u64| v@.contains(y) implies s0.contains(y) || y == x by {}
        }
        return ;
    }
    v.insert(k, x);
    proof {
        s0.insert_ensures(k as int, x);
        let ins = s0.insert(k as int, x);
        assert(v@ == ins);
        assert forall|i: int, j: int| 0 <= i < j < ins.len() implies ins[i] < ins[j] by {
            if j < k {
                assert(ins[i] == s0[i] && ins[j] == s0[j]);
            } else if j == k {
                assert(ins[i] == s0[i] && ins[j] == x);
            } else if i < k {
                assert(ins[i] == s0[i] && ins[j] == s0[j - 1]);
                if i < j - 1 {
                    assert(s0[i] < s0[j - 1]);
                }
            } else if i == k {
                assert(ins[i] == x && ins[j] == s0[j - 1]);
                assert((k as int) < s0.len());
                assert(s0[k as int] > x || s0[k as int] == x);
                assert(s0[k as int] != x);
                assert(s0[k as int] <= s0[j - 1]);
            } else {
                assert(ins[i] == s0[i - 1] && ins[j] == s0[j - 1]);
            }
        }
        assert(ins[k as int] == x);
        assert forall|y: u64| ins.contains(y) implies s0.contains(y) || y == x by {
            let i1 = choose|i1: int| 0 <= i1 < ins.len() && ins[i1] == y;
            if i1 < k {
                assert(s0[i1] == y);
            } else if i1 > k {
                assert(s0[i1 - 1] == y);
            }
        }
        assert forall|y: u64| s0.contains(y) || y == x implies ins.contains(y) by {
            if y == x {
                assert(ins[k as int] == y);
            } else {
                let j0 = choose|j0: int| 0 <= j0 < s0.len() && s0[j0] == y;
                if j0 < k {
                    assert(ins[j0] == y);
                } else {
                    assert(ins[j0 + 1] == y);
                }
            }
        }
    }
}

/// Find all frames on which at least one event matches the query, in
/// strictly ascending order with no duplicates.  The empty query matches
/// nothing.
pub fn find_matches(log: &InputLog, query: &SearchQuery) -> (r: Vec<u64>)
    ensures
        spec_strictly_sorted(r@),
        forall|f: u64|
            #[trigger] r@.contains(f) <==> (!query.spec_is_empty() && exists|i: int|
                0 <= i < log.events@.len() && spec_query_matches(*query, #[trigger] log.events@[i])
                    && log.events@[i].frame == f),
{
    let mut frames: Vec<u64> = Vec::new();
    if query.is_empty() {
        return frames;
    }
    let n = log.events.len();
    let mut i: usize = 0;
    while i < n
        invariant
            0 <= i <= n,
            n == log.events@.len(),
            !query.spec_is_empty(),
            spec_strictly_sorted(frames@),
            forall|f: u64|
                #[trigger] frames@.contains(f) <==> exists|j: int|
                    0 <= j < i && spec_query_matches(*query, #[trigger] log.events@[j])
                        && log.events@[j].frame == f,
        decreases n - i,
    {
        if query.matches(&log.events[i]) {
            let ghost f0 = frames@;
            insert_sorted_unique(&mut frames, log.events[i].frame);
            proof {
                assert forall|f: u64| #[trigger] frames@.contains(f) implies exists|j: int|
                    0 <= j < i + 1 && spec_query_matches(*query, #[trigger] log.events@[j])
                        && log.events@[j].frame == f by {
                    if f0.contains(f) {
                    } else {
                        assert(f == log.events@[i as int].frame);
                        assert(spec_query_matches(*query, log.events@[i as int]));
                    }
                }
                assert forall|j: int|
                    0 <= j < i + 1 && spec_query_matches(*query, #[trigger] log.events@[j])
                        && log.events@[j].frame == log.events@[j].frame implies frames@.contains(
                    log.events@[j].frame) by {
                    if j < i {
                        assert(f0.contains(log.events@[j].frame));
                    }
                }
            }
        }
        i = i + 1;
    }
    frames
}

} // verus!
