//! Filter state for input visibility.
//!
//! The filter controls which inputs are displayed on the timeline: a set of
//! visible input IDs plus one switch per input kind.

use crate::log::{InputKind, InputLog, InputMapping};
use std::collections::hash_map::RandomState;
use std::collections::HashSet;
use vstd::prelude::*;
use vstd::std_specs::hash::{builds_valid_hashers, obeys_key_model};

verus! {

broadcast use vstd::std_specs::hash::group_hash_axioms;

/// Filter state controlling input visibility on the timeline.
#[derive(Debug)]
pub struct FilterState {
    /// Set of visible input IDs.  Empty means all inputs are visible.
    pub visible_ids: HashSet<u32>,
    /// Whether to show button-type inputs.
    pub show_button: bool,
    /// Whether to show 1D axis inputs.
    pub show_axis1d: bool,
    /// Whether to show 2D axis inputs.
    pub show_axis2d: bool,
    /// Whether the filter has been initialized with IDs from a log.
    pub initialized: bool,
}

impl FilterState {
    /// Whether the filter has been fed the IDs of a loaded log.
    pub open spec fn spec_initialized(&self) -> bool {
        self.initialized
    }

    /// Whether the kind-level switch for `kind` is on.
    pub open spec fn spec_kind_visible(&self, kind: InputKind) -> bool {
        match kind {
            InputKind::Button => self.show_button,
            InputKind::Axis1D => self.show_axis1d,
            InputKind::Axis2D => self.show_axis2d,
        }
    }

    /// The visibility rule: the kind switch must be on, and when the filter
    /// is initialized with a non-empty ID set, the ID must be in it.
    pub open spec fn spec_is_visible(&self, id: u32, kind: InputKind) -> bool {
        &&& self.spec_kind_visible(kind)
        &&& (self.initialized && !self.visible_ids@.is_empty() ==> self.visible_ids@.contains(id))
    }

    /// How many input kinds are currently enabled.
    pub open spec fn spec_enabled_type_count(&self) -> int {
        (if self.show_button {
            1int
        } else {
            0int
        }) + (if self.show_axis1d {
            1int
        } else {
            0int
        }) + (if self.show_axis2d {
            1int
        } else {
            0int
        })
    }

    /// Create a new filter state with default settings (all visible).
    pub fn new() -> (r: Self)
        ensures
            r.visible_ids@ == Set::<u32>::empty(),
            r.show_button,
            r.show_axis1d,
            r.show_axis2d,
            !r.spec_initialized(),
    {
        FilterState {
            visible_ids: HashSet::new(),
            show_button: true,
            show_axis1d: true,
            show_axis2d: true,
            initialized: false,
        }
    }

    /// Initialize the filter with all mapped input IDs from the given log.
    /// Call this when a new log file is loaded.
    pub fn initialize_from_log(&mut self, log: &InputLog)
        ensures
            final(self).spec_initialized(),
            forall|id: u32|
                final(self).visible_ids@.contains(id) <==> exists|j: int|
                    0 <= j < log.mappings@.len() && #[trigger] log.mappings@[j].id == id,
            final(self).show_button == old(self).show_button,
            final(self).show_axis1d == old(self).show_axis1d,
            final(self).show_axis2d == old(self).show_axis2d,
    {
        proof {
            assert(obeys_key_model::<u32>());
            assert(builds_valid_hashers::<RandomState>());
        }
        let ghost b0 = self.show_button;
        let ghost a1 = self.show_axis1d;
        let ghost a2 = self.show_axis2d;
        self.visible_ids.clear();
        let n = log.mappings.len();
        let mut i: usize = 0;
        while i < n
            invariant
                0 <= i <= n,
                n == log.mappings@.len(),
                self.show_button == b0,
                self.show_axis1d == a1,
                self.show_axis2d == a2,
                obeys_key_model::<u32>(),
                builds_valid_hashers::<RandomState>(),
                forall|id: u32|
                    self.visible_ids@.contains(id) <==> exists|j: int|
                        0 <= j < i && #[trigger] log.mappings@[j].id == id,
            decreases n - i,
        {
            let ghost s0 = self.visible_ids@;
            self.visible_ids.insert(log.mappings[i].id);
            proof {
                assert forall|id: u32| self.visible_ids@.contains(id) implies exists|j: int|
                    0 <= j < i + 1 && #[trigger] log.mappings@[j].id == id by {
                    if id == log.mappings@[i as int].id {
                        assert(log.mappings@[i as int].id == id);
                    } else {
                        assert(s0.contains(id));
                    }
                }
            }
            i = i + 1;
        }
        self.initialized = true;
    }

    /// Reset the filter: all IDs from the log visible, all kinds shown.
    pub fn reset(&mut self, log: &InputLog)
        ensures
            final(self).spec_initialized(),
            forall|id: u32|
                final(self).visible_ids@.contains(id) <==> exists|j: int|
                    0 <= j < log.mappings@.len() && #[trigger] log.mappings@[j].id == id,
            final(self).show_button,
            final(self).show_axis1d,
            final(self).show_axis2d,
    {
        self.initialize_from_log(log);
        self.show_button = true;
        self.show_axis1d = true;
        self.show_axis2d = true;
    }

    /// Whether an input is visible under the current filter settings.
    pub fn is_visible(&self, id: u32, kind: InputKind) -> (r: bool)
        ensures
            r == self.spec_is_visible(id, kind),
    {
        proof {
            assert(obeys_key_model::<u32>());
            assert(builds_valid_hashers::<RandomState>());
        }
        let type_visible = match kind {
            InputKind::Button => self.show_button,
            InputKind::Axis1D => self.show_axis1d,
            InputKind::Axis2D => self.show_axis2d,
        };
        if !type_visible {
            return false;
        }
        if !self.initialized || self.visible_ids.is_empty() {
            return true;
        }
        self.visible_ids.contains(&id)
    }

    /// Toggle visibility of a specific input ID.
    pub fn toggle_id(&mut self, id: u32)
        ensures
            final(self).visible_ids@ == if old(self).visible_ids@.contains(id) {
                old(self).visible_ids@.remove(id)
            } else {
                old(self).visible_ids@.insert(id)
            },
            final(self).show_button == old(self).show_button,
            final(self).show_axis1d == old(self).show_axis1d,
            final(self).show_axis2d == old(self).show_axis2d,
            final(self).spec_initialized() == old(self).spec_initialized(),
    {
        proof {
            assert(obeys_key_model::<u32>());
            assert(builds_valid_hashers::<RandomState>());
        }
        if self.visible_ids.contains(&id) {
            self.visible_ids.remove(&id);
        } else {
            self.visible_ids.insert(id);
        }
    }

    /// Set visibility of a specific input ID.
    pub fn set_id_visible(&mut self, id: u32, visible: bool)
        ensures
            final(self).visible_ids@ == if visible {
                old(self).visible_ids@.insert(id)
            } else {
                old(self).visible_ids@.remove(id)
            },
            final(self).show_button == old(self).show_button,
            final(self).show_axis1d == old(self).show_axis1d,
            final(self).show_axis2d == old(self).show_axis2d,
            final(self).spec_initialized() == old(self).spec_initialized(),
    {
        proof {
            assert(obeys_key_model::<u32>());
            assert(builds_valid_hashers::<RandomState>());
        }
        if visible {
            self.visible_ids.insert(id);
        } else {
            self.visible_ids.remove(&id);
        }
    }

    /// Make every ID in the given mappings visible.
    pub fn select_all(&mut self, mappings: &[InputMapping])
        ensures
            forall|j: int|
                0 <= j < mappings@.len() ==> final(self).visible_ids@.contains(
                    #[trigger] mappings@[j].id,
                ),
            forall|id: u32|
                old(self).visible_ids@.contains(id) ==> final(self).visible_ids@.contains(id),
            final(self).show_button == old(self).show_button,
            final(self).show_axis1d == old(self).show_axis1d,
            final(self).show_axis2d == old(self).show_axis2d,
            final(self).spec_initialized() == old(self).spec_initialized(),
    {
        proof {
            assert(obeys_key_model::<u32>());
            assert(builds_valid_hashers::<RandomState>());
        }
        let n = mappings.len();
        let mut i: usize = 0;
        while i < n
            invariant
                0 <= i <= n,
                n == mappings@.len(),
                obeys_key_model::<u32>(),
                builds_valid_hashers::<RandomState>(),
                forall|j: int|
                    0 <= j < i ==> self.visible_ids@.contains(#[trigger] mappings@[j].id),
                forall|id: u32|
                    old(self).visible_ids@.contains(id) ==> self.visible_ids@.contains(id),
                self.show_button == old(self).show_button,
                self.show_axis1d == old(self).show_axis1d,
                self.show_axis2d == old(self).show_axis2d,
                self.spec_initialized() == old(self).spec_initialized(),
            decreases n - i,
        {
            self.visible_ids.insert(mappings[i].id);
            i = i + 1;
        }
    }

    /// Clear the visible set entirely.
    pub fn deselect_all(&mut self)
        ensures
            final(self).visible_ids@ == Set::<u32>::empty(),
            final(self).show_button == old(self).show_button,
            final(self).show_axis1d == old(self).show_axis1d,
            final(self).show_axis2d == old(self).show_axis2d,
            final(self).spec_initialized() == old(self).spec_initialized(),
    {
        self.visible_ids.clear();
    }

    /// Whether every ID in the given mappings is currently visible.
    pub fn all_selected(&self, mappings: &[InputMapping]) -> (r: bool)
        ensures
            r == forall|j: int|
                0 <= j < mappings@.len() ==> self.visible_ids@.contains(
                    #[trigger] mappings@[j].id,
                ),
    {
        proof {
            assert(obeys_key_model::<u32>());
            assert(builds_valid_hashers::<RandomState>());
        }
        let n = mappings.len();
        let mut i: usize = 0;
        while i < n
            invariant
                0 <= i <= n,
                n == mappings@.len(),
                obeys_key_model::<u32>(),
                builds_valid_hashers::<RandomState>(),
                forall|j: int|
                    0 <= j < i ==> self.visible_ids@.contains(#[trigger] mappings@[j].id),
            decreases n - i,
        {
            if !self.visible_ids.contains(&mappings[i].id) {
                return false;
            }
            i = i + 1;
        }
        true
    }

    /// Whether no IDs are currently selected.
    pub fn none_selected(&self) -> (r: bool)
        ensures
            r == self.visible_ids@.is_empty(),
    {
        self.visible_ids.is_empty()
    }

    /// Whether the filter has been initialized.
    pub fn is_initialized(&self) -> (r: bool)
        ensures
            r == self.spec_initialized(),
    {
        self.initialized
    }

    /// Count how many input kinds are currently enabled.
    pub fn enabled_type_count(&self) -> (r: u32)
        ensures
            r == self.spec_enabled_type_count(),
    {
        let mut count: u32 = 0;
        if self.show_button {
            count = count + 1;
        }
        if self.show_axis1d {
            count = count + 1;
        }
        if self.show_axis2d {
            count = count + 1;
        }
        count
    }

    /// Whether a kind can be disabled: always when it is off already, and
    /// otherwise only if another kind would remain enabled.
    pub fn can_disable_type(&self, kind: InputKind) -> (r: bool)
        ensures
            r == (!self.spec_kind_visible(kind) || self.spec_enabled_type_count() > 1),
    {
        let is_currently_enabled = match kind {
            InputKind::Button => self.show_button,
            InputKind::Axis1D => self.show_axis1d,
            InputKind::Axis2D => self.show_axis2d,
        };
        !is_currently_enabled || self.enabled_type_count() > 1
    }

    /// Set the visibility of an input kind.  Enabling always succeeds;
    /// disabling is refused (returning false) when it would leave no kind
    /// enabled.
    pub fn set_type_visible(&mut self, kind: InputKind, visible: bool) -> (r: bool)
        ensures
            r == (visible || !old(self).spec_kind_visible(kind) || old(self).spec_enabled_type_count() > 1),
            r ==> final(self).spec_kind_visible(kind) == visible,
            !r ==> *final(self) == *old(self),
            final(self).visible_ids@ == old(self).visible_ids@,
            final(self).spec_initialized() == old(self).spec_initialized(),
            match kind {
                InputKind::Button => final(self).show_axis1d == old(self).show_axis1d && final(self).show_axis2d == old(self).show_axis2d,
                InputKind::Axis1D => final(self).show_button == old(self).show_button && final(self).show_axis2d == old(self).show_axis2d,
                InputKind::Axis2D => final(self).show_button == old(self).show_button && final(self).show_axis1d == old(self).show_axis1d,
            },
    {
        if visible {
            match kind {
                InputKind::Button => self.show_button = true,
                InputKind::Axis1D => self.show_axis1d = true,
                InputKind::Axis2D => self.show_axis2d = true,
            }
            return true;
        }
        if !self.can_disable_type(kind) {
            return false;
        }
        match kind {
            InputKind::Button => self.show_button = false,
            InputKind::Axis1D => self.show_axis1d = false,
            InputKind::Axis2D => self.show_axis2d = false,
        }
        true
    }
}

impl Default for FilterState {
    /// Defaults match `new`: everything visible, not yet initialized.
    fn default() -> (r: Self)
        ensures
            r.visible_ids@ == Set::<u32>::empty(),
            r.show_button,
            r.show_axis1d,
            r.show_axis2d,
            !r.spec_initialized(),
    {
        FilterState::new()
    }
}

} // verus!
