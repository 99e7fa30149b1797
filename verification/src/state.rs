//! The persisted record of which stages have completed.
//!
//! On disk the record is one marker file per completed stage, kept directly
//! under the layout root and written only after the stage's postconditions
//! were verified. The write is atomic with respect to interruption: the
//! marker is written under a temporary name and renamed into place, so a
//! crash mid-write never produces a false "completed" reading on the next
//! load. This module holds the in-memory record and the loading rule; the
//! caller lists the directory and performs the writes.

use vstd::prelude::*;

use crate::stage::StageId;
use crate::stage::STAGE_COUNT;
use crate::stage::lemma_stage_order_roundtrip;
use crate::stage::lemma_temp_marker_is_no_marker;
use crate::stage::marker_file_name;
use crate::stage::marker_of;
use crate::stage::stage_at;
use crate::stage::stage_index;
use crate::stage::stage_of_index;
use crate::stage::temp_marker_of;

verus! {

/// Whether one of the names is exactly `name`.
pub open spec fn contains_name(files: Seq<Seq<char>>, name: Seq<char>) -> bool {
    exists|i: int| 0 <= i < files.len() && files[i] == name
}

/// Which stages of one toolchain build have completed. Viewed as one flag
/// per stage, in stage order; flags only ever move from false to true.
pub struct BuildState {
    completed: Vec<bool>,
}

/// `st` is exactly what loading the given directory listing yields: a stage
/// counts as completed precisely when its completion marker — never a
/// temporary or any other file — is among the names.
pub open spec fn loaded_from(st: BuildState, files: Seq<Seq<char>>) -> bool {
    &&& st.wf()
    &&& forall|s: StageId| st.spec_is_completed(s) <==> contains_name(files, marker_of(s))
}

impl View for BuildState {
    type V = Seq<bool>;

    closed spec fn view(&self) -> Seq<bool> {
        self.completed@
    }
}

impl BuildState {
    pub open spec fn wf(&self) -> bool {
        self@.len() == STAGE_COUNT
    }

    pub open spec fn spec_is_completed(&self, s: StageId) -> bool {
        self@[stage_index(s)]
    }

    /// The empty record: no stage has completed.
    pub fn new() -> (st: BuildState)
        ensures
            st.wf(),
            forall|s: StageId| !st.spec_is_completed(s),
    {
        let mut completed: Vec<bool> = Vec::new();
        let mut i: usize = 0;
        while i < STAGE_COUNT
            invariant
                i <= STAGE_COUNT,
                completed@.len() == i,
                forall|k: int| 0 <= k < i ==> !completed@[k],
            decreases STAGE_COUNT - i,
        {
            completed.push(false);
            i = i + 1;
        }
        let st = BuildState { completed };
        proof {
            assert forall|s: StageId| !st.spec_is_completed(s) by {
                lemma_stage_order_roundtrip(s);
            }
        }
        st
    }

    /// Reads the record back from a directory listing of the layout root:
    /// a stage is completed exactly when its marker file name is present.
    pub fn load(files: &Vec<String>) -> (st: BuildState)
        ensures
            loaded_from(st, files.deep_view()),
    {
        let mut completed: Vec<bool> = Vec::new();
        let mut i: usize = 0;
        while i < STAGE_COUNT
            invariant
                i <= STAGE_COUNT,
                completed@.len() == i,
                forall|k: int| 0 <= k < i
                    ==> completed@[k] == contains_name(files.deep_view(), marker_of(stage_at(k))),
            decreases STAGE_COUNT - i,
        {
            let stage = stage_of_index(i);
            let marker = marker_file_name(stage);
            let mut found = false;
            let mut j: usize = 0;
            while j < files.len()
                invariant
                    j <= files.len(),
                    marker@ == marker_of(stage),
                    found == exists|k: int| 0 <= k < j && files.deep_view()[k] == marker_of(stage),
                decreases files.len() - j,
            {
                let hit = files[j] == marker;
                proof {
                    assert(files.deep_view()[j as int] == files@[j as int]@);
                }
                if hit {
                    found = true;
                    proof {
                        assert(files.deep_view()[j as int] == marker_of(stage));
                    }
                }
                j = j + 1;
            }
            completed.push(found);
            i = i + 1;
        }
        let st = BuildState { completed };
        proof {
            assert forall|s: StageId|
                st.spec_is_completed(s) <==> contains_name(files.deep_view(), marker_of(s)) by {
                lemma_stage_order_roundtrip(s);
            }
        }
        st
    }

    pub fn is_completed(&self, s: StageId) -> (r: bool)
        requires
            self.wf(),
        ensures
            r == self.spec_is_completed(s),
    {
        proof {
            lemma_stage_order_roundtrip(s);
        }
        let i: usize = crate::stage::stage_index_exec(s);
        self.completed[i]
    }

    /// Records a stage as completed. The transition is monotone: no flag is
    /// ever cleared, and the other stages are untouched. The caller persists
    /// the marker file (temporary write, then rename) before recording.
    pub fn mark_completed(&mut self, s: StageId)
        requires
            old(self).wf(),
        ensures
            final(self).wf(),
            final(self)@ == old(self)@.update(stage_index(s), true),
            final(self).spec_is_completed(s),
            forall|t: StageId| t != s
                ==> final(self).spec_is_completed(t) == old(self).spec_is_completed(t),
    {
        proof {
            lemma_stage_order_roundtrip(s);
        }
        let i: usize = crate::stage::stage_index_exec(s);
        self.completed.set(i, true);
        proof {
            assert forall|t: StageId| t != s implies self.spec_is_completed(t)
                == old(self).spec_is_completed(t) by {
                lemma_stage_order_roundtrip(t);
                lemma_stage_distinct_index(s, t);
            }
        }
    }

    /// Whether every stage of the pipeline is recorded as completed.
    pub fn all_completed(&self) -> (r: bool)
        requires
            self.wf(),
        ensures
            r == forall|s: StageId| self.spec_is_completed(s),
    {
        let mut i: usize = 0;
        let mut all = true;
        while i < STAGE_COUNT
            invariant
                self.wf(),
                i <= STAGE_COUNT,
                all == forall|k: int| 0 <= k < i ==> self@[k],
            decreases STAGE_COUNT - i,
        {
            if !self.completed[i] {
                all = false;
            }
            i = i + 1;
        }
        proof {
            if all {
                assert forall|s: StageId| self.spec_is_completed(s) by {
                    lemma_stage_order_roundtrip(s);
                }
            } else {
                let k = choose|k: int| 0 <= k < STAGE_COUNT && !self@[k];
                lemma_stage_order_roundtrip(stage_at(k));
                assert(!self.spec_is_completed(stage_at(k)));
            }
        }
        all
    }
}

proof fn lemma_stage_distinct_index(s: StageId, t: StageId)
    requires
        s != t,
    ensures
        stage_index(s) != stage_index(t),
{
}

/// Law: a stage whose completion marker is absent from the directory is
/// read back as not completed, whatever else the directory holds.
pub proof fn lemma_absent_marker_reads_incomplete(st: BuildState, files: Seq<Seq<char>>, s: StageId)
    requires
        loaded_from(st, files),
        !contains_name(files, marker_of(s)),
    ensures
        !st.spec_is_completed(s),
{
}

/// Law: a directory holding every stage's completion marker loads as a
/// fully completed record, so a rerun after full success skips everything.
pub proof fn lemma_all_markers_read_completed(st: BuildState, files: Seq<Seq<char>>)
    requires
        loaded_from(st, files),
        forall|s: StageId| contains_name(files, marker_of(s)),
    ensures
        forall|s: StageId| st.spec_is_completed(s),
{
}

/// Law: a crash between the temporary write and the rename leaves the stage
/// incomplete on the next load. A directory holding only temporary marker
/// names — the rename of each pending marker never happened — reads back
/// with every stage incomplete.
pub proof fn lemma_temp_markers_read_incomplete(st: BuildState, files: Seq<Seq<char>>, s: StageId)
    requires
        loaded_from(st, files),
        forall|i: int| #![trigger files[i]] 0 <= i < files.len()
            ==> exists|t: StageId| files[i] == #[trigger] temp_marker_of(t),
    ensures
        !st.spec_is_completed(s),
{
    if st.spec_is_completed(s) {
        let i = choose|i: int| 0 <= i < files.len() && files[i] == marker_of(s);
        let t = choose|t: StageId| files[i] == temp_marker_of(t);
        lemma_temp_marker_is_no_marker(t, s);
    }
}

} // verus!
