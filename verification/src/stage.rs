//! The fixed pipeline of bootstrap stages and their completion markers.
//!
//! The stage order is a structural invariant of the whole system: a first
//! compiler pass needs binutils, the C library needs the kernel headers and
//! that first pass, and the final pass needs the C library. It is never
//! reordered at runtime.

use vstd::prelude::*;
use vstd::string::StringExecFns;

verus! {

/// The stages of the pipeline, in their fixed total order.
#[derive(Clone, Copy, Debug, PartialEq, Eq, Structural)]
pub enum StageId {
    /// Ensures the output root and its subdirectories exist.
    Setup,
    /// Assembler, linker and the other binutils.
    Binutils,
    /// The minimal, libc-less first compiler pass.
    Gcc1,
    /// Exported, architecture-sanitized kernel headers.
    LinuxHeaders,
    /// The target C library and dynamic loader.
    Glibc,
    /// The full, libc-linked final compiler pass: the deliverable.
    Gcc2,
}

/// How many stages the pipeline has.
pub const STAGE_COUNT: usize = 6;

/// The position of a stage in the fixed order.
pub open spec fn stage_index(s: StageId) -> int {
    match s {
        StageId::Setup => 0,
        StageId::Binutils => 1,
        StageId::Gcc1 => 2,
        StageId::LinuxHeaders => 3,
        StageId::Glibc => 4,
        StageId::Gcc2 => 5,
    }
}

/// The stage at a position of the fixed order.
pub open spec fn stage_at(i: int) -> StageId {
    if i == 0 {
        StageId::Setup
    } else if i == 1 {
        StageId::Binutils
    } else if i == 2 {
        StageId::Gcc1
    } else if i == 3 {
        StageId::LinuxHeaders
    } else if i == 4 {
        StageId::Glibc
    } else {
        StageId::Gcc2
    }
}

pub proof fn lemma_stage_order_roundtrip(s: StageId)
    ensures
        stage_at(stage_index(s)) == s,
        0 <= stage_index(s) < STAGE_COUNT,
{
}

pub fn stage_of_index(i: usize) -> (s: StageId)
    requires
        i < STAGE_COUNT,
    ensures
        s == stage_at(i as int),
        stage_index(s) == i as int,
{
    if i == 0 {
        StageId::Setup
    } else if i == 1 {
        StageId::Binutils
    } else if i == 2 {
        StageId::Gcc1
    } else if i == 3 {
        StageId::LinuxHeaders
    } else if i == 4 {
        StageId::Glibc
    } else {
        StageId::Gcc2
    }
}

pub fn stage_index_exec(s: StageId) -> (i: usize)
    ensures
        i as int == stage_index(s),
        i < STAGE_COUNT,
{
    match s {
        StageId::Setup => 0,
        StageId::Binutils => 1,
        StageId::Gcc1 => 2,
        StageId::LinuxHeaders => 3,
        StageId::Glibc => 4,
        StageId::Gcc2 => 5,
    }
}

/// The file name of a stage's completion marker, relative to the layout
/// root. Presence of this file means the stage's postconditions were
/// verified at least once.
pub open spec fn marker_of(s: StageId) -> Seq<char> {
    match s {
        StageId::Setup => "setup.done"@,
        StageId::Binutils => "binutils.done"@,
        StageId::Gcc1 => "gcc-pass1.done"@,
        StageId::LinuxHeaders => "linux-headers.done"@,
        StageId::Glibc => "glibc.done"@,
        StageId::Gcc2 => "gcc-pass2.done"@,
    }
}

/// The name a marker is first written under; it becomes the marker proper
/// only by the atomic rename that follows.
pub open spec fn temp_marker_of(s: StageId) -> Seq<char> {
    marker_of(s) + ".tmp"@
}

pub fn marker_file_name(s: StageId) -> (r: String)
    ensures
        r@ == marker_of(s),
{
    match s {
        StageId::Setup => "setup.done".to_owned(),
        StageId::Binutils => "binutils.done".to_owned(),
        StageId::Gcc1 => "gcc-pass1.done".to_owned(),
        StageId::LinuxHeaders => "linux-headers.done".to_owned(),
        StageId::Glibc => "glibc.done".to_owned(),
        StageId::Gcc2 => "gcc-pass2.done".to_owned(),
    }
}

pub fn temp_marker_file_name(s: StageId) -> (r: String)
    ensures
        r@ == temp_marker_of(s),
{
    let mut r = marker_file_name(s);
    r.append(".tmp");
    r
}

/// No temporary marker name is ever a completion marker name: a crash that
/// leaves only the temporary file behind can never be read as completion.
pub proof fn lemma_temp_marker_is_no_marker(s: StageId, t: StageId)
    ensures
        temp_marker_of(s) != marker_of(t),
{
    reveal_strlit(".tmp");
    reveal_strlit("setup.done");
    reveal_strlit("binutils.done");
    reveal_strlit("gcc-pass1.done");
    reveal_strlit("linux-headers.done");
    reveal_strlit("glibc.done");
    reveal_strlit("gcc-pass2.done");
    let tm = temp_marker_of(s);
    let mk = marker_of(t);
    assert(tm.len() == marker_of(s).len() + 4);
    assert(tm[tm.len() - 1] == 'p');
    match t {
        StageId::Setup => assert(mk[mk.len() - 1] == 'e'),
        StageId::Binutils => assert(mk[mk.len() - 1] == 'e'),
        StageId::Gcc1 => assert(mk[mk.len() - 1] == 'e'),
        StageId::LinuxHeaders => assert(mk[mk.len() - 1] == 'e'),
        StageId::Glibc => assert(mk[mk.len() - 1] == 'e'),
        StageId::Gcc2 => assert(mk[mk.len() - 1] == 'e'),
    }
}

} // verus!
