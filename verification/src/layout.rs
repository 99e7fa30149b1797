//! The on-disk directory structure of one toolchain build.
//!
//! All paths are deterministic joins of the layout root with fixed stage
//! names; the root itself is the base output directory joined with the
//! canonical identity of the triple. Directories are created lazily and
//! idempotently by the caller; nothing here touches the filesystem.

use vstd::prelude::*;
use vstd::string::StringExecFns;

use crate::stage::StageId;
use crate::stage::marker_of;
use crate::stage::temp_marker_of;

verus! {

/// One path component appended below a directory, separated by `/`.
pub open spec fn subpath_of(dir: Seq<char>, name: Seq<char>) -> Seq<char> {
    dir + "/"@ + name
}

pub open spec fn binutils_build_of(root: Seq<char>) -> Seq<char> {
    subpath_of(root, "binutils-build"@)
}

pub open spec fn gcc1_build_of(root: Seq<char>) -> Seq<char> {
    subpath_of(root, "gcc-pass1-build"@)
}

pub open spec fn glibc_build_of(root: Seq<char>) -> Seq<char> {
    subpath_of(root, "glibc-build"@)
}

pub open spec fn gcc2_build_of(root: Seq<char>) -> Seq<char> {
    subpath_of(root, "gcc-pass2-build"@)
}

pub open spec fn sysroot_of(root: Seq<char>) -> Seq<char> {
    subpath_of(root, "sysroot"@)
}

pub open spec fn headers_dest_of(root: Seq<char>) -> Seq<char> {
    subpath_of(sysroot_of(root), "usr/include"@)
}

/// The full path of a stage's completion marker under a layout root.
pub open spec fn marker_path_of(root: Seq<char>, s: StageId) -> Seq<char> {
    subpath_of(root, marker_of(s))
}

/// The full path a marker is first written under, before the atomic rename.
pub open spec fn temp_marker_path_of(root: Seq<char>, s: StageId) -> Seq<char> {
    subpath_of(root, temp_marker_of(s))
}

/// Appends `/` and `name` to a copy of `dir`.
pub fn join_path(dir: &String, name: &str) -> (r: String)
    ensures
        r@ == subpath_of(dir@, name@),
{
    let mut r = dir.clone();
    r.append("/");
    r.append(name);
    r
}

/// The concrete directory structure for one toolchain identity: the root,
/// one build directory per stage, the kernel headers destination, and the
/// shared sysroot that the C library and the final compiler pass consume.
pub struct ToolchainLayout {
    pub root: String,
    pub binutils_build: String,
    pub gcc1_build: String,
    pub headers_dest: String,
    pub glibc_build: String,
    pub gcc2_build: String,
    pub sysroot: String,
}

impl ToolchainLayout {
    /// Every subpath is the documented join of the root with its fixed name.
    pub open spec fn wf(&self) -> bool {
        &&& self.binutils_build@ == binutils_build_of(self.root@)
        &&& self.gcc1_build@ == gcc1_build_of(self.root@)
        &&& self.headers_dest@ == headers_dest_of(self.root@)
        &&& self.glibc_build@ == glibc_build_of(self.root@)
        &&& self.gcc2_build@ == gcc2_build_of(self.root@)
        &&& self.sysroot@ == sysroot_of(self.root@)
    }

    /// Builds the layout whose root is the given directory.
    pub fn from_root(root: String) -> (l: ToolchainLayout)
        ensures
            l.root == root,
            l.wf(),
    {
        let binutils_build = join_path(&root, "binutils-build");
        let gcc1_build = join_path(&root, "gcc-pass1-build");
        let glibc_build = join_path(&root, "glibc-build");
        let gcc2_build = join_path(&root, "gcc-pass2-build");
        let sysroot = join_path(&root, "sysroot");
        let headers_dest = join_path(&sysroot, "usr/include");
        ToolchainLayout { root, binutils_build, gcc1_build, headers_dest, glibc_build, gcc2_build, sysroot }
    }

    /// Builds the layout for one identity under a base output directory:
    /// the root is `base_outdir/identity`.
    pub fn new(base_outdir: &String, identity: &String) -> (l: ToolchainLayout)
        ensures
            l.root@ == subpath_of(base_outdir@, identity@),
            l.wf(),
    {
        ToolchainLayout::from_root(join_path(base_outdir, identity.as_str()))
    }

    /// The full path of a stage's completion marker under this root.
    pub fn marker_path(&self, s: StageId) -> (r: String)
        ensures
            r@ == marker_path_of(self.root@, s),
    {
        let name = crate::stage::marker_file_name(s);
        join_path(&self.root, name.as_str())
    }

    /// The full path a stage's marker is first written under; the caller
    /// renames it onto [`Self::marker_path`] once the write is complete.
    pub fn temp_marker_path(&self, s: StageId) -> (r: String)
        ensures
            r@ == temp_marker_path_of(self.root@, s),
    {
        let name = crate::stage::temp_marker_file_name(s);
        join_path(&self.root, name.as_str())
    }

    /// The directories of the layout, root first: the caller creates each
    /// of them (create-if-absent, never destructive) during the setup stage.
    pub fn all_dirs(&self) -> (r: Vec<String>)
        ensures
            r.deep_view() =~= seq![
                self.root@,
                self.binutils_build@,
                self.gcc1_build@,
                self.headers_dest@,
                self.glibc_build@,
                self.gcc2_build@,
                self.sysroot@,
            ],
    {
        let mut r: Vec<String> = Vec::new();
        r.push(self.root.clone());
        r.push(self.binutils_build.clone());
        r.push(self.gcc1_build.clone());
        r.push(self.headers_dest.clone());
        r.push(self.glibc_build.clone());
        r.push(self.gcc2_build.clone());
        r.push(self.sysroot.clone());
        r
    }
}

/// The artifacts a stage requires from prior stages, at their expected
/// paths under a layout root: nothing for setup; the root itself for
/// binutils; installed binutils for the first compiler pass and the kernel
/// header export; that pass and the exported headers for the C library; the
/// C library and the first pass for the final compiler pass.
pub open spec fn required_paths_of(root: Seq<char>, s: StageId) -> Seq<Seq<char>> {
    match s {
        StageId::Setup => seq![],
        StageId::Binutils => seq![root],
        StageId::Gcc1 => seq![binutils_build_of(root)],
        StageId::LinuxHeaders => seq![binutils_build_of(root)],
        StageId::Glibc => seq![gcc1_build_of(root), headers_dest_of(root)],
        StageId::Gcc2 => seq![glibc_build_of(root), gcc1_build_of(root)],
    }
}

/// The output artifacts a stage must leave behind, at their documented
/// paths: the stage's own directory of the layout.
pub open spec fn product_paths_of(root: Seq<char>, s: StageId) -> Seq<Seq<char>> {
    match s {
        StageId::Setup => seq![root],
        StageId::Binutils => seq![binutils_build_of(root)],
        StageId::Gcc1 => seq![gcc1_build_of(root)],
        StageId::LinuxHeaders => seq![headers_dest_of(root)],
        StageId::Glibc => seq![glibc_build_of(root)],
        StageId::Gcc2 => seq![gcc2_build_of(root)],
    }
}

impl ToolchainLayout {
    /// The precondition paths of a stage: each must exist before its build
    /// step is attempted, else the stage fails with a missing dependency.
    pub fn required_paths(&self, s: StageId) -> (r: Vec<String>)
        requires
            self.wf(),
        ensures
            r.deep_view() =~= required_paths_of(self.root@, s),
    {
        let mut r: Vec<String> = Vec::new();
        match s {
            StageId::Setup => {},
            StageId::Binutils => {
                r.push(self.root.clone());
            },
            StageId::Gcc1 => {
                r.push(self.binutils_build.clone());
            },
            StageId::LinuxHeaders => {
                r.push(self.binutils_build.clone());
            },
            StageId::Glibc => {
                r.push(self.gcc1_build.clone());
                r.push(self.headers_dest.clone());
            },
            StageId::Gcc2 => {
                r.push(self.glibc_build.clone());
                r.push(self.gcc1_build.clone());
            },
        }
        r
    }

    /// The postcondition paths of a stage: each must exist after the build
    /// step reports success, else the stage fails with an unmet
    /// postcondition and the completion marker is never written.
    pub fn product_paths(&self, s: StageId) -> (r: Vec<String>)
        requires
            self.wf(),
        ensures
            r.deep_view() =~= product_paths_of(self.root@, s),
    {
        let mut r: Vec<String> = Vec::new();
        match s {
            StageId::Setup => {
                r.push(self.root.clone());
            },
            StageId::Binutils => {
                r.push(self.binutils_build.clone());
            },
            StageId::Gcc1 => {
                r.push(self.gcc1_build.clone());
            },
            StageId::LinuxHeaders => {
                r.push(self.headers_dest.clone());
            },
            StageId::Glibc => {
                r.push(self.glibc_build.clone());
            },
            StageId::Gcc2 => {
                r.push(self.gcc2_build.clone());
            },
        }
        r
    }
}

} // verus!
