//! The composition root: one configured run of the orchestrator.
//!
//! An [`App`] owns the configuration of one run and wires the pieces
//! together: the layout rooted at the configured output directory, the
//! uniform plan every stage executor works from, and the sequencer that
//! drives the stages. The caller performs the filesystem and build effects
//! the sequencer asks for; every decision is taken here.

use vstd::prelude::*;

use crate::config::Config;
use crate::layout::ToolchainLayout;
use crate::layout::marker_path_of;
use crate::layout::product_paths_of;
use crate::layout::required_paths_of;
use crate::layout::temp_marker_path_of;
use crate::sequencer::Phase;
use crate::sequencer::Sequencer;
use crate::sequencer::SequencerModel;
use crate::stage::StageId;
use crate::state::BuildState;

verus! {

/// The uniform shape of one stage's execution, computed from the layout:
/// which artifacts the stage requires from prior stages, which it must
/// produce, and where its completion marker lives. The five bootstrap
/// stages (and the setup stage before them) differ only in these values.
pub struct StagePlan {
    pub stage: StageId,
    /// Artifacts required from prior stages; each must exist before the
    /// build step is attempted.
    pub needs: Vec<String>,
    /// Output artifacts; each must exist after the build step succeeds,
    /// before the marker is written.
    pub products: Vec<String>,
    /// The completion marker's path under the layout root.
    pub marker: String,
    /// The temporary path the marker is written to before the atomic
    /// rename onto `marker`.
    pub temp_marker: String,
}

/// `p` is the plan of stage `s` for the layout rooted at `root`.
pub open spec fn plan_for(p: StagePlan, root: Seq<char>, s: StageId) -> bool {
    &&& p.stage == s
    &&& p.needs.deep_view() == required_paths_of(root, s)
    &&& p.products.deep_view() == product_paths_of(root, s)
    &&& p.marker@ == marker_path_of(root, s)
    &&& p.temp_marker@ == temp_marker_path_of(root, s)
}

/// One configured run of the orchestrator.
pub struct App {
    pub config: Config,
}

impl App {
    pub fn new(config: Config) -> (a: App)
        ensures
            a.config == config,
    {
        App { config }
    }

    /// The on-disk layout of this run, rooted at the configured output
    /// directory (which is already keyed by the triple's identity).
    pub fn layout(&self) -> (l: ToolchainLayout)
        ensures
            l.root == self.config.outdir,
            l.wf(),
    {
        ToolchainLayout::from_root(self.config.outdir.clone())
    }

    /// The plan of one stage under this run's layout.
    pub fn stage_plan(&self, s: StageId) -> (p: StagePlan)
        ensures
            plan_for(p, self.config.outdir@, s),
    {
        let l = self.layout();
        let needs = l.required_paths(s);
        let products = l.product_paths(s);
        let marker = l.marker_path(s);
        let temp_marker = l.temp_marker_path(s);
        StagePlan { stage: s, needs, products, marker, temp_marker }
    }

    /// The setup stage: requires nothing and produces the layout root (the
    /// caller creates every layout directory, create-if-absent).
    pub fn setup(&self) -> (p: StagePlan)
        ensures
            plan_for(p, self.config.outdir@, StageId::Setup),
    {
        self.stage_plan(StageId::Setup)
    }

    /// The binutils stage: the first real stage, requiring only the layout
    /// root; installs the assembler, linker and the other binutils under
    /// its stage directory, on the search path of every later stage.
    pub fn binutils(&self) -> (p: StagePlan)
        ensures
            plan_for(p, self.config.outdir@, StageId::Binutils),
    {
        self.stage_plan(StageId::Binutils)
    }

    /// The first compiler pass: a minimal, libc-less cross compiler, just
    /// sufficient to build the kernel headers and the C library's own
    /// tools; requires installed binutils.
    pub fn gcc1(&self) -> (p: StagePlan)
        ensures
            plan_for(p, self.config.outdir@, StageId::Gcc1),
    {
        self.stage_plan(StageId::Gcc1)
    }

    /// The kernel header export: architecture-sanitized headers placed
    /// under the shared sysroot; requires the binutils toolchain presence.
    pub fn linux_headers(&self) -> (p: StagePlan)
        ensures
            plan_for(p, self.config.outdir@, StageId::LinuxHeaders),
    {
        self.stage_plan(StageId::LinuxHeaders)
    }

    /// The C library stage: the target C library and dynamic loader,
    /// consuming the first compiler pass and the exported kernel headers.
    pub fn glibc(&self) -> (p: StagePlan)
        ensures
            plan_for(p, self.config.outdir@, StageId::Glibc),
    {
        self.stage_plan(StageId::Glibc)
    }

    /// The final compiler pass: the full, libc-linked cross compiler — the
    /// deliverable toolchain; consumes the C library and the first pass.
    pub fn gcc2(&self) -> (p: StagePlan)
        ensures
            plan_for(p, self.config.outdir@, StageId::Gcc2),
    {
        self.stage_plan(StageId::Gcc2)
    }

    /// A sequencer for this run over a loaded completion record: it stands
    /// before the first stage with an empty outcome log.
    pub fn sequencer(&self, state: BuildState) -> (s: Sequencer)
        requires
            state.wf(),
        ensures
            s.wf(),
            s@ =~= (SequencerModel {
                phase: Phase::AtStage { index: 0 },
                completed: state@,
                outcomes: Seq::empty(),
            }),
    {
        Sequencer::new(state)
    }
}

} // verus!
