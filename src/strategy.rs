use vstd::prelude::*;
use vstd::string::*;
use crate::config::{LinkMode, ResolutionConfig, library_file_name, library_file_spec};

verus! {

/// The outcome of resolution; exactly one variant holds.
#[derive(Debug)]
pub enum LinkageDecision {
    /// The system registry found the library and emitted its own flags.
    UseRegistry,
    /// A prebuilt library was found in `dir`, to be linked in `mode`.
    UseDiscoveredPath { dir: String, mode: LinkMode },
    /// The bundled source is to be built and linked statically.
    BuildFromSource,
}

pub enum DecisionModel {
    UseRegistry,
    UseDiscoveredPath { dir: Seq<char>, mode: LinkMode },
    BuildFromSource,
}

impl View for LinkageDecision {
    type V = DecisionModel;

    open spec fn view(&self) -> DecisionModel {
        match self {
            LinkageDecision::UseRegistry => DecisionModel::UseRegistry,
            LinkageDecision::UseDiscoveredPath { dir, mode } => DecisionModel::UseDiscoveredPath {
                dir: dir@,
                mode: *mode,
            },
            LinkageDecision::BuildFromSource => DecisionModel::BuildFromSource,
        }
    }
}

/// A question the resolver needs answered by the outside world.
#[derive(Debug)]
pub enum Probe {
    /// Does the system registry know the library?
    Registry,
    /// Is there a regular file named `file` directly inside `dir`?
    FileIn { dir: String, file: String },
}

pub enum ProbeModel {
    Registry,
    FileIn { dir: Seq<char>, file: Seq<char> },
}

impl View for Probe {
    type V = ProbeModel;

    open spec fn view(&self) -> ProbeModel {
        match self {
            Probe::Registry => ProbeModel::Registry,
            Probe::FileIn { dir, file } => ProbeModel::FileIn { dir: dir@, file: file@ },
        }
    }
}

/// What the resolver asks for next: a probe, or the final decision.
#[derive(Debug)]
pub enum Step {
    Ask(Probe),
    Decide(LinkageDecision),
}

pub enum StepModel {
    Ask(ProbeModel),
    Decide(DecisionModel),
}

impl View for Step {
    type V = StepModel;

    open spec fn view(&self) -> StepModel {
        match self {
            Step::Ask(p) => StepModel::Ask(p@),
            Step::Decide(d) => StepModel::Decide(d@),
        }
    }
}

/// Where the resolver stands between two probes.
#[derive(PartialEq, Eq, Structural, Clone, Copy, Debug)]
pub enum Phase {
    Begin,
    AwaitRegistry,
    AwaitFile(usize),
    Done,
}

pub struct ResolverModel {
    pub config: ResolutionConfig,
    pub candidates: Seq<Seq<char>>,
    pub phase: Phase,
}

/// The fallback directories, searched after the environment's list.
pub open spec fn fallback_dirs() -> Seq<Seq<char>> {
    seq![
        seq!['/', 'u', 's', 'r', '/', 'l', 'i', 'b'],
        seq!['/', 'u', 's', 'r', '/', 'l', 'o', 'c', 'a', 'l', '/', 'l', 'i', 'b'],
    ]
}

/// The ordered directories to search: the environment's list, in its own
/// order, then the fallback directories.
pub open spec fn candidates_spec(env_paths: Seq<Seq<char>>) -> Seq<Seq<char>> {
    env_paths + fallback_dirs()
}

pub open spec fn initial_model(config: ResolutionConfig, env_paths: Seq<Seq<char>>) -> ResolverModel {
    ResolverModel { config, candidates: candidates_spec(env_paths), phase: Phase::Begin }
}

/// Asks for the candidate at position `i`, or falls back to a source build
/// once the candidates are exhausted.
pub open spec fn ask_file_model(m: ResolverModel, i: int) -> (ResolverModel, StepModel) {
    if 0 <= i < m.candidates.len() {
        (
            ResolverModel { phase: Phase::AwaitFile(i as usize), ..m },
            StepModel::Ask(
                ProbeModel::FileIn {
                    dir: m.candidates[i],
                    file: library_file_spec(m.config.spec_search_mode()),
                },
            ),
        )
    } else {
        (
            ResolverModel { phase: Phase::Done, ..m },
            StepModel::Decide(DecisionModel::BuildFromSource),
        )
    }
}

/// The first step: skip every probe when a source build is forced, else ask
/// the registry.
pub open spec fn start_model(m: ResolverModel) -> (ResolverModel, StepModel) {
    if m.config.build_from_source {
        (
            ResolverModel { phase: Phase::Done, ..m },
            StepModel::Decide(DecisionModel::BuildFromSource),
        )
    } else {
        (ResolverModel { phase: Phase::AwaitRegistry, ..m }, StepModel::Ask(ProbeModel::Registry))
    }
}

/// The step taken on the answer to the pending probe.
pub open spec fn answer_model(m: ResolverModel, found: bool) -> (ResolverModel, StepModel) {
    match m.phase {
        Phase::AwaitRegistry => {
            if found {
                (
                    ResolverModel { phase: Phase::Done, ..m },
                    StepModel::Decide(DecisionModel::UseRegistry),
                )
            } else {
                ask_file_model(m, 0)
            }
        },
        Phase::AwaitFile(i) => {
            if found {
                (
                    ResolverModel { phase: Phase::Done, ..m },
                    StepModel::Decide(
                        DecisionModel::UseDiscoveredPath {
                            dir: m.candidates[i as int],
                            mode: m.config.spec_search_mode(),
                        },
                    ),
                )
            } else {
                ask_file_model(m, i + 1)
            }
        },
        _ => (m, StepModel::Decide(DecisionModel::BuildFromSource)),
    }
}

/// Drives the resolver through the strategies in their fixed order, one
/// probe at a time. The host performs each probe it is asked for and hands
/// the answer back.
pub struct Resolver {
    config: ResolutionConfig,
    candidates: Vec<String>,
    phase: Phase,
}

impl View for Resolver {
    type V = ResolverModel;

    closed spec fn view(&self) -> ResolverModel {
        ResolverModel {
            config: self.config,
            candidates: self.candidates@.map_values(|s: String| s@),
            phase: self.phase,
        }
    }
}

impl Resolver {
    pub closed spec fn wf(&self) -> bool {
        match self.phase {
            Phase::AwaitFile(i) => i < self.candidates@.len(),
            _ => true,
        }
    }

    /// A resolver that has not asked anything yet; `env_paths` is the
    /// environment's library search path, split into directories.
    pub fn new(config: ResolutionConfig, env_paths: Vec<String>) -> (r: Self)
        ensures
            r.wf(),
            r@ == initial_model(config, env_paths@.map_values(|s: String| s@)),
    {
        let mut candidates = env_paths;
        let ghost env = candidates@;
        let usr_lib = String::from_str("/usr/lib");
        let usr_local_lib = String::from_str("/usr/local/lib");
        candidates.push(usr_lib);
        candidates.push(usr_local_lib);
        proof {
            reveal_strlit("/usr/lib");
            reveal_strlit("/usr/local/lib");
            assert(usr_lib@ =~= fallback_dirs()[0]);
            assert(usr_local_lib@ =~= fallback_dirs()[1]);
            assert(candidates@.map_values(|s: String| s@) =~= candidates_spec(
                env.map_values(|s: String| s@),
            ));
        }
        Resolver { config, candidates, phase: Phase::Begin }
    }

    pub fn phase(&self) -> (r: Phase)
        ensures
            r == self@.phase,
    {
        self.phase
    }

    fn ask_file(&mut self, i: usize) -> (r: Step)
        requires
            old(self).wf(),
        ensures
            final(self).wf(),
            (final(self)@, r@) == ask_file_model(old(self)@, i as int),
    {
        if i < self.candidates.len() {
            self.phase = Phase::AwaitFile(i);
            let dir = self.candidates[i].clone();
            let file = library_file_name(self.config.search_mode());
            Step::Ask(Probe::FileIn { dir, file })
        } else {
            self.phase = Phase::Done;
            Step::Decide(LinkageDecision::BuildFromSource)
        }
    }

    /// The first step of resolution.
    pub fn start(&mut self) -> (r: Step)
        requires
            old(self).wf(),
            old(self)@.phase == Phase::Begin,
        ensures
            final(self).wf(),
            (final(self)@, r@) == start_model(old(self)@),
    {
        if self.config.build_from_source {
            self.phase = Phase::Done;
            Step::Decide(LinkageDecision::BuildFromSource)
        } else {
            self.phase = Phase::AwaitRegistry;
            Step::Ask(Probe::Registry)
        }
    }

    /// The next step, given whether the pending probe succeeded.
    pub fn answer(&mut self, found: bool) -> (r: Step)
        requires
            old(self).wf(),
            old(self)@.phase is AwaitRegistry || old(self)@.phase is AwaitFile,
        ensures
            final(self).wf(),
            (final(self)@, r@) == answer_model(old(self)@, found),
    {
        match self.phase {
            Phase::AwaitRegistry => {
                if found {
                    self.phase = Phase::Done;
                    Step::Decide(LinkageDecision::UseRegistry)
                } else {
                    self.ask_file(0)
                }
            },
            Phase::AwaitFile(i) => {
                let n = self.candidates.len();
                if found {
                    self.phase = Phase::Done;
                    let dir = self.candidates[i].clone();
                    Step::Decide(
                        LinkageDecision::UseDiscoveredPath { dir, mode: self.config.search_mode() },
                    )
                } else if i + 1 < n {
                    self.ask_file(i + 1)
                } else {
                    self.phase = Phase::Done;
                    Step::Decide(LinkageDecision::BuildFromSource)
                }
            },
            _ => Step::Decide(LinkageDecision::BuildFromSource),
        }
    }
}

} // verus!
