use vstd::prelude::*;
use crate::config::{ResolutionConfig, library_file_spec};
use crate::emit::directive_spec;
use crate::platform::Platform;
use crate::strategy::{
    DecisionModel, Phase, ProbeModel, ResolverModel, StepModel, answer_model, ask_file_model,
    candidates_spec, fallback_dirs, initial_model, start_model,
};

verus! {

/// The answer the outside world gives to a probe: `registry_ok` for the
/// registry, `has_file(dir, file)` for a file in a directory.
pub open spec fn probe_answer(
    registry_ok: bool,
    has_file: spec_fn(Seq<char>, Seq<char>) -> bool,
    p: ProbeModel,
) -> bool {
    match p {
        ProbeModel::Registry => registry_ok,
        ProbeModel::FileIn { dir, file } => has_file(dir, file),
    }
}

/// Runs the resolver from state `m` and pending step `s` for at most `fuel`
/// answers; gives the decision reached, if any, and the probes asked, in order.
pub open spec fn drive(
    m: ResolverModel,
    s: StepModel,
    registry_ok: bool,
    has_file: spec_fn(Seq<char>, Seq<char>) -> bool,
    fuel: nat,
) -> (Option<DecisionModel>, Seq<ProbeModel>)
    decreases fuel,
{
    match s {
        StepModel::Decide(d) => (Some(d), Seq::empty()),
        StepModel::Ask(p) => {
            if fuel == 0 {
                (None, seq![p])
            } else {
                let next = answer_model(m, probe_answer(registry_ok, has_file, p));
                let rest = drive(next.0, next.1, registry_ok, has_file, (fuel - 1) as nat);
                (rest.0, seq![p] + rest.1)
            }
        },
    }
}

/// A whole resolution against a given world, with one answer more than there
/// are candidate directories.
pub open spec fn resolve(
    config: ResolutionConfig,
    env_paths: Seq<Seq<char>>,
    registry_ok: bool,
    has_file: spec_fn(Seq<char>, Seq<char>) -> bool,
) -> (Option<DecisionModel>, Seq<ProbeModel>) {
    let first = start_model(initial_model(config, env_paths));
    drive(first.0, first.1, registry_ok, has_file, candidates_spec(env_paths).len() + 1)
}

/// The first directory of `dirs` that holds `file`.
pub open spec fn first_dir_with(
    dirs: Seq<Seq<char>>,
    file: Seq<char>,
    has_file: spec_fn(Seq<char>, Seq<char>) -> bool,
) -> Option<Seq<char>>
    decreases dirs.len(),
{
    if dirs.len() == 0 {
        None
    } else if has_file(dirs[0], file) {
        Some(dirs[0])
    } else {
        first_dir_with(dirs.drop_first(), file, has_file)
    }
}

/// The decision that the fixed precedence order gives: a forced source
/// build, else the registry, else the first directory holding the file of the
/// requested mode, else a source build.
pub open spec fn expected_decision(
    config: ResolutionConfig,
    env_paths: Seq<Seq<char>>,
    registry_ok: bool,
    has_file: spec_fn(Seq<char>, Seq<char>) -> bool,
) -> DecisionModel {
    if config.build_from_source {
        DecisionModel::BuildFromSource
    } else if registry_ok {
        DecisionModel::UseRegistry
    } else {
        let mode = config.spec_search_mode();
        match first_dir_with(candidates_spec(env_paths), library_file_spec(mode), has_file) {
            Some(dir) => DecisionModel::UseDiscoveredPath { dir, mode },
            None => DecisionModel::BuildFromSource,
        }
    }
}

pub open spec fn scan_result(
    m: ResolverModel,
    i: int,
    has_file: spec_fn(Seq<char>, Seq<char>) -> bool,
) -> DecisionModel {
    let mode = m.config.spec_search_mode();
    match first_dir_with(
        m.candidates.subrange(i, m.candidates.len() as int),
        library_file_spec(mode),
        has_file,
    ) {
        Some(dir) => DecisionModel::UseDiscoveredPath { dir, mode },
        None => DecisionModel::BuildFromSource,
    }
}

proof fn lemma_scan(
    m: ResolverModel,
    i: int,
    registry_ok: bool,
    has_file: spec_fn(Seq<char>, Seq<char>) -> bool,
    fuel: nat,
)
    requires
        0 <= i <= m.candidates.len(),
        m.candidates.len() <= usize::MAX,
        fuel >= m.candidates.len() - i,
    ensures
        ({
            let s = ask_file_model(m, i);
            drive(s.0, s.1, registry_ok, has_file, fuel).0 == Some(scan_result(m, i, has_file))
        }),
    decreases m.candidates.len() - i,
{
    let n = m.candidates.len() as int;
    let rest = m.candidates.subrange(i, n);
    let s = ask_file_model(m, i);
    let mode = m.config.spec_search_mode();
    let file = library_file_spec(mode);
    if i < n {
        assert(rest.len() > 0);
        assert(rest[0] == m.candidates[i]);
        assert(s.0.phase == Phase::AwaitFile(i as usize));
        assert(s.1 == StepModel::Ask(ProbeModel::FileIn { dir: m.candidates[i], file }));
        let found = has_file(m.candidates[i], file);
        let next = answer_model(s.0, found);
        assert(drive(s.0, s.1, registry_ok, has_file, fuel).0 == drive(
            next.0,
            next.1,
            registry_ok,
            has_file,
            (fuel - 1) as nat,
        ).0);
        if found {
            assert(first_dir_with(rest, file, has_file) == Some(m.candidates[i]));
        } else {
            assert(rest.drop_first() =~= m.candidates.subrange(i + 1, n));
            assert(first_dir_with(rest, file, has_file) == first_dir_with(
                m.candidates.subrange(i + 1, n),
                file,
                has_file,
            ));
            lemma_scan(m, i + 1, registry_ok, has_file, (fuel - 1) as nat);
            assert(next == ask_file_model(m, i + 1));
        }
    } else {
        assert(rest.len() == 0);
    }
}

/// Every configuration, in every world, leads to exactly one decision, and it
/// is the one the precedence order gives.
pub proof fn lemma_resolution_decides(
    config: ResolutionConfig,
    env_paths: Seq<Seq<char>>,
    registry_ok: bool,
    has_file: spec_fn(Seq<char>, Seq<char>) -> bool,
)
    requires
        candidates_spec(env_paths).len() <= usize::MAX,
    ensures
        resolve(config, env_paths, registry_ok, has_file).0 == Some(
            expected_decision(config, env_paths, registry_ok, has_file),
        ),
{
    let m0 = initial_model(config, env_paths);
    let first = start_model(m0);
    let n = m0.candidates.len();
    if !config.build_from_source {
        let m1 = first.0;
        assert(first.1 == StepModel::Ask(ProbeModel::Registry));
        assert(m1.phase == Phase::AwaitRegistry);
        let next = answer_model(m1, registry_ok);
        assert(resolve(config, env_paths, registry_ok, has_file).0 == drive(
            next.0,
            next.1,
            registry_ok,
            has_file,
            n,
        ).0);
        if !registry_ok {
            assert(next == ask_file_model(m1, 0));
            lemma_scan(m1, 0, registry_ok, has_file, n);
            assert(m1.candidates.subrange(0, n as int) =~= m1.candidates);
        }
    }
}

/// A forced source build asks no probe at all, whatever the registry and the
/// file system would have answered.
pub proof fn lemma_source_build_skips_probes(
    config: ResolutionConfig,
    env_paths: Seq<Seq<char>>,
    registry_ok: bool,
    has_file: spec_fn(Seq<char>, Seq<char>) -> bool,
)
    requires
        config.build_from_source,
    ensures
        resolve(config, env_paths, registry_ok, has_file) == (
            Some(DecisionModel::BuildFromSource),
            Seq::<ProbeModel>::empty(),
        ),
{
}

/// When the registry knows the library, it is the only probe asked, the
/// decision is to use it, and no directive is emitted beyond the registry's.
pub proof fn lemma_registry_ends_search(
    config: ResolutionConfig,
    env_paths: Seq<Seq<char>>,
    has_file: spec_fn(Seq<char>, Seq<char>) -> bool,
)
    requires
        !config.build_from_source,
    ensures
        resolve(config, env_paths, true, has_file) == (
            Some(DecisionModel::UseRegistry),
            seq![ProbeModel::Registry],
        ),
        forall|platform: Platform, build_output: Seq<char>|
            directive_spec(DecisionModel::UseRegistry, platform, build_output) is None,
{
    let first = start_model(initial_model(config, env_paths));
    let n = candidates_spec(env_paths).len();
    let next = answer_model(first.0, true);
    assert(drive(next.0, next.1, true, has_file, n) == (
        Some(DecisionModel::UseRegistry),
        Seq::<ProbeModel>::empty(),
    ));
    assert(seq![ProbeModel::Registry] + Seq::<ProbeModel>::empty() =~= seq![ProbeModel::Registry]);
}

proof fn lemma_first_dir_append(
    a: Seq<Seq<char>>,
    b: Seq<Seq<char>>,
    file: Seq<char>,
    has_file: spec_fn(Seq<char>, Seq<char>) -> bool,
)
    ensures
        first_dir_with(a + b, file, has_file) == match first_dir_with(a, file, has_file) {
            Some(d) => Some(d),
            None => first_dir_with(b, file, has_file),
        },
    decreases a.len(),
{
    if a.len() == 0 {
        assert(a + b =~= b);
    } else {
        assert((a + b)[0] == a[0]);
        assert((a + b).drop_first() =~= a.drop_first() + b);
        lemma_first_dir_append(a.drop_first(), b, file, has_file);
    }
}

/// The search path list is searched before the fallback directories, each
/// in its own order: the first environment directory that holds the file
/// wins, and the fallback directories count only when none does.
pub proof fn lemma_environment_paths_first(
    env_paths: Seq<Seq<char>>,
    file: Seq<char>,
    has_file: spec_fn(Seq<char>, Seq<char>) -> bool,
)
    ensures
        first_dir_with(candidates_spec(env_paths), file, has_file) == match first_dir_with(
            env_paths,
            file,
            has_file,
        ) {
            Some(d) => Some(d),
            None => first_dir_with(fallback_dirs(), file, has_file),
        },
{
    lemma_first_dir_append(env_paths, fallback_dirs(), file, has_file);
}

} // verus!
