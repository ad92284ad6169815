use snappy_sys::config::{LinkMode, ResolutionConfig, flag_enabled, library_file_name};
use snappy_sys::emit::{directive_for, LinkageDirective, SearchKind};
use snappy_sys::render::directive_lines;
use snappy_sys::platform::{classify, Platform};
use snappy_sys::strategy::{LinkageDecision, Probe, Resolver, Step};

/// Runs a resolution against a mock world: the registry answers
/// `registry_ok`, and a directory holds exactly the files listed for it.
/// Every probe asked is written to `log`.
fn run(
    config: ResolutionConfig,
    env_paths: &[&str],
    registry_ok: bool,
    files: &[(&str, &str)],
    log: &mut Vec<String>,
) -> LinkageDecision {
    let paths: Vec<String> = env_paths.iter().map(|p| p.to_string()).collect();
    let mut resolver = Resolver::new(config, paths);
    let mut step = resolver.start();
    loop {
        match step {
            Step::Decide(d) => return d,
            Step::Ask(Probe::Registry) => {
                log.push("registry".to_string());
                step = resolver.answer(registry_ok);
            }
            Step::Ask(Probe::FileIn { dir, file }) => {
                log.push(format!("{}/{}", dir, file));
                let found = files.iter().any(|(d, f)| *d == dir && *f == file);
                step = resolver.answer(found);
            }
        }
    }
}

fn config(force_static: bool, build_from_source: bool) -> ResolutionConfig {
    ResolutionConfig { force_static, build_from_source }
}

fn discovered(d: &LinkageDecision) -> Option<(String, LinkMode)> {
    match d {
        LinkageDecision::UseDiscoveredPath { dir, mode } => Some((dir.clone(), *mode)),
        _ => None,
    }
}

#[test]
fn every_config_gives_one_decision() {
    for fs in [false, true] {
        for bfs in [false, true] {
            for reg in [false, true] {
                let mut log = Vec::new();
                let d = run(config(fs, bfs), &[], reg, &[], &mut log);
                let expected_registry = !bfs && reg;
                assert_eq!(matches!(d, LinkageDecision::UseRegistry), expected_registry);
                assert_eq!(matches!(d, LinkageDecision::BuildFromSource), !expected_registry);
            }
        }
    }
}

#[test]
fn source_build_flag_skips_all_probes() {
    let mut log = Vec::new();
    let files = [("/usr/lib", "libsnappy.a"), ("/usr/lib", "libsnappy.so")];
    let d = run(config(true, true), &["/usr/lib"], true, &files, &mut log);
    assert!(matches!(d, LinkageDecision::BuildFromSource));
    assert!(log.is_empty());
    let mut log = Vec::new();
    let d = run(config(false, true), &[], true, &files, &mut log);
    assert!(matches!(d, LinkageDecision::BuildFromSource));
    assert!(log.is_empty());
}

#[test]
fn environment_list_wins_over_fallback() {
    let mut log = Vec::new();
    let files = [("/usr/lib", "libsnappy.so"), ("/usr/local/lib", "libsnappy.so")];
    let d = run(config(false, false), &["/opt/lib", "/usr/lib"], false, &files, &mut log);
    assert_eq!(discovered(&d), Some(("/usr/lib".to_string(), LinkMode::Dynamic)));
    assert_eq!(log, vec!["registry", "/opt/lib/libsnappy.so", "/usr/lib/libsnappy.so"]);
}

#[test]
fn empty_environment_list_uses_fallback() {
    let mut log = Vec::new();
    let files = [("/usr/local/lib", "libsnappy.so")];
    let d = run(config(false, false), &[], false, &files, &mut log);
    assert_eq!(discovered(&d), Some(("/usr/local/lib".to_string(), LinkMode::Dynamic)));
    assert_eq!(
        log,
        vec!["registry", "/usr/lib/libsnappy.so", "/usr/local/lib/libsnappy.so"]
    );
}

#[test]
fn search_looks_for_file_of_requested_mode() {
    let mut log = Vec::new();
    let files = [("/usr/lib", "libsnappy.so"), ("/usr/local/lib", "libsnappy.a")];
    let d = run(config(true, false), &[], false, &files, &mut log);
    assert_eq!(discovered(&d), Some(("/usr/local/lib".to_string(), LinkMode::Static)));
}

#[test]
fn exhausted_search_falls_back_to_source_build() {
    let mut log = Vec::new();
    let d = run(config(true, false), &["/a"], false, &[("/a", "libsnappy.so")], &mut log);
    assert!(matches!(d, LinkageDecision::BuildFromSource));
    assert_eq!(
        log,
        vec![
            "registry",
            "/a/libsnappy.a",
            "/usr/lib/libsnappy.a",
            "/usr/local/lib/libsnappy.a"
        ]
    );
}

#[test]
fn static_library_in_usr_lib_on_linux() {
    let mut log = Vec::new();
    let files = [("/usr/lib", "libsnappy.a")];
    let d = run(config(true, false), &[], false, &files, &mut log);
    let platform = classify("x86_64-unknown-linux-gnu");
    let directive: LinkageDirective = directive_for(&d, platform, "").unwrap();
    assert_eq!(directive.mode, LinkMode::Static);
    assert_eq!(directive.library, "snappy");
    assert_eq!(directive.search_dirs, vec!["/usr/lib".to_string()]);
    assert_eq!(directive.extra_libs, vec!["stdc++".to_string()]);
    assert_eq!(directive.search_kind, SearchKind::All);
    assert_eq!(
        directive_lines(&directive),
        vec![
            "cargo:rustc-link-search=/usr/lib".to_string(),
            "cargo:rustc-link-lib=static=snappy".to_string(),
            "cargo:rustc-link-lib=stdc++".to_string(),
        ]
    );
}

#[test]
fn registry_success_ends_resolution() {
    let mut log = Vec::new();
    let files = [("/usr/lib", "libsnappy.so")];
    let d = run(config(false, false), &["/usr/lib"], true, &files, &mut log);
    assert!(matches!(d, LinkageDecision::UseRegistry));
    assert_eq!(log, vec!["registry"]);
    assert!(directive_for(&d, Platform::Other, "/out").is_none());
}

#[test]
fn flags_are_on_only_for_one() {
    assert!(flag_enabled(Some("1")));
    assert!(!flag_enabled(Some("0")));
    assert!(!flag_enabled(Some("11")));
    assert!(!flag_enabled(Some("true")));
    assert!(!flag_enabled(Some("")));
    assert!(!flag_enabled(None));
    let c = ResolutionConfig::from_flags(Some("1"), None);
    assert!(c.force_static);
    assert!(!c.build_from_source);
    let c = ResolutionConfig::from_flags(Some("yes"), Some("1"));
    assert!(!c.force_static);
    assert!(c.build_from_source);
}

#[test]
fn library_file_names() {
    assert_eq!(library_file_name(LinkMode::Static), "libsnappy.a");
    assert_eq!(library_file_name(LinkMode::Dynamic), "libsnappy.so");
    assert_eq!(config(true, false).search_mode(), LinkMode::Static);
    assert_eq!(config(false, false).search_mode(), LinkMode::Dynamic);
}

#[test]
fn phases_advance() {
    let mut r = Resolver::new(config(false, false), vec![]);
    assert_eq!(r.phase(), snappy_sys::strategy::Phase::Begin);
    r.start();
    assert_eq!(r.phase(), snappy_sys::strategy::Phase::AwaitRegistry);
    r.answer(false);
    assert_eq!(r.phase(), snappy_sys::strategy::Phase::AwaitFile(0));
    r.answer(false);
    assert_eq!(r.phase(), snappy_sys::strategy::Phase::AwaitFile(1));
    r.answer(false);
    assert_eq!(r.phase(), snappy_sys::strategy::Phase::Done);
}
