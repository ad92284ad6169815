use snappy_sys::config::LinkMode;
use snappy_sys::emit::{
    discovered_directive, runtime_libs, source_build_dirs, source_build_directive,
    source_build_outcome, BuildFailure, SearchKind,
};
use snappy_sys::platform::{classify, contains_str, runtime_library, runtime_library_for, Platform};
use snappy_sys::render::{directive_lines, join_compiler_flags, root_line};

#[test]
fn runtime_library_by_platform() {
    assert_eq!(runtime_library_for("x86_64-apple-darwin"), Some("c++".to_string()));
    assert_eq!(runtime_library_for("x86_64-pc-windows-msvc"), None);
    assert_eq!(runtime_library_for("x86_64-unknown-linux-gnu"), Some("stdc++".to_string()));
    assert_eq!(runtime_library_for("riscv64gc-unknown-none-elf"), Some("stdc++".to_string()));
    assert_eq!(runtime_library(Platform::Darwin), Some("c++".to_string()));
    assert_eq!(runtime_library(Platform::Windows), None);
    assert_eq!(runtime_library(Platform::Other), Some("stdc++".to_string()));
}

#[test]
fn classification() {
    assert_eq!(classify("x86_64-apple-darwin"), Platform::Darwin);
    assert_eq!(classify("aarch64-pc-windows-gnullvm"), Platform::Windows);
    assert_eq!(classify("x86_64-unknown-linux-gnu"), Platform::Other);
    assert_eq!(classify(""), Platform::Other);
    assert_eq!(classify("darwin-windows"), Platform::Darwin);
    assert_eq!(classify("windows-darwin"), Platform::Darwin);
    assert_eq!(classify("darwi"), Platform::Other);
}

#[test]
fn substring_search() {
    assert!(contains_str("abc", ""));
    assert!(contains_str("", ""));
    assert!(!contains_str("", "a"));
    assert!(contains_str("xxwindows", "windows"));
    assert!(!contains_str("windo", "windows"));
    assert!(contains_str("aab", "ab"));
}

#[test]
fn source_build_searches_lib_and_lib64() {
    assert_eq!(
        source_build_dirs("/tmp/out"),
        vec!["/tmp/out/lib".to_string(), "/tmp/out/lib64".to_string()]
    );
    let d = source_build_directive("/b", Platform::Darwin);
    assert_eq!(d.mode, LinkMode::Static);
    assert_eq!(d.library, "snappy");
    assert_eq!(d.search_kind, SearchKind::Native);
    assert_eq!(d.search_dirs, vec!["/b/lib".to_string(), "/b/lib64".to_string()]);
    assert_eq!(d.extra_libs, vec!["c++".to_string()]);
}

#[test]
fn source_build_failures_are_fatal() {
    assert_eq!(
        source_build_outcome("/b", Platform::Other, false, true).unwrap_err(),
        BuildFailure::ChildFailed
    );
    assert_eq!(
        source_build_outcome("/b", Platform::Other, false, false).unwrap_err(),
        BuildFailure::ChildFailed
    );
    assert_eq!(
        source_build_outcome("/b", Platform::Other, true, false).unwrap_err(),
        BuildFailure::ArchiveMissing
    );
    let d = source_build_outcome("/b", Platform::Windows, true, true).unwrap();
    assert_eq!(d.search_dirs, vec!["/b/lib".to_string(), "/b/lib64".to_string()]);
    assert!(d.extra_libs.is_empty());
}

#[test]
fn dynamic_link_needs_no_runtime() {
    let d = discovered_directive(&"/opt".to_string(), LinkMode::Dynamic, Platform::Other);
    assert_eq!(d.mode, LinkMode::Dynamic);
    assert_eq!(d.search_kind, SearchKind::Native);
    assert_eq!(d.search_dirs, vec!["/opt".to_string()]);
    assert!(d.extra_libs.is_empty());
    assert!(runtime_libs(LinkMode::Dynamic, Platform::Darwin).is_empty());
    assert_eq!(runtime_libs(LinkMode::Static, Platform::Other), vec!["stdc++".to_string()]);
    assert!(runtime_libs(LinkMode::Static, Platform::Windows).is_empty());
}

#[test]
fn rendered_lines() {
    let d = discovered_directive(&"/usr/lib".to_string(), LinkMode::Static, Platform::Other);
    assert_eq!(
        directive_lines(&d),
        vec![
            "cargo:rustc-link-search=/usr/lib".to_string(),
            "cargo:rustc-link-lib=static=snappy".to_string(),
            "cargo:rustc-link-lib=stdc++".to_string(),
        ]
    );
    let d = discovered_directive(&"/x".to_string(), LinkMode::Dynamic, Platform::Other);
    assert_eq!(
        directive_lines(&d),
        vec![
            "cargo:rustc-link-search=native=/x".to_string(),
            "cargo:rustc-link-lib=dylib=snappy".to_string(),
        ]
    );
    let d = source_build_directive("/b", Platform::Other);
    assert_eq!(
        directive_lines(&d),
        vec![
            "cargo:rustc-link-search=native=/b/lib".to_string(),
            "cargo:rustc-link-search=native=/b/lib64".to_string(),
            "cargo:rustc-link-lib=static=snappy".to_string(),
            "cargo:rustc-link-lib=stdc++".to_string(),
        ]
    );
    assert_eq!(root_line("/o"), "cargo:root=/o");
}

#[test]
fn compiler_flags_joined() {
    let args = vec!["-O2".to_string(), "-fPIC".to_string()];
    assert_eq!(join_compiler_flags(&args), "-O2 -fPIC ");
    assert_eq!(join_compiler_flags(&vec![]), "");
}
