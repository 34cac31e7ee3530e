//! End-to-end checks of the diagnostic construction and the link-stage
//! model.

use no_panics_whatsoever::diagnostic::plain_sentinel_name;
use no_panics_whatsoever::diagnostic::sentinel_link_name;
use no_panics_whatsoever::diagnostic::styled_sentinel_name;
use no_panics_whatsoever::linkage::link;
use no_panics_whatsoever::linkage::BuildOutcome;
use no_panics_whatsoever::linkage::LinkClosure;

const PAYLOAD: &str = "the static assertion that no panics are present has failed";

/// Removes ANSI control sequences (escape, bracket, parameter bytes, one
/// final byte) the same way a terminal would consume them.
fn strip_ansi(s: &str) -> String {
    let mut out = String::new();
    let mut chars = s.chars();
    while let Some(c) = chars.next() {
        if c != '\u{1b}' {
            out.push(c);
            continue;
        }
        match chars.next() {
            Some('[') => {
                for d in chars.by_ref() {
                    if !(' '..='?').contains(&d) {
                        break;
                    }
                }
            }
            _ => {}
        }
    }
    out
}

#[test]
fn plain_sentinel_name_exact() {
    assert_eq!(
        plain_sentinel_name(),
        "\n\nerror: the static assertion that no panics are present has failed\n\n"
    );
}

#[test]
fn styled_sentinel_name_exact() {
    assert_eq!(
        styled_sentinel_name(),
        "\n\n\x1b[s\x1b[1000D\x1b[0;31m\x1b[1merror\x1b[0m\x1b[1m: the static assertion that no panics are present has failed\x1b[0m\x1b[u\n\n"
    );
}

#[test]
fn link_name_picks_platform_variant() {
    assert_eq!(sentinel_link_name(true), styled_sentinel_name());
    assert_eq!(sentinel_link_name(false), plain_sentinel_name());
}

#[test]
fn both_variants_contain_payload() {
    assert!(sentinel_link_name(true).contains(PAYLOAD));
    assert!(sentinel_link_name(false).contains(PAYLOAD));
}

#[test]
fn styled_variant_strips_to_plain_variant() {
    assert_eq!(strip_ansi(styled_sentinel_name()), plain_sentinel_name());
}

#[test]
fn plain_variant_has_no_styling_bytes() {
    assert_eq!(strip_ansi(plain_sentinel_name()), plain_sentinel_name());
}

/// A program that indexes a fixed-size input with a compile-time-constant,
/// provably in-bounds index keeps no panic path through optimization, so the
/// build succeeds.
#[test]
fn in_bounds_constant_index_build_succeeds() {
    let input = [42i32];
    let value = input[0];
    assert_eq!(value, 42);
    let closure = LinkClosure {
        panic_path_survives: false,
        sentinel_defined: false,
        unix_family: true,
    };
    assert!(matches!(link(&closure), BuildOutcome::Runnable));
}

/// A program that indexes an input at a runtime-supplied index with no
/// bounds check elided keeps a panic path, so the link fails with the
/// diagnostic.
#[test]
fn unchecked_runtime_index_build_fails() {
    let closure = LinkClosure {
        panic_path_survives: true,
        sentinel_defined: false,
        unix_family: false,
    };
    match link(&closure) {
        BuildOutcome::FailedLink { diagnostic } => {
            assert!(diagnostic.contains(PAYLOAD));
            assert_eq!(diagnostic, plain_sentinel_name());
        }
        BuildOutcome::Runnable => panic!("a surviving panic path must fail the link"),
    }
}

#[test]
fn failed_link_on_unix_reports_styled_diagnostic() {
    let closure = LinkClosure {
        panic_path_survives: true,
        sentinel_defined: false,
        unix_family: true,
    };
    match link(&closure) {
        BuildOutcome::FailedLink { diagnostic } => {
            assert_eq!(diagnostic, styled_sentinel_name());
        }
        BuildOutcome::Runnable => panic!("a surviving panic path must fail the link"),
    }
}

/// The build hazard: a definition of the sentinel anywhere in the link
/// closure resolves the surviving reference, and the build silently
/// succeeds even though a panic path remains.
#[test]
fn defined_sentinel_silently_defeats_the_assertion() {
    let closure = LinkClosure {
        panic_path_survives: true,
        sentinel_defined: true,
        unix_family: true,
    };
    assert!(matches!(link(&closure), BuildOutcome::Runnable));
}

#[test]
fn no_panic_path_succeeds_on_every_platform_family() {
    for unix_family in [false, true] {
        let closure = LinkClosure {
            panic_path_survives: false,
            sentinel_defined: false,
            unix_family,
        };
        assert!(matches!(link(&closure), BuildOutcome::Runnable));
    }
}
