use fel4_build::flags::FlagModel;
use fel4_build::reconcile::{
    flag_of_entry, interesting_flags, is_interesting, reconcile, reconcile_with_cache, starts_with,
    CacheParseError, Mismatch, NativeCacheEntry, ReconcileError,
};

fn b(k: &str, v: bool) -> FlagModel {
    FlagModel::Boolish(k.to_string(), v)
}

fn s(k: &str, v: &str) -> FlagModel {
    FlagModel::Stringish(k.to_string(), v.to_string())
}

fn prefixes(v: &[&str]) -> Vec<String> {
    v.iter().map(|x| x.to_string()).collect()
}

#[test]
fn prefix_matching() {
    assert!(starts_with("KernelDebugBuild", "Kernel"));
    assert!(starts_with("abc", ""));
    assert!(starts_with("abc", "abc"));
    assert!(!starts_with("ab", "abc"));
    assert!(!starts_with("xbc", "abc"));
    assert!(is_interesting("log_level", &prefixes(&["debug", "log_"])));
    assert!(!is_interesting("CMAKE_C_COMPILER", &prefixes(&["debug", "log_"])));
    assert!(!is_interesting("anything", &vec![]));
}

#[test]
fn cache_entries_become_flags() {
    let on = NativeCacheEntry { key: "A".to_string(), is_bool: true, value: "ON".to_string() };
    let off = NativeCacheEntry { key: "B".to_string(), is_bool: true, value: "OFF".to_string() };
    let text = NativeCacheEntry { key: "C".to_string(), is_bool: false, value: "ON".to_string() };
    assert_eq!(flag_of_entry(&on), b("A", true));
    assert_eq!(flag_of_entry(&off), b("B", false));
    assert_eq!(flag_of_entry(&text), s("C", "ON"));
    assert_eq!(
        interesting_flags(&vec![on, off, text], &prefixes(&["A", "C"])),
        vec![b("A", true), s("C", "ON")]
    );
}

#[test]
fn subset_reconciles() {
    let declared = vec![b("x", true), s("y", "1")];
    let native = vec![s("z", "q"), s("y", "1"), b("x", true)];
    assert_eq!(reconcile(&declared, &native), Ok(()));
    assert_eq!(reconcile(&vec![], &vec![]), Ok(()));
}

#[test]
fn missing_flag_is_reported_with_near_misses() {
    let declared = vec![b("x", true), s("y", "1"), s("w", "v")];
    let native = vec![b("x", false), s("y", "1"), s("x", "true")];
    assert_eq!(
        reconcile(&declared, &native),
        Err(vec![
            Mismatch { flag: b("x", true), near_misses: vec![b("x", false), s("x", "true")] },
            Mismatch { flag: s("w", "v"), near_misses: vec![] },
        ])
    );
}

const CACHE: &str = "# This is the CMakeCache file.\n\
// Build with debugging\n\
debug_build:BOOL=ON\n\
log_level:STRING=info\n\
CMAKE_C_COMPILER:FILEPATH=/usr/bin/cc\n\
\n";

#[test]
fn scenario_matching_cache_reconciles() {
    let declared = vec![b("debug_build", true), s("log_level", "info")];
    assert_eq!(
        reconcile_with_cache(&declared, CACHE, &prefixes(&["debug_build", "log_level"])),
        Ok(())
    );
}

#[test]
fn scenario_absent_feature_fails_naming_it() {
    let declared = vec![b("debug_build", true), s("log_level", "info"), b("feature_x", true)];
    assert_eq!(
        reconcile_with_cache(&declared, CACHE, &prefixes(&["debug_build", "log_level", "feature_"])),
        Err(ReconcileError::Mismatch(vec![Mismatch {
            flag: b("feature_x", true),
            near_misses: vec![],
        }]))
    );
}

#[test]
fn uninteresting_entries_are_ignored() {
    let declared = vec![s("CMAKE_C_COMPILER", "/usr/bin/cc")];
    match reconcile_with_cache(&declared, CACHE, &prefixes(&["debug_build"])) {
        Err(ReconcileError::Mismatch(report)) => assert_eq!(report[0].flag, declared[0]),
        other => panic!("unexpected {:?}", other),
    }
}

#[test]
fn malformed_cache_is_an_error() {
    assert_eq!(
        reconcile_with_cache(&vec![], "no separators here\n", &prefixes(&["a"])),
        Err(ReconcileError::Cache(CacheParseError::Malformed))
    );
    assert_eq!(
        reconcile_with_cache(&vec![], "key:NOTATYPE=1\n", &prefixes(&["a"])),
        Err(ReconcileError::Cache(CacheParseError::Malformed))
    );
}
