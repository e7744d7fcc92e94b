use deps_analyzer::analysis::{
    analyze_dependencies, analyze_dependency, analyze_reply, judge_versions, AnsweredLookup,
    DependencyAnalysis,
};
use deps_analyzer::manifest::{pending_lookups, Dependency, Tomie};
use deps_analyzer::registry::{LookupError, RegistryReply};

fn listing(versions: &[&str]) -> RegistryReply {
    let entries: Vec<String> = versions.iter().map(|v| format!("{{\"num\": \"{}\"}}", v)).collect();
    RegistryReply::Body(format!("{{\"versions\": [{}]}}", entries.join(", ")).into_bytes())
}

fn answered(name: &str, declared: &str, reply: RegistryReply) -> AnsweredLookup {
    AnsweredLookup { name: name.to_string(), current_version: declared.to_string(), reply }
}

fn strings(items: &[&str]) -> Vec<String> {
    items.iter().map(|s| s.to_string()).collect()
}

fn fields(record: &DependencyAnalysis) -> (&str, &str, &str, bool) {
    (
        record.name.as_str(),
        record.current_version.as_str(),
        record.latest_version.as_str(),
        record.is_outdated,
    )
}

fn outdated(declared: &str, latest: &str) -> bool {
    analyze_dependency("dep".to_string(), declared, &strings(&[latest])).unwrap().is_outdated
}

#[test]
fn newer_minor_on_the_registry_is_outdated() {
    let manifest = Tomie {
        dependencies: Some(vec![("foo".to_string(), Dependency::Simple("1.2".to_string()))]),
    };
    let lookups = pending_lookups(&manifest);
    assert_eq!(lookups.len(), 1);
    let batch = vec![AnsweredLookup {
        name: lookups[0].name.clone(),
        current_version: lookups[0].current_version.clone(),
        reply: listing(&["1.3.0", "1.2.0"]),
    }];
    let analyses = analyze_dependencies(&batch);
    assert_eq!(analyses.len(), 1);
    assert_eq!(fields(&analyses[0]), ("foo", "1.2", "1.3.0", true));
}

#[test]
fn same_version_with_caret_is_up_to_date() {
    let batch = vec![answered("bar", "^2.0.0", listing(&["2.0.0"]))];
    let analyses = analyze_dependencies(&batch);
    assert_eq!(analyses.len(), 1);
    assert_eq!(fields(&analyses[0]), ("bar", "2.0.0", "2.0.0", false));
}

#[test]
fn refused_lookup_gives_no_record() {
    let batch = vec![answered("baz", "1.0", RegistryReply::Refused)];
    assert!(analyze_dependencies(&batch).is_empty());
    let empty = vec![answered("baz", "1.0", listing(&[]))];
    assert!(analyze_dependencies(&empty).is_empty());
}

#[test]
fn empty_list_gives_no_record() {
    assert!(analyze_dependency("baz".to_string(), "1.0", &Vec::new()).is_none());
}

#[test]
fn first_listed_version_is_taken_as_latest() {
    let record = analyze_dependency("dep".to_string(), "1.0.0", &strings(&["1.1.0", "9.0.0"])).unwrap();
    assert_eq!(record.latest_version, "1.1.0");
    let older_first = analyze_dependency("dep".to_string(), "2.0.0", &strings(&["1.0.0", "3.0.0"])).unwrap();
    assert_eq!(fields(&older_first), ("dep", "2.0.0", "1.0.0", false));
}

#[test]
fn latest_is_shown_in_canonical_form() {
    let record = analyze_dependency("dep".to_string(), "^1", &strings(&["1.3"])).unwrap();
    assert_eq!(fields(&record), ("dep", "1", "1.3.0", true));
}

#[test]
fn current_is_shown_as_declared_without_caret() {
    let record = analyze_dependency("dep".to_string(), "^0.4", &strings(&["0.4.0"])).unwrap();
    assert_eq!(fields(&record), ("dep", "0.4", "0.4.0", false));
}

#[test]
fn precedence_is_major_then_minor_then_patch() {
    assert!(outdated("1.9.9", "2.0.0"));
    assert!(!outdated("2.0.0", "1.9.9"));
    assert!(outdated("1.2.9", "1.3.0"));
    assert!(!outdated("1.3.0", "1.2.9"));
    assert!(outdated("1.2.3", "1.2.4"));
    assert!(!outdated("1.2.4", "1.2.3"));
    assert!(!outdated("1.2.3", "1.2.3"));
}

#[test]
fn numbers_are_compared_as_numbers() {
    assert!(outdated("1.9.0", "1.10.0"));
    assert!(!outdated("1.10.0", "1.9.0"));
    assert!(outdated("9.0.0", "10.0.0"));
    assert!(outdated("0.0.9", "0.0.10"));
}

#[test]
fn pre_release_stands_below_its_release() {
    assert!(outdated("1.0.0-alpha", "1.0.0"));
    assert!(!outdated("1.0.0", "1.0.0-alpha"));
    assert!(outdated("1.0.0-alpha", "1.0.0-beta"));
}

#[test]
fn unparsable_declared_version_gives_no_record() {
    assert!(analyze_dependency("dep".to_string(), "abc", &strings(&["1.0.0"])).is_none());
    assert!(analyze_dependency("dep".to_string(), "*", &strings(&["1.0.0"])).is_none());
    assert!(analyze_dependency("dep".to_string(), ">=1.2", &strings(&["1.0.0"])).is_none());
    assert!(analyze_dependency("dep".to_string(), "^^1", &strings(&["1.0.0"])).is_none());
    assert!(analyze_dependency("dep".to_string(), "01.2.3", &strings(&["1.0.0"])).is_none());
    assert!(analyze_dependency("dep".to_string(), "1.2.3.4", &strings(&["1.0.0"])).is_none());
}

#[test]
fn unparsable_latest_version_gives_no_record() {
    assert!(analyze_dependency("dep".to_string(), "1.0.0", &strings(&["latest"])).is_none());
    assert!(analyze_dependency("dep".to_string(), "1.0.0", &strings(&["", "1.0.0"])).is_none());
    let batch = vec![answered("dep", "1.0.0", listing(&["one.two.three"]))];
    assert!(analyze_dependencies(&batch).is_empty());
}

#[test]
fn errors_of_the_lookup_end_the_analysis() {
    let unreachable = analyze_reply("dep".to_string(), "1.0", &RegistryReply::Unreachable);
    assert_eq!(unreachable.err(), Some(LookupError::Transport));
    let garbage = analyze_reply("dep".to_string(), "1.0", &RegistryReply::Body(b"<html>".to_vec()));
    assert_eq!(garbage.err(), Some(LookupError::Decode));
    let missing = analyze_reply("dep".to_string(), "1.0", &RegistryReply::Body(b"{}".to_vec()));
    assert_eq!(missing.err(), Some(LookupError::MissingVersions));
}

#[test]
fn analyze_reply_gives_record_or_none() {
    let hit = analyze_reply("dep".to_string(), "1.0", &listing(&["1.0.1"])).unwrap().unwrap();
    assert_eq!(fields(&hit), ("dep", "1.0", "1.0.1", true));
    let miss = analyze_reply("dep".to_string(), "1.0", &RegistryReply::Refused).unwrap();
    assert!(miss.is_none());
}

#[test]
fn failures_leave_no_trace_in_the_batch() {
    let batch = vec![
        answered("a", "1.0", listing(&["1.0.0"])),
        answered("b", "1.0", RegistryReply::Refused),
        answered("c", "nonsense", listing(&["1.0.0"])),
        answered("d", "1.0", RegistryReply::Unreachable),
        answered("e", "1.0", RegistryReply::Body(b"{".to_vec())),
        answered("f", "1.0", RegistryReply::Body(b"{\"versions\": 1}".to_vec())),
        answered("g", "^0.1", listing(&["0.2.0", "0.1.0"])),
    ];
    let analyses = analyze_dependencies(&batch);
    assert_eq!(analyses.len(), 2);
    assert_eq!(fields(&analyses[0]), ("a", "1.0", "1.0.0", false));
    assert_eq!(fields(&analyses[1]), ("g", "0.1", "0.2.0", true));
    let without_failures = vec![
        answered("a", "1.0", listing(&["1.0.0"])),
        answered("g", "^0.1", listing(&["0.2.0", "0.1.0"])),
    ];
    let same = analyze_dependencies(&without_failures);
    assert_eq!(same.len(), 2);
    assert_eq!(fields(&same[0]), fields(&analyses[0]));
    assert_eq!(fields(&same[1]), fields(&analyses[1]));
}

#[test]
fn empty_batch_reports_nothing() {
    assert!(analyze_dependencies(&Vec::new()).is_empty());
    let manifest = Tomie { dependencies: None };
    assert!(pending_lookups(&manifest).is_empty());
}

#[test]
fn judge_versions_needs_both_versions() {
    let current = semver::Version::parse("1.2.0").ok();
    let latest = semver::Version::parse("1.3.0").ok();
    let record = judge_versions("foo".to_string(), "^1.2", current.clone(), latest.clone()).unwrap();
    assert_eq!(fields(&record), ("foo", "1.2", "1.3.0", true));
    let swapped = judge_versions("foo".to_string(), "1.3", latest.clone(), current.clone()).unwrap();
    assert_eq!(fields(&swapped), ("foo", "1.3", "1.2.0", false));
    assert!(judge_versions("foo".to_string(), "1.2", None, latest).is_none());
    assert!(judge_versions("foo".to_string(), "1.2", current, None).is_none());
    assert!(judge_versions("foo".to_string(), "1.2", None, None).is_none());
}

#[test]
fn build_metadata_decides_nothing() {
    assert!(!outdated("1.0.0+a", "1.0.0+b"));
    assert!(!outdated("1.0.0+b", "1.0.0+a"));
    assert!(!outdated("1.0.0", "1.0.0+b"));
    assert!(!outdated("1.0.0+b", "1.0.0"));
    assert!(!outdated("1.0.0+b", "1.0.0+b"));
    assert!(outdated("1.0.0+zzz", "1.0.1"));
    assert!(outdated("1.0.0-rc.1+zzz", "1.0.0+aaa"));
    assert!(!outdated("1.0.0-rc.1+a", "1.0.0-rc.1+b"));
}

#[test]
fn build_metadata_is_still_shown() {
    let record = analyze_dependency("x".to_string(), "1.0.0+a", &strings(&["1.0.0+b"])).unwrap();
    assert_eq!(fields(&record), ("x", "1.0.0+a", "1.0.0+b", false));
}

#[test]
fn pre_release_identifiers_are_ranked() {
    assert!(outdated("1.0.0-alpha", "1.0.0-alpha.1"));
    assert!(outdated("1.0.0-alpha.1", "1.0.0-alpha.beta"));
    assert!(outdated("1.0.0-beta.2", "1.0.0-beta.11"));
    assert!(!outdated("1.0.0-rc.1", "1.0.0-beta.11"));
    assert!(!outdated("1.0.0-rc.1", "1.0.0-rc.1"));
}

#[test]
fn latest_keeps_its_pre_release_and_build_parts() {
    let record = analyze_dependency("dep".to_string(), "1.0", &strings(&["1.1.0-rc.1+build.5"])).unwrap();
    assert_eq!(fields(&record), ("dep", "1.0", "1.1.0-rc.1+build.5", true));
}
