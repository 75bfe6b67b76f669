use git_automessage::changelog::{
    category_of_text, default_changelog_on, format_iso_date, label_from_lowered, merge_section,
    release_label, section_text, version_in_lowered, version_in_message, CalendarDate, Category,
    ChangelogGenerator,
};
use git_automessage::config::Config;
use git_automessage::git::CommitInfo;
use git_automessage::text::short_sha;

fn commit(sha: &str, message: &str, author: &str) -> CommitInfo {
    CommitInfo {
        sha: sha.to_string(),
        message: message.to_string(),
        author: author.to_string(),
        date: "1700000000".to_string(),
        files_changed: vec![],
    }
}

fn generator() -> ChangelogGenerator {
    let mut config = Config::with_provider("openai", "key");
    config.llm.model = "gpt-4o-mini".to_string();
    config.llm.base_url = "https://api.openai.com/v1".to_string();
    ChangelogGenerator::new(&config).unwrap()
}

#[test]
fn merge_places_section_right_after_header() {
    let existing = "# Changelog\n\nAll notable changes...\n\n";
    let section = section_text("0.1.0", "2025-01-01", "- did a thing");
    let merged = merge_section(existing, &section, true);
    assert_eq!(
        merged,
        "# Changelog\n\n## [0.1.0] - 2025-01-01\n\n- did a thing\nAll notable changes...\n"
    );
    assert_eq!(merged.matches("# Changelog\n\n").count(), 1);
    assert!(merged.starts_with("# Changelog\n\n## [0.1.0] - 2025-01-01\n\n- did a thing\n"));
}

#[test]
fn merge_keeps_every_old_line() {
    let existing = "# Changelog\n\n## [0.0.1] - 2024-01-01\n\n- first\n- second\n";
    let merged = merge_section(existing, "## [0.0.2] - 2024-02-01\n\n- third", true);
    for line in existing.lines().filter(|l| !l.is_empty()) {
        assert!(merged.lines().any(|m| m == line), "lost line {line:?}");
    }
    assert!(merged.lines().count() >= existing.lines().count());
    assert_eq!(
        merged,
        "# Changelog\n\n## [0.0.2] - 2024-02-01\n\n- third\n## [0.0.1] - 2024-01-01\n\n- first\n- second"
    );
}

#[test]
fn merge_without_header_puts_section_in_front() {
    let merged = merge_section("old line\nsecond", "NEW", true);
    assert_eq!(merged, "NEW\nold line\nsecond");
}

#[test]
fn merge_into_empty_document_is_the_section() {
    assert_eq!(merge_section("", "NEW", true), "NEW");
}

#[test]
fn merge_without_header_boundary_appends_at_end() {
    let merged = merge_section("# Title\nno blank line\nafter", "NEW", true);
    assert_eq!(merged, "# Title\nno blank line\nafter\nNEW");
}

#[test]
fn merge_with_blank_line_of_spaces_ends_header() {
    let merged = merge_section("# Title\n  \nbody", "NEW", true);
    assert_eq!(merged, "# Title\n  \nNEW\nbody");
}

#[test]
fn new_document_has_standard_header() {
    let merged = merge_section("anything old", "## [1] - d\n\nx", false);
    assert!(merged.starts_with("# Changelog\n\nAll notable changes to this project will be documented in this file.\n"));
    assert!(merged.ends_with("semver.org/spec/v2.0.0.html).\n\n## [1] - d\n\nx"));
    assert!(!merged.contains("anything old"));
}

#[test]
fn write_changelog_merges_or_replaces() {
    let g = generator();
    assert_eq!(g.write_changelog("NEW", "# T\n\nold", true), "# T\n\nNEW\nold");
    assert!(!g.write_changelog("NEW", "# T\n\nold", false).contains("old"));
}

#[test]
fn version_named_after_release_word() {
    assert_eq!(version_in_message("Release V1.2.0!"), Some("v1.2.0".to_string()));
    assert_eq!(version_in_message("bump version v2.0,"), Some("v2.0".to_string()));
    assert_eq!(version_in_message("release v"), None);
    assert_eq!(version_in_message("release 1.0"), None);
    assert_eq!(version_in_message("v1.0 release"), None);
}

#[test]
fn version_label_prefers_named_version_of_last_commit() {
    let cs = vec![
        commit("aaaaaaaaaa", "feat: x", "a"),
        commit("bbbbbbbbbb", "release v1.0", "b"),
        commit("cccccccccc", "Release v2.0", "c"),
    ];
    assert_eq!(release_label(&cs), "v2.0");
}

#[test]
fn version_label_falls_back_on_commit_kinds() {
    let feat = vec![commit("a", "fix: y", "a"), commit("b", "Feat: x", "b")];
    assert_eq!(release_label(&feat), "0.1.0");
    let fix = vec![commit("a", "fix: y", "a")];
    assert_eq!(release_label(&fix), "0.0.1");
    let other = vec![commit("a", "chore: z", "a")];
    assert_eq!(release_label(&other), "0.0.1");
    assert_eq!(release_label(&[]), "0.0.1");
}

#[test]
fn version_label_is_deterministic() {
    let a = vec![commit("1111111111", "feat: add", "x"), commit("2222222222", "release v3.1", "y")];
    let b = vec![commit("3333333333", "feat: add", "z"), commit("4444444444", "release v3.1", "w")];
    let g = generator();
    assert_eq!(g.detect_version_from_commits(&a), g.detect_version_from_commits(&b));
    assert_eq!(g.detect_version_from_commits(&a), g.detect_version_from_commits(&a));
}

#[test]
fn iso_dates_are_zero_padded() {
    let d = CalendarDate { year: 2025, month: 1, day: 5 };
    assert_eq!(format_iso_date(&d), "2025-01-05");
    let d = CalendarDate { year: 987, month: 12, day: 31 };
    assert_eq!(format_iso_date(&d), "0987-12-31");
    let d = CalendarDate { year: 12345, month: 6, day: 15 };
    assert_eq!(format_iso_date(&d), "+12345-06-15");
    let d = CalendarDate { year: -44, month: 3, day: 15 };
    assert_eq!(format_iso_date(&d), "-0044-03-15");
}

#[test]
fn short_sha_of_seven_characters_is_whole() {
    assert_eq!(short_sha("abcdef1"), "abcdef1");
    assert_eq!(short_sha("0123456789abcdef"), "01234567");
    assert_eq!(short_sha(""), "");
}

#[test]
fn templated_changelog_groups_commits() {
    let cs = vec![
        commit("1234567890ab", "  feat: login  ", "ann"),
        commit("abcdef1", "fix: crash", "bob"),
        commit("fedcba9876", "docs: readme", "cy"),
        commit("0000000000", "chore: tidy", "dee"),
        commit("1111111111", "FEAT: logout", "eve"),
    ];
    let d = CalendarDate { year: 2025, month: 2, day: 3 };
    let text = default_changelog_on(&cs, &d);
    assert_eq!(
        text,
        "## [0.1.0] - 2025-02-03\n\n\
### Added\n\n- 12345678 (feat: login) - ann\n- 11111111 (FEAT: logout) - eve\n\n\
### Fixed\n\n- abcdef1 (fix: crash) - bob\n\n\
### Documentation\n\n- fedcba98 (docs: readme) - cy\n\n\
### Other Changes\n\n- 00000000 (chore: tidy) - dee\n\n"
    );
}

#[test]
fn templated_changelog_of_no_commit_has_only_a_heading() {
    let d = CalendarDate { year: 2025, month: 2, day: 3 };
    assert_eq!(default_changelog_on(&[], &d), "## [0.0.1] - 2025-02-03\n\n");
}

#[test]
fn generator_sections_for_a_date() {
    let g = generator();
    let d = CalendarDate { year: 2025, month: 1, day: 1 };
    let cs = vec![commit("abcdef1234", "feat: a", "x")];
    assert_eq!(g.generate_changelog("- did a thing", &cs, &d), "## [0.1.0] - 2025-01-01\n\n- did a thing");
    assert_eq!(
        g.generate_default_changelog(&cs, &d),
        "## [0.1.0] - 2025-01-01\n\n### Added\n\n- abcdef12 (feat: a) - x\n\n"
    );
}

#[test]
fn lowered_version_and_label() {
    assert_eq!(version_in_lowered("release v1.2.0!"), Some("v1.2.0".to_string()));
    assert_eq!(version_in_lowered("Release v1.2.0"), None);
    assert_eq!(version_in_lowered("prerelease:  v3"), Some("v3".to_string()));
    assert_eq!(version_in_lowered("version"), None);
    let ls = vec!["feat: a".to_string(), "release v1".to_string(), "fix: b".to_string()];
    assert_eq!(label_from_lowered(&ls), "v1");
    assert_eq!(label_from_lowered(&vec!["fix".to_string(), "feature".to_string()]), "0.1.0");
    assert_eq!(label_from_lowered(&vec!["Feat: upper".to_string()]), "0.0.1");
    assert_eq!(label_from_lowered(&vec![]), "0.0.1");
}

#[test]
fn lowered_categories() {
    assert_eq!(category_of_text("feat: x"), Category::Added);
    assert_eq!(category_of_text("fixup"), Category::Fixed);
    assert_eq!(category_of_text("docs"), Category::Documentation);
    assert_eq!(category_of_text("Feat: x"), Category::Other);
    assert_eq!(category_of_text(" feat"), Category::Other);
}
