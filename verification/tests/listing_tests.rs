use rediacc_bridge::listing::{directories_from_entries, list_outcome, DirEntry, PathStatus};
use rediacc_bridge::order::sort_names;
use rediacc_bridge::text::{has_prefix, str_eq, tagged_line_value, trim, trim_quotes};

fn entry(name: &str, is_dir: bool) -> DirEntry {
    DirEntry { name: name.to_string(), is_dir }
}

fn strings(items: &[&str]) -> Vec<String> {
    items.iter().map(|s| s.to_string()).collect()
}

#[test]
fn directories_are_sorted_and_files_excluded() {
    let entries = vec![entry("b", true), entry("a", true), entry("f.txt", false)];
    assert_eq!(directories_from_entries(&entries), strings(&["a", "b"]));
}

#[test]
fn directories_from_no_entries_is_empty() {
    assert_eq!(directories_from_entries(&Vec::new()), Vec::<String>::new());
}

#[test]
fn duplicate_names_keep_their_multiplicity() {
    let entries = vec![entry("x", true), entry("x", true), entry("a", true)];
    assert_eq!(directories_from_entries(&entries), strings(&["a", "x", "x"]));
}

#[test]
fn listing_failures_stay_distinct() {
    let missing = list_outcome(PathStatus::Missing, Ok(Vec::new()));
    assert_eq!(missing.unwrap_err(), "Path does not exist");

    let not_dir = list_outcome(PathStatus::NotDirectory, Ok(Vec::new()));
    assert_eq!(not_dir.unwrap_err(), "Path is not a directory");

    let unreadable = list_outcome(PathStatus::Directory, Err("permission denied".to_string()));
    assert_eq!(unreadable.unwrap_err(), "Failed to read directory: permission denied");
}

#[test]
fn listing_a_readable_directory_sorts_its_subdirectories() {
    let entries = vec![entry("zeta", true), entry("alpha", true), entry("notes.md", false)];
    let names = list_outcome(PathStatus::Directory, Ok(entries)).unwrap();
    assert_eq!(names, strings(&["alpha", "zeta"]));
}

#[test]
fn sort_names_orders_lexically() {
    let out = sort_names(strings(&["b", "a", "ab", "a", ""]));
    assert_eq!(out, strings(&["", "a", "a", "ab", "b"]));
}

#[test]
fn trim_strips_surrounding_whitespace_only() {
    assert_eq!(trim("  Python 3.11.2\n"), "Python 3.11.2");
    assert_eq!(trim("\t\r\n "), "");
    assert_eq!(trim(""), "");
    assert_eq!(trim("a b"), "a b");
}

#[test]
fn trim_quotes_strips_surrounding_quotes_only() {
    assert_eq!(trim_quotes("\"Test OS 1.0\""), "Test OS 1.0");
    assert_eq!(trim_quotes("plain"), "plain");
    assert_eq!(trim_quotes("\"\""), "");
    assert_eq!(trim_quotes("say \"hi\" now"), "say \"hi\" now");
}

#[test]
fn prefix_and_equality_checks() {
    assert!(has_prefix("PRETTY_NAME=x", "PRETTY_NAME="));
    assert!(!has_prefix("PRETTY", "PRETTY_NAME="));
    assert!(has_prefix("anything", ""));
    assert!(str_eq("same", "same"));
    assert!(!str_eq("same", "Same"));
    assert!(!str_eq("same", "sam"));
}

#[test]
fn sorting_is_by_code_point() {
    let out = sort_names(strings(&["b", "A", "a", "B"]));
    assert_eq!(out, strings(&["A", "B", "a", "b"]));
}

#[test]
fn tagged_line_value_finds_the_first_matching_line() {
    let content = "NAME=\"Test OS\"\nVERSION=1\nPRETTY_NAME=\"Test OS 1.0\"\nID=test";
    assert_eq!(tagged_line_value(content, "PRETTY_NAME=").unwrap(), "Test OS 1.0");
    assert_eq!(tagged_line_value(content, "VERSION=").unwrap(), "1");
    assert!(tagged_line_value(content, "MISSING=").is_none());
    assert!(tagged_line_value("", "PRETTY_NAME=").is_none());
    assert_eq!(tagged_line_value("PRETTY_NAME=bare", "PRETTY_NAME=").unwrap(), "bare");
}

#[test]
fn tagged_line_value_handles_trailing_newlines_and_inner_quotes() {
    let content = "PRETTY_NAME=\"Test OS 1.0\"\n";
    assert_eq!(tagged_line_value(content, "PRETTY_NAME=").unwrap(), "Test OS 1.0");
    assert_eq!(
        tagged_line_value("KEY=a \"quoted\" middle", "KEY=").unwrap(),
        "a \"quoted\" middle"
    );
}
