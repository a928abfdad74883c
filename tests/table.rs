use repo_visibility::repo::{RepositoryRecord, Visibility};
use repo_visibility::table::{column_width, render_table};

#[test]
fn empty_listing_renders_header_only() {
    let lines = render_table(&Vec::new());
    assert_eq!(lines.len(), 2);
    assert_eq!(lines[0], format!(" {:<10} {:<10} {:<50}", "repo_name", "visibility", "description"));
    assert_eq!(lines[1], format!("-{}-{}-{}-", "=".repeat(10), "=".repeat(10), "=".repeat(50)));
}

#[test]
fn rows_are_padded_to_the_longest_name() {
    let recs = vec![
        RepositoryRecord::new("tools".to_string(), Visibility::Private, Some("helpers".to_string())),
        RepositoryRecord::new("a-much-longer-name".to_string(), Visibility::Public, None),
    ];
    assert_eq!(column_width(&recs), 18);
    let lines = render_table(&recs);
    assert_eq!(lines.len(), 4);
    assert_eq!(lines[0], format!(" {:<18} {:<10} {:<50}", "repo_name", "visibility", "description"));
    assert_eq!(lines[2], format!("|{:<18}|{:<10}|{:<50}", "tools", "PRIVATE", "helpers"));
    assert_eq!(lines[3], format!("|{:<18}|{:<10}|{:<50}", "a-much-longer-name", "PUBLIC", ""));
}

#[test]
fn short_names_keep_the_header_whole() {
    let recs = vec![RepositoryRecord::new("ab".to_string(), Visibility::Internal, None)];
    let lines = render_table(&recs);
    assert_eq!(lines[0], format!(" repo_name {:<10} {:<50}", "visibility", "description"));
    assert_eq!(lines[1], format!("-==-{}-{}-", "=".repeat(10), "=".repeat(50)));
    assert_eq!(lines[2], format!("|ab|INTERNAL  |{:<50}", ""));
}

#[test]
fn visibility_names_round_trip() {
    for v in [Visibility::Public, Visibility::Private, Visibility::Internal] {
        assert_eq!(Visibility::from_name(v.name()), Some(v));
    }
    assert_eq!(Visibility::from_name("public"), None);
}

#[test]
fn long_description_is_cut_to_the_column() {
    let long: String = "d".repeat(60) + "tail";
    let recs = vec![RepositoryRecord::new("name".to_string(), Visibility::Public, Some(long))];
    let lines = render_table(&recs);
    assert_eq!(lines[2], format!("|name|{:<10}|{}", "PUBLIC", "d".repeat(50)));
    assert!(!lines[2].contains("tail"));
}
