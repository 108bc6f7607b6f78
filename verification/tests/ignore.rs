use synctr_engine::ignore::{FilterRule, FilterSet};

#[test]
fn defaults_translate_to_rclone_filter_lines() {
    let f = FilterSet::for_profile(&vec!["*.key".to_string()], None, None);
    let text = f.to_filter_from();
    assert!(text.contains("- node_modules/**"));
    assert!(text.contains("- .git/**"));
    assert!(text.contains("- target/**"));
    assert!(text.contains("- dist/**"));
    assert!(text.contains("- .DS_Store"));
    assert!(text.contains("- *.key"));
    assert!(text.starts_with("- *.key\n"));
}

#[test]
fn files_blank_lines_comments_and_keeps() {
    let f = FilterSet::for_profile(
        &vec![],
        Some("# comment\n\n  *.tmp  \n!important.tmp\nbuild/\n"),
        Some("/anchored\n"),
    );
    let rules: Vec<(bool, String)> = f.rules.iter().take(4).map(|r| (r.keep, r.pattern.clone())).collect();
    assert_eq!(
        rules,
        vec![
            (false, "*.tmp".to_string()),
            (true, "important.tmp".to_string()),
            (false, "build/**".to_string()),
            (false, "/anchored".to_string()),
        ]
    );
    assert_eq!(f.to_filter_from().lines().next(), Some("- *.tmp"));
}

#[test]
fn first_match_wins() {
    let f = FilterSet::from_gitignore_lines(&vec!["!node_modules/".to_string()]).with_defaults();
    assert!(!f.is_excluded("node_modules/pkg/index.js"));
    assert!(f.is_excluded(".git/config"));
    let g = FilterSet::from_gitignore_lines(&vec!["*.tmp".to_string(), "!keep.tmp".to_string()]);
    assert!(g.is_excluded("keep.tmp"));
    assert!(g.is_excluded("dir/keep.tmp"));
    assert!(!g.is_excluded("keep.txt"));
}

#[test]
fn rclone_glob_rules() {
    let mut f = FilterSet::empty();
    f.push_rule(FilterRule { keep: false, pattern: "/top/*.log".to_string() });
    assert!(f.is_excluded("top/a.log"));
    assert!(!f.is_excluded("x/top/a.log"));
    assert!(!f.is_excluded("top/sub/a.log"));
    let mut g = FilterSet::empty();
    g.push_rule(FilterRule { keep: false, pattern: "a?c".to_string() });
    assert!(g.is_excluded("abc"));
    assert!(g.is_excluded("d/abc"));
    assert!(!g.is_excluded("a/c"));
    assert!(!g.is_excluded("xabc"));
    let mut h = FilterSet::empty();
    h.push_rule(FilterRule { keep: false, pattern: "docs/**/x".to_string() });
    assert!(h.is_excluded("docs/a/b/x"));
    assert!(h.is_excluded("docs//x"));
    assert!(!h.is_excluded("docs/x"));
}
