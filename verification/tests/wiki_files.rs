use rust_wiki::wiki_files::{format_diff_hunks, get_file_diff, strip_pre, try_strip_pre, DiffChange, DiffHunk, DiffTag};

#[test]
fn strips_pre_wrapper() {
    assert_eq!(strip_pre("<pre>\na,b\n</pre>"), "a,b\n");
    assert_eq!(strip_pre("a,b\n"), "a,b\n");
    assert_eq!(strip_pre("<pre>\n</pre>"), "");
    assert_eq!(strip_pre("<pre>\né</pre>"), "é");
}

#[test]
fn formats_hunks() {
    let hunks = vec![
        DiffHunk {
            header: "@@ -1,2 +1,2 @@".to_string(),
            changes: vec![
                DiffChange { tag: DiffTag::Equal, text: "a\n".to_string() },
                DiffChange { tag: DiffTag::Delete, text: "b\n".to_string() },
                DiffChange { tag: DiffTag::Insert, text: "c\n".to_string() },
            ],
        },
        DiffHunk { header: "@@ -9 +9 @@".to_string(), changes: vec![] },
    ];
    assert_eq!(
        format_diff_hunks(&hunks),
        "@@ -1,2 +1,2 @@\n a\n\x1b[38;2;255;255;255m\x1b[38;2;200;0;0m-b\n\x1b[38;2;255;255;255m\x1b[38;2;0;200;0m+c\n\x1b[38;2;255;255;255m"
    );
}

#[test]
fn diff_of_files() {
    assert_eq!(get_file_diff("a\nb\n", "a\nb\n"), "");
    assert_eq!(
        get_file_diff("a\nb\n", "a\nc\n"),
        "@@ -1,2 +1,2 @@\n a\n\x1b[38;2;255;255;255m\x1b[38;2;200;0;0m-b\n\x1b[38;2;255;255;255m\x1b[38;2;0;200;0m+c\n\x1b[38;2;255;255;255m"
    );
}

#[test]
fn strip_fails_when_too_short() {
    assert_eq!(try_strip_pre("<pre>\n"), None);
    assert_eq!(try_strip_pre("<pre>\nab"), None);
    assert_eq!(try_strip_pre("<pre>\nabc</pre>"), Some("abc"));
    assert_eq!(try_strip_pre("plain"), Some("plain"));
}
