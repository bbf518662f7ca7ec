use repo_tree::model::TreeEntry;
use repo_tree::render::{format_tree, kind_token};

fn entry(path: &str, kind: &str) -> TreeEntry {
    TreeEntry {
        path: path.to_string(),
        mode: "100644".to_string(),
        type_field: kind.to_string(),
        sha: "d670460b4b4aece5915caf5c68d12f560a9fe3e4".to_string(),
        size: if kind == "blob" { Some(9) } else { None },
        url: None,
    }
}

#[test]
fn maps_tree_kind_to_dir() {
    assert_eq!(kind_token("tree"), "DIR");
}

#[test]
fn maps_blob_kind_to_file() {
    assert_eq!(kind_token("blob"), "FILE");
}

#[test]
fn maps_any_other_kind_to_unk() {
    assert_eq!(kind_token("commit"), "UNK");
    assert_eq!(kind_token(""), "UNK");
    assert_eq!(kind_token("blobs"), "UNK");
    assert_eq!(kind_token("Tree"), "UNK");
}

#[test]
fn renders_single_file() {
    let output = format_tree(vec![entry("README.md", "blob")]);
    assert_eq!(output, "FILE README.md\n");
}

#[test]
fn renders_dir_then_file_in_order() {
    let output = format_tree(vec![entry("src", "tree"), entry("src/main.rs", "blob")]);
    assert_eq!(output, "DIR src\nFILE src/main.rs\n");
}

#[test]
fn renders_empty_tree_as_empty_text() {
    let output = format_tree(vec![]);
    assert_eq!(output, "");
}

#[test]
fn one_line_per_entry() {
    let output = format_tree(vec![
        entry("a", "tree"),
        entry("a/b", "blob"),
        entry("a/c", "commit"),
        entry("d", "blob"),
    ]);
    assert_eq!(output.lines().count(), 4);
}

#[test]
fn line_i_matches_entry_i() {
    let entries = vec![
        entry("docs", "tree"),
        entry("docs/guide.md", "blob"),
        entry("mystery", "link"),
    ];
    let paths: Vec<String> = entries.iter().map(|e| e.path.clone()).collect();
    let output = format_tree(entries);
    let lines: Vec<&str> = output.lines().collect();
    assert_eq!(lines.len(), paths.len());
    for (i, line) in lines.iter().enumerate() {
        assert!(line.ends_with(paths[i].as_str()));
    }
    assert_eq!(lines[0], "DIR docs");
    assert_eq!(lines[1], "FILE docs/guide.md");
    assert_eq!(lines[2], "UNK mystery");
}

#[test]
fn rendering_twice_is_byte_identical() {
    let first = format_tree(vec![entry("src", "tree"), entry("src/lib.rs", "blob")]);
    let second = format_tree(vec![entry("src", "tree"), entry("src/lib.rs", "blob")]);
    assert_eq!(first.as_bytes(), second.as_bytes());
}
