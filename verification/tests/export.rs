use ironhold::export::{export_block, export_order, in_skipped_dir, is_exported_ext};

fn strings(items: &[&str]) -> Vec<String> {
    items.iter().map(|item| item.to_string()).collect()
}

#[test]
fn exported_extensions() {
    for ext in ["md", "rs", "toml", "html", "css", "js", "ts", "json", "ron"] {
        assert!(is_exported_ext(ext));
    }
    for ext in ["", "wasm", "png", "RS", "rs ", "lock"] {
        assert!(!is_exported_ext(ext));
    }
}

#[test]
fn paths_in_skipped_directories() {
    assert!(in_skipped_dir(&strings(&[".", "target", "debug", "a.rs"])));
    assert!(in_skipped_dir(&strings(&["web", "node_modules", "x", "index.js"])));
    assert!(in_skipped_dir(&strings(&[".git"])));
    assert!(in_skipped_dir(&strings(&["a", "b", "dist"])));
    assert!(!in_skipped_dir(&strings(&[".", "crates", "engine", "src", "lib.rs"])));
    assert!(!in_skipped_dir(&strings(&[])));
    assert!(!in_skipped_dir(&strings(&["targets", "distribution"])));
}

#[test]
fn block_frames_path_and_content() {
    let block = export_block("src/lib.rs", "rust", b"fn main() {}\n");
    assert_eq!(
        String::from_utf8(block).unwrap(),
        "```path\nsrc/lib.rs\n```\n```rust\nfn main() {}\n```\n\n"
    );
}

#[test]
fn block_ends_the_last_line_of_the_content() {
    let block = export_block("a.md", "markdown", b"# title");
    assert_eq!(
        String::from_utf8(block).unwrap(),
        "```path\na.md\n```\n```markdown\n# title\n```\n\n"
    );
    let empty = export_block("e.toml", "toml", b"");
    assert_eq!(String::from_utf8(empty).unwrap(), "```path\ne.toml\n```\n```toml\n\n```\n\n");
}

#[test]
fn block_keeps_bytes_that_are_no_text() {
    let block = export_block("b.json", "json", &[0xFF, 0x00, 0x0A]);
    let mut expected = b"```path\nb.json\n```\n```json\n".to_vec();
    expected.extend_from_slice(&[0xFF, 0x00, 0x0A]);
    expected.extend_from_slice(b"```\n\n");
    assert_eq!(block, expected);
}

#[test]
fn export_is_ordered_by_paths_with_forward_slashes() {
    let sorted = export_order(strings(&["./b/a.rs", ".\\a\\z.rs", "./a/b.rs", "./Cargo.toml"]));
    assert_eq!(sorted, strings(&["./Cargo.toml", "./a/b.rs", ".\\a\\z.rs", "./b/a.rs"]));
    assert!(export_order(Vec::new()).is_empty());
    assert_eq!(export_order(strings(&["b", "a", "b"])), strings(&["a", "b", "b"]));
}
