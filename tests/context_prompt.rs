use gpt_cli::context::{build_file_context, FileEntry};
use gpt_cli::prompt::{assemble_prompt, resolve_message, DEFAULT_MESSAGE, REQUEST_LABEL};

fn entry(path: &str, content: &str) -> FileEntry {
    FileEntry { path: path.to_string(), content: content.to_string() }
}

#[test]
fn empty_file_list_gives_empty_context() {
    assert_eq!(build_file_context(&vec![]), "");
}

#[test]
fn one_file_block_format() {
    let ctx = build_file_context(&vec![entry("src/main.rs", "fn main() {}")]);
    assert_eq!(ctx, "File: src/main.rs\n```text\nfn main() {}\n```\n\n");
}

#[test]
fn files_appear_in_input_order_with_exact_content() {
    let ctx = build_file_context(&vec![entry("b.txt", "second\nline"), entry("a.txt", "")]);
    assert_eq!(
        ctx,
        "File: b.txt\n```text\nsecond\nline\n```\n\nFile: a.txt\n```text\n\n```\n\n"
    );
    let b = ctx.find("File: b.txt").unwrap();
    let a = ctx.find("File: a.txt").unwrap();
    assert!(b < a);
}

#[test]
fn assemble_without_context_is_message() {
    assert_eq!(assemble_prompt("", "Write me a haiku"), "Write me a haiku");
    assert_eq!(assemble_prompt("", ""), "");
}

#[test]
fn assemble_with_context_prefix_label_suffix() {
    let r = assemble_prompt("CTX", "Explain this code");
    assert_eq!(r, "CTX\n\nUser request:\nExplain this code");
    assert!(r.starts_with("CTX"));
    assert!(r.ends_with("Explain this code"));
    assert_eq!(REQUEST_LABEL, "\n\nUser request:\n");
}

#[test]
fn missing_message_uses_default() {
    assert_eq!(resolve_message(None), "Explain the provided files.");
    assert_eq!(resolve_message(None), DEFAULT_MESSAGE);
    assert_eq!(resolve_message(Some("hi".to_string())), "hi");
}
