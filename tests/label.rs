use emmylua::command::launch_command;
use emmylua::label::{
    find_bytes, label_for_completion, label_for_symbol, CodeLabel, CompletionKind, Span,
    SymbolKind,
};

fn literal(label: &CodeLabel) -> (String, Option<String>) {
    assert_eq!(label.spans.len(), 1);
    match &label.spans[0] {
        Span::Literal { text, highlight } => (text.clone(), highlight.clone()),
        Span::CodeRange { .. } => panic!("expected a literal span"),
    }
}

fn range(label: &CodeLabel) -> (usize, usize) {
    assert_eq!(label.spans.len(), 1);
    match &label.spans[0] {
        Span::CodeRange { start, end } => (*start, *end),
        Span::Literal { .. } => panic!("expected a code range"),
    }
}

#[test]
fn function_completion_filters_up_to_the_parenthesis() {
    let name = "print(value)".to_string();
    let label = label_for_completion(&name, Some(CompletionKind::Function)).unwrap();
    assert_eq!(label.code, "print(value)");
    assert_eq!(range(&label), (0, 12));
    assert_eq!((label.filter_start, label.filter_end), (0, 5));
}

#[test]
fn method_completion_without_parenthesis_filters_whole_name() {
    let name = "insert".to_string();
    let label = label_for_completion(&name, Some(CompletionKind::Method)).unwrap();
    assert_eq!(label.code, "insert");
    assert_eq!(range(&label), (0, 6));
    assert_eq!((label.filter_start, label.filter_end), (0, 6));
}

#[test]
fn completion_ranges_count_bytes() {
    let name = "é(x)".to_string();
    let label = label_for_completion(&name, Some(CompletionKind::Function)).unwrap();
    assert_eq!(range(&label), (0, 5));
    assert_eq!(label.filter_end, 2);
}

#[test]
fn literal_completion_kinds() {
    let name = "count".to_string();
    let cases = [
        (CompletionKind::Field, "property"),
        (CompletionKind::Property, "property"),
        (CompletionKind::Variable, "variable"),
        (CompletionKind::Class, "type"),
        (CompletionKind::Module, "module"),
        (CompletionKind::Keyword, "keyword"),
    ];
    for (kind, highlight) in cases {
        let label = label_for_completion(&name, Some(kind)).unwrap();
        assert_eq!(literal(&label), ("count".to_string(), Some(highlight.to_string())));
        assert_eq!((label.filter_start, label.filter_end), (0, 5));
        assert_eq!(label.code, "");
    }
}

#[test]
fn other_completion_kinds_get_no_label() {
    let name = "x".to_string();
    assert!(label_for_completion(&name, None).is_none());
    assert!(label_for_completion(&name, Some(CompletionKind::Snippet)).is_none());
    assert!(label_for_completion(&name, Some(CompletionKind::Other(42))).is_none());
}

#[test]
fn function_symbol_is_shown_as_a_declaration() {
    let name = "setup".to_string();
    let label = label_for_symbol(&name, SymbolKind::Function).unwrap();
    assert_eq!(label.code, "function setup()");
    assert_eq!(range(&label), (9, 14));
    assert_eq!((label.filter_start, label.filter_end), (0, 5));
}

#[test]
fn symbol_range_is_the_first_occurrence() {
    let name = "f".to_string();
    let label = label_for_symbol(&name, SymbolKind::Method).unwrap();
    assert_eq!(label.code, "function f()");
    assert_eq!(range(&label), (0, 1));
}

#[test]
fn literal_symbol_kinds() {
    let name = "Config".to_string();
    for (kind, highlight) in [
        (SymbolKind::Class, "type"),
        (SymbolKind::Module, "type"),
        (SymbolKind::Variable, "variable"),
        (SymbolKind::Constant, "variable"),
    ] {
        let label = label_for_symbol(&name, kind).unwrap();
        assert_eq!(literal(&label), ("Config".to_string(), Some(highlight.to_string())));
        assert_eq!(label.code, "Config");
        assert_eq!((label.filter_start, label.filter_end), (0, 6));
    }
}

#[test]
fn other_symbols_are_plain_code() {
    let name = "items".to_string();
    let label = label_for_symbol(&name, SymbolKind::Field).unwrap();
    assert_eq!(label.code, "items");
    assert_eq!(range(&label), (0, 5));
    assert_eq!((label.filter_start, label.filter_end), (0, 5));
}

#[test]
fn byte_search_finds_first_match() {
    assert_eq!(find_bytes(b"abcabc", b"bc"), Some(1));
    assert_eq!(find_bytes(b"abc", b""), Some(0));
    assert_eq!(find_bytes(b"abc", b"abcd"), None);
    assert_eq!(find_bytes(b"abc", b"x"), None);
    assert_eq!(find_bytes(b"aab", b"ab"), Some(1));
}

#[test]
fn launch_command_uses_configuration() {
    let shell = vec![("PATH".to_string(), "/usr/bin".to_string())];
    let overrides = vec![("RUST_LOG".to_string(), "info".to_string())];
    let cmd = launch_command(
        "/bin/emmylua_ls".to_string(),
        Some(vec!["--log".to_string()]),
        shell.clone(),
        Some(overrides),
    );
    assert_eq!(cmd.command, "/bin/emmylua_ls");
    assert_eq!(cmd.args, vec!["--log".to_string()]);
    assert_eq!(
        cmd.env,
        vec![
            ("PATH".to_string(), "/usr/bin".to_string()),
            ("RUST_LOG".to_string(), "info".to_string())
        ]
    );
    let plain = launch_command("p".to_string(), None, shell.clone(), None);
    assert!(plain.args.is_empty());
    assert_eq!(plain.env, shell);
}
