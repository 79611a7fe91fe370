use asm_ext::labels::{
    label_for_completion, label_for_symbol, CodeLabel, Completion, CompletionKind, Symbol,
    SymbolKind,
};

fn completion(label: &str, kind: Option<CompletionKind>) -> Completion {
    Completion { label: label.as_bytes().to_vec(), kind }
}

fn symbol(name: &str, kind: SymbolKind) -> Symbol {
    Symbol { name: name.as_bytes().to_vec(), kind }
}

fn completion_highlight(label: &str, kind: CompletionKind) -> String {
    let l = label_for_completion(&completion(label, Some(kind))).unwrap();
    assert_eq!(l.spans.len(), 1);
    String::from_utf8(l.spans[0].highlight.clone().unwrap()).unwrap()
}

#[test]
fn completion_recognized_kinds_map_exactly() {
    assert_eq!(completion_highlight("mov", CompletionKind::Keyword), "keyword");
    assert_eq!(completion_highlight("rax", CompletionKind::Variable), "variable");
    assert_eq!(completion_highlight("main", CompletionKind::Function), "function");
}

#[test]
fn completion_unrecognized_kinds_map_to_other() {
    assert_eq!(completion_highlight("x", CompletionKind::Text), "other");
    assert_eq!(completion_highlight("x", CompletionKind::Snippet), "other");
    assert_eq!(completion_highlight("x", CompletionKind::Constant), "other");
    assert_eq!(completion_highlight("x", CompletionKind::Module), "other");
    assert_eq!(completion_highlight("x", CompletionKind::Other(99)), "other");
    assert_eq!(completion_highlight("x", CompletionKind::Other(-1)), "other");
}

#[test]
fn completion_without_kind_gives_no_label() {
    assert_eq!(label_for_completion(&completion("mov", None)), None);
}

#[test]
fn completion_with_kind_always_gives_a_label() {
    assert!(label_for_completion(&completion("", Some(CompletionKind::Event))).is_some());
    assert!(label_for_completion(&completion("mov", Some(CompletionKind::Keyword))).is_some());
}

#[test]
fn completion_label_shape() {
    let l = label_for_completion(&completion("syscall", Some(CompletionKind::Keyword))).unwrap();
    assert_eq!(l.spans.len(), 1);
    assert_eq!(l.spans[0].text, b"syscall".to_vec());
    assert_eq!(l.spans[0].highlight, Some(b"keyword".to_vec()));
    assert_eq!(l.filter_range_start, 0);
    assert_eq!(l.filter_range_end, "syscall".len());
    assert_eq!(l.code, b"syscall".to_vec());
}

#[test]
fn completion_empty_label() {
    let l = label_for_completion(&completion("", Some(CompletionKind::Keyword))).unwrap();
    assert_eq!(l.filter_range_start, 0);
    assert_eq!(l.filter_range_end, 0);
    assert_eq!(l.code, Vec::<u8>::new());
}

#[test]
fn symbol_recognized_kinds_map_exactly() {
    let cases = [
        (SymbolKind::Function, "Function"),
        (SymbolKind::Variable, "Variable"),
        (SymbolKind::Constant, "Constant"),
    ];
    for (kind, want) in cases {
        let l = label_for_symbol(&symbol("x", kind)).unwrap();
        assert_eq!(l.spans[0].highlight, Some(want.as_bytes().to_vec()));
    }
}

#[test]
fn symbol_unrecognized_kinds_map_to_other() {
    for kind in [
        SymbolKind::File,
        SymbolKind::Struct,
        SymbolKind::String,
        SymbolKind::Method,
        SymbolKind::Other(42),
    ] {
        let l = label_for_symbol(&symbol("x", kind)).unwrap();
        assert_eq!(l.spans[0].highlight, Some(b"Other".to_vec()));
    }
}

#[test]
fn symbol_code_is_category_colon_space_name() {
    let l = label_for_symbol(&symbol("_start", SymbolKind::Function)).unwrap();
    assert_eq!(l.code, b"Function: _start".to_vec());
    let l = label_for_symbol(&symbol("SYS_CLOSE", SymbolKind::Constant)).unwrap();
    assert_eq!(l.code, b"Constant: SYS_CLOSE".to_vec());
    let l = label_for_symbol(&symbol("buf", SymbolKind::Array)).unwrap();
    assert_eq!(l.code, b"Other: buf".to_vec());
}

#[test]
fn symbol_filter_range_covers_bare_name_only() {
    let l = label_for_symbol(&symbol("_start", SymbolKind::Function)).unwrap();
    assert_eq!(l.filter_range_start, 0);
    assert_eq!(l.filter_range_end, "_start".len());
    assert_eq!(l.spans.len(), 1);
    assert_eq!(l.spans[0].text, b"_start".to_vec());
}

#[test]
fn symbol_always_gives_a_label() {
    for kind in [SymbolKind::Null, SymbolKind::Function, SymbolKind::Other(0)] {
        assert!(label_for_symbol(&symbol("x", kind)).is_some());
    }
}

#[test]
fn label_functions_are_idempotent() {
    let c = completion("mov", Some(CompletionKind::Keyword));
    let first: Option<CodeLabel> = label_for_completion(&c);
    let second: Option<CodeLabel> = label_for_completion(&c);
    assert_eq!(first, second);

    let c = completion("x", None);
    assert_eq!(label_for_completion(&c), label_for_completion(&c));

    let s = symbol("_start", SymbolKind::Function);
    assert_eq!(label_for_symbol(&s), label_for_symbol(&s));

    let s = symbol("data", SymbolKind::Object);
    assert_eq!(label_for_symbol(&s), label_for_symbol(&s));
}
