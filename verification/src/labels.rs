//! Display labels for completion and symbol items reported by the language
//! server.
//!
//! Label text is handled as bytes (`Vec<u8>`): the host's filter ranges index
//! into the byte length of the displayed text, so the byte level is where the
//! range invariants live.

use vstd::prelude::*;
use vstd::slice::slice_to_vec;

use crate::append_bytes;

verus! {

/// The kind tag the language server attaches to a completion item.
///
/// The tags form a closed enumeration; a tag outside it is carried as
/// `Other` with the raw code.
#[derive(Clone, Copy, PartialEq, Eq, Debug)]
pub enum CompletionKind {
    Text,
    Method,
    Function,
    Constructor,
    Field,
    Variable,
    Class,
    Interface,
    Module,
    Property,
    Unit,
    Value,
    Enum,
    Keyword,
    Snippet,
    Color,
    File,
    Reference,
    Folder,
    EnumMember,
    Constant,
    Struct,
    Event,
    Operator,
    TypeParameter,
    Other(i32),
}

/// The kind tag the language server attaches to a symbol item.
#[derive(Clone, Copy, PartialEq, Eq, Debug)]
pub enum SymbolKind {
    File,
    Module,
    Namespace,
    Package,
    Class,
    Method,
    Property,
    Field,
    Constructor,
    Enum,
    Interface,
    Function,
    Variable,
    Constant,
    String,
    Number,
    Boolean,
    Array,
    Object,
    Key,
    Null,
    EnumMember,
    Struct,
    Event,
    Operator,
    TypeParameter,
    Other(i32),
}

/// A completion item as far as label formatting reads it: the literal
/// completion text and the optional kind tag.
#[derive(Clone, PartialEq, Eq, Debug)]
pub struct Completion {
    pub label: Vec<u8>,
    pub kind: Option<CompletionKind>,
}

/// A symbol item as far as label formatting reads it: the symbol name and its
/// (always present) kind tag.
#[derive(Clone, PartialEq, Eq, Debug)]
pub struct Symbol {
    pub name: Vec<u8>,
    pub kind: SymbolKind,
}

/// One styled segment of a label: literal text with an optional highlight
/// category.
#[derive(Clone, PartialEq, Eq, Debug)]
pub struct CodeLabelSpan {
    pub text: Vec<u8>,
    pub highlight: Option<Vec<u8>>,
}

/// A structured label handed back to the host: display spans, the byte range
/// of the displayed text used for fuzzy filtering, and the full code string.
#[derive(Clone, PartialEq, Eq, Debug)]
pub struct CodeLabel {
    pub spans: Vec<CodeLabelSpan>,
    pub filter_range_start: usize,
    pub filter_range_end: usize,
    pub code: Vec<u8>,
}

impl View for CodeLabelSpan {
    type V = (Seq<u8>, Option<Seq<u8>>);

    open spec fn view(&self) -> Self::V {
        (
            self.text@,
            match self.highlight {
                Some(h) => Some(h@),
                None => None,
            },
        )
    }
}

impl View for CodeLabel {
    type V = (Seq<(Seq<u8>, Option<Seq<u8>>)>, int, int, Seq<u8>);

    open spec fn view(&self) -> Self::V {
        (
            self.spans@.map_values(|s: CodeLabelSpan| s@),
            self.filter_range_start as int,
            self.filter_range_end as int,
            self.code@,
        )
    }
}

/// The displayed text of a label: the concatenation of its spans' text.
pub open spec fn spans_text(spans: Seq<CodeLabelSpan>) -> Seq<u8>
    decreases spans.len(),
{
    if spans.len() == 0 {
        Seq::empty()
    } else {
        spans_text(spans.drop_last()) + spans.last().text@
    }
}

/// A label is well formed when its filter range is a valid sub-slice of the
/// displayed text's byte length.
pub open spec fn label_wf(l: CodeLabel) -> bool {
    l.filter_range_start <= l.filter_range_end <= spans_text(l.spans@).len()
}

/// The displayed text of a one-span label is that span's text.
proof fn lemma_spans_text_single(spans: Seq<CodeLabelSpan>)
    requires
        spans.len() == 1,
    ensures
        spans_text(spans) == spans[0].text@,
{
    assert(spans.drop_last() =~= Seq::<CodeLabelSpan>::empty());
    assert(spans_text(Seq::<CodeLabelSpan>::empty()) == Seq::<u8>::empty());
    assert(spans_text(spans) =~= spans[0].text@);
}

/// The fixed mapping from completion kind tags to highlight categories:
/// `Keyword`, `Variable` and `Function` map to their lower-case category
/// names, every other tag to `other`.
pub open spec fn spec_completion_category(k: CompletionKind) -> Seq<u8> {
    match k {
        CompletionKind::Keyword => seq!['k' as u8, 'e' as u8, 'y' as u8, 'w' as u8, 'o' as u8, 'r' as u8, 'd' as u8],
        CompletionKind::Variable => seq!['v' as u8, 'a' as u8, 'r' as u8, 'i' as u8, 'a' as u8, 'b' as u8, 'l' as u8, 'e' as u8],
        CompletionKind::Function => seq!['f' as u8, 'u' as u8, 'n' as u8, 'c' as u8, 't' as u8, 'i' as u8, 'o' as u8, 'n' as u8],
        _ => seq!['o' as u8, 't' as u8, 'h' as u8, 'e' as u8, 'r' as u8],
    }
}

/// The fixed mapping from symbol kind tags to display categories:
/// `Function`, `Variable` and `Constant` map to their capitalized category
/// names, every other tag to `Other`.
///
/// A separate category for macro-like symbols was considered and deliberately
/// left out: the mapping table is kept to the three categories above.
pub open spec fn spec_symbol_category(k: SymbolKind) -> Seq<u8> {
    match k {
        SymbolKind::Function => seq!['F' as u8, 'u' as u8, 'n' as u8, 'c' as u8, 't' as u8, 'i' as u8, 'o' as u8, 'n' as u8],
        SymbolKind::Variable => seq!['V' as u8, 'a' as u8, 'r' as u8, 'i' as u8, 'a' as u8, 'b' as u8, 'l' as u8, 'e' as u8],
        SymbolKind::Constant => seq!['C' as u8, 'o' as u8, 'n' as u8, 's' as u8, 't' as u8, 'a' as u8, 'n' as u8, 't' as u8],
        _ => seq!['O' as u8, 't' as u8, 'h' as u8, 'e' as u8, 'r' as u8],
    }
}

/// The highlight category for a completion kind, as bytes.
pub fn completion_category(kind: CompletionKind) -> (r: Vec<u8>)
    ensures
        r@ == spec_completion_category(kind),
{
    let mut v: Vec<u8> = Vec::new();
    match kind {
        CompletionKind::Keyword => {
            v.push('k' as u8);
            v.push('e' as u8);
            v.push('y' as u8);
            v.push('w' as u8);
            v.push('o' as u8);
            v.push('r' as u8);
            v.push('d' as u8);
        },
        CompletionKind::Variable => {
            v.push('v' as u8);
            v.push('a' as u8);
            v.push('r' as u8);
            v.push('i' as u8);
            v.push('a' as u8);
            v.push('b' as u8);
            v.push('l' as u8);
            v.push('e' as u8);
        },
        CompletionKind::Function => {
            v.push('f' as u8);
            v.push('u' as u8);
            v.push('n' as u8);
            v.push('c' as u8);
            v.push('t' as u8);
            v.push('i' as u8);
            v.push('o' as u8);
            v.push('n' as u8);
        },
        _ => {
            v.push('o' as u8);
            v.push('t' as u8);
            v.push('h' as u8);
            v.push('e' as u8);
            v.push('r' as u8);
        },
    }
    proof {
        assert(v@ =~= spec_completion_category(kind));
    }
    v
}

/// The display category for a symbol kind, as bytes.
pub fn symbol_category(kind: SymbolKind) -> (r: Vec<u8>)
    ensures
        r@ == spec_symbol_category(kind),
{
    let mut v: Vec<u8> = Vec::new();
    match kind {
        SymbolKind::Function => {
            v.push('F' as u8);
            v.push('u' as u8);
            v.push('n' as u8);
            v.push('c' as u8);
            v.push('t' as u8);
            v.push('i' as u8);
            v.push('o' as u8);
            v.push('n' as u8);
        },
        SymbolKind::Variable => {
            v.push('V' as u8);
            v.push('a' as u8);
            v.push('r' as u8);
            v.push('i' as u8);
            v.push('a' as u8);
            v.push('b' as u8);
            v.push('l' as u8);
            v.push('e' as u8);
        },
        SymbolKind::Constant => {
            v.push('C' as u8);
            v.push('o' as u8);
            v.push('n' as u8);
            v.push('s' as u8);
            v.push('t' as u8);
            v.push('a' as u8);
            v.push('n' as u8);
            v.push('t' as u8);
        },
        _ => {
            v.push('O' as u8);
            v.push('t' as u8);
            v.push('h' as u8);
            v.push('e' as u8);
            v.push('r' as u8);
        },
    }
    proof {
        assert(v@ =~= spec_symbol_category(kind));
    }
    v
}

/// What `label_for_completion` returns for a given item: absent exactly when
/// the kind tag is absent; otherwise a label with one span holding the literal
/// completion text tagged with its category, a filter range over the whole
/// text, and the text itself as the code string.
pub open spec fn completion_label_correct(c: Completion, r: Option<CodeLabel>) -> bool {
    match c.kind {
        None => r is None,
        Some(k) => match r {
            None => false,
            Some(l) => {
                &&& l.spans@.len() == 1
                &&& l.spans@[0].text@ == c.label@
                &&& (l.spans@[0].highlight matches Some(h) && h@ == spec_completion_category(k))
                &&& l.filter_range_start == 0
                &&& l.filter_range_end == c.label@.len()
                &&& l.code@ == c.label@
            },
        },
    }
}

/// What `label_for_symbol` returns for a given item: always a label, with one
/// span holding the bare symbol name tagged with its category, a filter range
/// over the bare name alone, and a code string of the form `Category: name`.
pub open spec fn symbol_label_correct(s: Symbol, r: Option<CodeLabel>) -> bool {
    match r {
        None => false,
        Some(l) => {
            &&& l.spans@.len() == 1
            &&& l.spans@[0].text@ == s.name@
            &&& (l.spans@[0].highlight matches Some(h) && h@ == spec_symbol_category(s.kind))
            &&& l.filter_range_start == 0
            &&& l.filter_range_end == s.name@.len()
            &&& l.code@ == spec_symbol_category(s.kind) + seq![':' as u8, ' ' as u8] + s.name@
        },
    }
}

/// Formats a completion item for display.
///
/// Returns no label exactly when the item carries no kind tag. Otherwise the
/// single span is the literal completion text with the category of the kind,
/// the filter range spans the whole text, and the code field is the text
/// unchanged.
pub fn label_for_completion(completion: &Completion) -> (r: Option<CodeLabel>)
    ensures
        completion_label_correct(*completion, r),
        r is Some <==> completion.kind is Some,
        r matches Some(l) ==> label_wf(l),
{
    match completion.kind {
        None => None,
        Some(kind) => {
            let category = completion_category(kind);
            let text = slice_to_vec(completion.label.as_slice());
            let code = slice_to_vec(completion.label.as_slice());
            let mut spans: Vec<CodeLabelSpan> = Vec::new();
            spans.push(CodeLabelSpan { text, highlight: Some(category) });
            let label = CodeLabel {
                spans,
                filter_range_start: 0,
                filter_range_end: completion.label.len(),
                code,
            };
            proof {
                lemma_spans_text_single(label.spans@);
            }
            Some(label)
        },
    }
}

/// Formats a symbol item for display.
///
/// Always produces a label: the single span is the bare symbol name with the
/// category of the kind, the filter range spans the bare name alone, and the
/// code field is the category, a literal `: `, and the name, concatenated.
pub fn label_for_symbol(symbol: &Symbol) -> (r: Option<CodeLabel>)
    ensures
        symbol_label_correct(*symbol, r),
        r is Some,
        r matches Some(l) ==> label_wf(l),
{
    let category = symbol_category(symbol.kind);
    let name = slice_to_vec(symbol.name.as_slice());
    let mut code = slice_to_vec(category.as_slice());
    code.push(':' as u8);
    code.push(' ' as u8);
    append_bytes(&mut code, &symbol.name);
    let mut spans: Vec<CodeLabelSpan> = Vec::new();
    spans.push(CodeLabelSpan { text: name, highlight: Some(category) });
    let label = CodeLabel {
        spans,
        filter_range_start: 0,
        filter_range_end: symbol.name.len(),
        code,
    };
    proof {
        lemma_spans_text_single(label.spans@);
        assert(label.code@ =~= spec_symbol_category(symbol.kind) + seq![':' as u8, ' ' as u8] + symbol.name@);
    }
    Some(label)
}

/// Completion label formatting is a pure function of its input: any two
/// results that the contract of `label_for_completion` admits for the same
/// item are identical, so repeated calls on equal items produce byte-identical
/// labels.
pub proof fn lemma_label_for_completion_deterministic(
    c: Completion,
    r1: Option<CodeLabel>,
    r2: Option<CodeLabel>,
)
    requires
        completion_label_correct(c, r1),
        completion_label_correct(c, r2),
    ensures
        match (r1, r2) {
            (None, None) => true,
            (Some(l1), Some(l2)) => l1@ == l2@,
            _ => false,
        },
{
    match (r1, r2) {
        (Some(l1), Some(l2)) => {
            assert(l1.spans@[0]@ == l2.spans@[0]@);
            assert(l1.spans@.map_values(|s: CodeLabelSpan| s@) =~= l2.spans@.map_values(
                |s: CodeLabelSpan| s@,
            ));
        },
        _ => {},
    }
}

/// Symbol label formatting is a pure function of its input: any two results
/// that the contract of `label_for_symbol` admits for the same item are
/// identical, so repeated calls on equal items produce byte-identical labels.
pub proof fn lemma_label_for_symbol_deterministic(
    s: Symbol,
    r1: Option<CodeLabel>,
    r2: Option<CodeLabel>,
)
    requires
        symbol_label_correct(s, r1),
        symbol_label_correct(s, r2),
    ensures
        r1 matches Some(l1) && r2 matches Some(l2) && l1@ == l2@,
{
    let l1 = r1->Some_0;
    let l2 = r2->Some_0;
    assert(l1.spans@[0]@ == l2.spans@[0]@);
    assert(l1.spans@.map_values(|sp: CodeLabelSpan| sp@) =~= l2.spans@.map_values(
        |sp: CodeLabelSpan| sp@,
    ));
}

} // verus!
