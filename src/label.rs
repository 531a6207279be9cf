use vstd::prelude::*;
use vstd::utf8::encode_utf8;

verus! {

/// The UTF-8 byte of `(`.
pub const OPEN_PAREN: u8 = 0x28;

/// The kind of a completion item, as the language server reports it.
#[derive(Clone, Copy, Debug, PartialEq, Eq, Structural)]
pub enum CompletionKind {
    Text,
    Method,
    Function,
    Constructor,
    Field,
    Variable,
    Class,
    Interface,
    Module,
    Property,
    Unit,
    Value,
    Enum,
    Keyword,
    Snippet,
    Color,
    File,
    Reference,
    Folder,
    EnumMember,
    Constant,
    Struct,
    Event,
    Operator,
    TypeParameter,
    Other(i32),
}

/// The kind of a workspace symbol, as the language server reports it.
#[derive(Clone, Copy, Debug, PartialEq, Eq, Structural)]
pub enum SymbolKind {
    File,
    Module,
    Namespace,
    Package,
    Class,
    Method,
    Property,
    Field,
    Constructor,
    Enum,
    Interface,
    Function,
    Variable,
    Constant,
    String,
    Number,
    Boolean,
    Array,
    Object,
    Key,
    Null,
    EnumMember,
    Struct,
    Event,
    Operator,
    TypeParameter,
    Other(i32),
}

/// A piece of a displayed label: a byte range of the label's code, or literal
/// text with an optional highlight name.
pub enum Span {
    CodeRange { start: usize, end: usize },
    Literal { text: String, highlight: Option<String> },
}

/// A label for display: its spans, the byte range that filtering matches
/// against, and the code that code ranges refer to.
pub struct CodeLabel {
    pub spans: Vec<Span>,
    pub filter_start: usize,
    pub filter_end: usize,
    pub code: String,
}

pub enum SpanModel {
    CodeRange(int, int),
    Literal(Seq<char>, Option<Seq<char>>),
}

pub struct LabelModel {
    pub spans: Seq<SpanModel>,
    pub filter: (int, int),
    pub code: Seq<char>,
}

impl View for Span {
    type V = SpanModel;

    open spec fn view(&self) -> SpanModel {
        match self {
            Span::CodeRange { start, end } => SpanModel::CodeRange(*start as int, *end as int),
            Span::Literal { text, highlight } => SpanModel::Literal(
                text@,
                match highlight {
                    Some(h) => Some(h@),
                    None => None,
                },
            ),
        }
    }
}

impl View for CodeLabel {
    type V = LabelModel;

    open spec fn view(&self) -> LabelModel {
        LabelModel {
            spans: self.spans@.map_values(|s: Span| s@),
            filter: (self.filter_start as int, self.filter_end as int),
            code: self.code@,
        }
    }
}

pub open spec fn label_view(l: Option<CodeLabel>) -> Option<LabelModel> {
    match l {
        Some(l) => Some(l@),
        None => None,
    }
}

/// The length of `s` in UTF-8 bytes, the unit of label ranges.
pub open spec fn byte_len(s: Seq<char>) -> int {
    encode_utf8(s).len() as int
}

/// The first position at or after `i` where `needle` occurs in `hay`.
pub open spec fn first_match_from(hay: Seq<u8>, needle: Seq<u8>, i: int) -> Option<int>
    decreases hay.len() + 1 - i,
{
    if i < 0 || i + needle.len() > hay.len() {
        None
    } else if hay.subrange(i, i + needle.len()) == needle {
        Some(i)
    } else {
        first_match_from(hay, needle, i + 1)
    }
}

/// The byte offset of the first `(` in `s`, or its byte length if it has none.
pub open spec fn name_end(s: Seq<char>) -> int {
    match first_match_from(encode_utf8(s), seq![OPEN_PAREN], 0) {
        Some(i) => i,
        None => byte_len(s),
    }
}

/// A label that shows `name` as literal text highlighted as `highlight`.
pub open spec fn literal_label(name: Seq<char>, highlight: Seq<char>) -> LabelModel {
    LabelModel {
        spans: seq![SpanModel::Literal(name, Some(highlight))],
        filter: (0, byte_len(name)),
        code: Seq::empty(),
    }
}

/// The label of a completion item called `name`.
pub open spec fn completion_label(name: Seq<char>, kind: Option<CompletionKind>) -> Option<
    LabelModel,
> {
    match kind {
        Some(CompletionKind::Method) | Some(CompletionKind::Function) => Some(
            LabelModel {
                spans: seq![SpanModel::CodeRange(0, byte_len(name))],
                filter: (0, name_end(name)),
                code: name,
            },
        ),
        Some(CompletionKind::Field) | Some(CompletionKind::Property) => Some(
            literal_label(name, "property"@),
        ),
        Some(CompletionKind::Variable) => Some(literal_label(name, "variable"@)),
        Some(CompletionKind::Class) => Some(literal_label(name, "type"@)),
        Some(CompletionKind::Module) => Some(literal_label(name, "module"@)),
        Some(CompletionKind::Keyword) => Some(literal_label(name, "keyword"@)),
        _ => None,
    }
}

/// Whether `needle` occurs in `hay` at byte `i`.
fn bytes_match_at(hay: &[u8], needle: &[u8], i: usize) -> (r: bool)
    requires
        i + needle@.len() <= hay@.len(),
    ensures
        r == (hay@.subrange(i as int, i + needle@.len()) == needle@),
{
    let hay_len = hay.len();
    let mut k: usize = 0;
    while k < needle.len()
        invariant
            0 <= k <= needle@.len(),
            hay@.len() == hay_len,
            i + needle@.len() <= hay@.len(),
            forall|j: int| 0 <= j < k ==> hay@[i + j] == needle@[j],
        decreases needle.len() - k,
    {
        if hay[i + k] != needle[k] {
            assert(hay@.subrange(i as int, i + needle@.len())[k as int] != needle@[k as int]);
            return false;
        }
        k = k + 1;
    }
    assert(hay@.subrange(i as int, i + needle@.len()) =~= needle@);
    true
}

/// The first byte offset at which `needle` occurs in `hay`.
pub fn find_bytes(hay: &[u8], needle: &[u8]) -> (r: Option<usize>)
    ensures
        match r {
            Some(i) => first_match_from(hay@, needle@, 0) == Some(i as int),
            None => first_match_from(hay@, needle@, 0) is None,
        },
{
    if needle.len() > hay.len() {
        return None;
    }
    let last = hay.len() - needle.len();
    let mut i: usize = 0;
    while i <= last
        invariant
            last + needle@.len() == hay@.len(),
            0 <= i <= last + 1,
            first_match_from(hay@, needle@, 0) == first_match_from(hay@, needle@, i as int),
        decreases last + 1 - i,
    {
        if bytes_match_at(hay, needle, i) {
            return Some(i);
        }
        if i == last {
            return None;
        }
        i = i + 1;
    }
    None
}

fn literal_label_of(name: &String, highlight: &str) -> (r: CodeLabel)
    ensures
        r@ == literal_label(name@, highlight@),
{
    let mut spans: Vec<Span> = Vec::new();
    spans.push(
        Span::Literal { text: name.clone(), highlight: Some(String::from_str(highlight)) },
    );
    let r = CodeLabel {
        spans,
        filter_start: 0,
        filter_end: name.as_str().as_bytes().len(),
        code: String::new(),
    };
    assert(r@.spans =~= literal_label(name@, highlight@).spans);
    r
}

/// The label shown for a completion item called `name` of kind `kind`.
///
/// Methods and functions show the name as code and filter on it up to its
/// first `(`; fields, properties, variables, classes, modules and keywords show
/// it as highlighted text; other kinds get no label.
pub fn label_for_completion(name: &String, kind: Option<CompletionKind>) -> (r: Option<
    CodeLabel,
>)
    ensures
        label_view(r) == completion_label(name@, kind),
{
    let k = match kind {
        Some(k) => k,
        None => {
            return None;
        },
    };
    match k {
        CompletionKind::Method | CompletionKind::Function => {
            let bytes = name.as_str().as_bytes();
            let paren: Vec<u8> = vec![OPEN_PAREN];
            let end = match find_bytes(bytes, paren.as_slice()) {
                Some(i) => i,
                None => bytes.len(),
            };
            assert(paren@ =~= seq![OPEN_PAREN]);
            let mut spans: Vec<Span> = Vec::new();
            spans.push(Span::CodeRange { start: 0, end: bytes.len() });
            let r = CodeLabel { spans, filter_start: 0, filter_end: end, code: name.clone() };
            assert(r@.spans =~= seq![SpanModel::CodeRange(0, byte_len(name@))]);
            Some(r)
        },
        CompletionKind::Field | CompletionKind::Property => Some(
            literal_label_of(name, "property"),
        ),
        CompletionKind::Variable => Some(literal_label_of(name, "variable")),
        CompletionKind::Class => Some(literal_label_of(name, "type")),
        CompletionKind::Module => Some(literal_label_of(name, "module")),
        CompletionKind::Keyword => Some(literal_label_of(name, "keyword")),
        _ => None,
    }
}

proof fn lemma_first_match_in_bounds(hay: Seq<u8>, needle: Seq<u8>, j: int)
    ensures
        match first_match_from(hay, needle, j) {
            Some(i) => j <= i && i + needle.len() <= hay.len(),
            None => true,
        },
    decreases hay.len() + 1 - j,
{
    if j < 0 || j + needle.len() > hay.len() {
    } else if hay.subrange(j, j + needle.len()) == needle {
    } else {
        lemma_first_match_in_bounds(hay, needle, j + 1);
    }
}

/// The code shown for a function symbol called `name`.
pub open spec fn symbol_code(name: Seq<char>) -> Seq<char> {
    "function "@ + name + "()"@
}

/// The label of a workspace symbol called `name`.
pub open spec fn symbol_label(name: Seq<char>, kind: SymbolKind) -> Option<LabelModel> {
    match kind {
        SymbolKind::Method | SymbolKind::Function => match first_match_from(
            encode_utf8(symbol_code(name)),
            encode_utf8(name),
            0,
        ) {
            Some(start) => Some(
                LabelModel {
                    spans: seq![SpanModel::CodeRange(start, start + byte_len(name))],
                    filter: (0, byte_len(name)),
                    code: symbol_code(name),
                },
            ),
            None => None,
        },
        SymbolKind::Class | SymbolKind::Module => Some(
            LabelModel {
                spans: seq![SpanModel::Literal(name, Some("type"@))],
                filter: (0, byte_len(name)),
                code: name,
            },
        ),
        SymbolKind::Variable | SymbolKind::Constant => Some(
            LabelModel {
                spans: seq![SpanModel::Literal(name, Some("variable"@))],
                filter: (0, byte_len(name)),
                code: name,
            },
        ),
        _ => Some(
            LabelModel {
                spans: seq![SpanModel::CodeRange(0, byte_len(name))],
                filter: (0, byte_len(name)),
                code: name,
            },
        ),
    }
}

/// The label shown for a workspace symbol called `name` of kind `kind`.
///
/// Methods and functions are shown as `function name()` with the name as the
/// highlighted range; classes and modules as type text; variables and
/// constants as variable text; everything else as plain code.
pub fn label_for_symbol(name: &String, kind: SymbolKind) -> (r: Option<CodeLabel>)
    ensures
        label_view(r) == symbol_label(name@, kind),
{
    let name_bytes = name.as_str().as_bytes();
    let name_len = name_bytes.len();
    match kind {
        SymbolKind::Method | SymbolKind::Function => {
            let mut code = String::from_str("function ");
            code.append(name.as_str());
            code.append("()");
            let code_bytes = code.as_str().as_bytes();
            let code_len = code_bytes.len();
            let start = match find_bytes(code_bytes, name_bytes) {
                Some(i) => i,
                None => {
                    return None;
                },
            };
            proof {
                lemma_first_match_in_bounds(code_bytes@, name_bytes@, 0);
                assert(start + name_len <= code_len);
            }
            let end = start + name_len;
            let mut spans: Vec<Span> = Vec::new();
            spans.push(Span::CodeRange { start, end });
            let r = CodeLabel { spans, filter_start: 0, filter_end: name_len, code };
            assert(r@.spans =~= seq![SpanModel::CodeRange(start as int, start + byte_len(name@))]);
            Some(r)
        },
        SymbolKind::Class | SymbolKind::Module => {
            let mut spans: Vec<Span> = Vec::new();
            spans.push(
                Span::Literal { text: name.clone(), highlight: Some(String::from_str("type")) },
            );
            let r = CodeLabel { spans, filter_start: 0, filter_end: name_len, code: name.clone() };
            assert(r@.spans =~= seq![SpanModel::Literal(name@, Some("type"@))]);
            Some(r)
        },
        SymbolKind::Variable | SymbolKind::Constant => {
            let mut spans: Vec<Span> = Vec::new();
            spans.push(
                Span::Literal {
                    text: name.clone(),
                    highlight: Some(String::from_str("variable")),
                },
            );
            let r = CodeLabel { spans, filter_start: 0, filter_end: name_len, code: name.clone() };
            assert(r@.spans =~= seq![SpanModel::Literal(name@, Some("variable"@))]);
            Some(r)
        },
        _ => {
            let mut spans: Vec<Span> = Vec::new();
            spans.push(Span::CodeRange { start: 0, end: name_len });
            let r = CodeLabel { spans, filter_start: 0, filter_end: name_len, code: name.clone() };
            assert(r@.spans =~= seq![SpanModel::CodeRange(0, byte_len(name@))]);
            Some(r)
        },
    }
}

} // verus!
