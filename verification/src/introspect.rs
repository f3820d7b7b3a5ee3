//! Structural views of one source file: its syntax tree, its outline and its
//! highlighted markup.
//!
//! The tree is built from the text alone. The outline and the markup are
//! asked of an analysis that already holds the file; building one, for a
//! file that belongs to no workspace, is the caller's step. Malformed text
//! is not a failure: the parser recovers and records what it could not read
//! inside the tree.

use ra_ap_ide::{Analysis, FileStructureConfig};
use ra_ap_syntax::{AstNode, Edition, SourceFile};
use salsa::Cancelled;
use vstd::prelude::*;
use vstd::string::StringExecFns;
use vstd::utf8::encode_utf8;

use crate::error::{BatchError, ErrorKind};
use crate::interrupt::{
    interrupted, interruption_of, interruption_text, is_interrupted, Interruption,
};
use crate::metrics::{decimal, push_decimal};
use crate::render::{debug_quote, debug_quoted, name_text, optional_view, push_name};
use crate::vfs::MAX_FILE_ID;

verus! {

/// A parsed source file, opaque to the verifier.
#[verifier::external_type_specification]
#[verifier::external_body]
pub struct ExSourceFile(SourceFile);

/// A snapshot of a project database, opaque to the verifier.
#[verifier::external_type_specification]
#[verifier::external_body]
pub struct ExAnalysis(Analysis);

/// The indented listing of a tree, one node or token per line, as the
/// tree's alternate `Debug` form prints it.
pub uninterp spec fn tree_dump(tree: SourceFile) -> Seq<char>;

/// The listing of the tree that `text` parses to under the current edition.
pub uninterp spec fn syntax_dump(text: Seq<char>) -> Seq<char>;

/// The outline of `text`: its named items in source order, with or without
/// local bindings.
pub uninterp spec fn structure_of(text: Seq<char>, exclude_locals: bool) -> Seq<SymbolView>;

/// The files that the snapshot holds, each with its text.
pub uninterp spec fn analysis_texts(analysis: Analysis) -> Map<u32, Seq<char>>;

/// For each file of the snapshot, the markup document that highlights it,
/// without and with the rainbow colours.
pub uninterp spec fn analysis_markup(analysis: Analysis) -> Map<(u32, bool), Seq<char>>;

/// The longest text, in bytes of UTF-8, that the syntax tree can index.
pub const MAX_TEXT_LEN: usize = 0xffff_ffff;

/// Whether `text` is short enough for a syntax tree.
pub open spec fn fits(text: Seq<char>) -> bool {
    encode_utf8(text).len() <= MAX_TEXT_LEN
}

/// Whether `analysis` holds `file`, with a text short enough for a tree.
pub open spec fn holds(analysis: Analysis, file: u32) -> bool {
    &&& file <= MAX_FILE_ID
    &&& analysis_texts(analysis).dom().contains(file)
    &&& fits(analysis_texts(analysis)[file])
}

/// A range of the text, in bytes from its start.
#[derive(Clone, Copy, Debug, PartialEq, Eq, Structural)]
pub struct TextSpan {
    pub start: u32,
    pub end: u32,
}

/// A named item of the outline.
#[derive(Debug)]
pub struct Symbol {
    /// The position in the outline of the item that encloses this one.
    pub parent: Option<usize>,
    /// The item's name.
    pub label: String,
    /// Where the name stands.
    pub navigation_range: TextSpan,
    /// Where the whole item stands.
    pub node_range: TextSpan,
    /// What sort of item it is.
    pub kind: String,
    /// More about the item, such as a signature or a type.
    pub detail: Option<String>,
    /// Whether the item is marked as deprecated.
    pub deprecated: bool,
}

/// A `Symbol` with its strings by their characters.
pub struct SymbolView {
    pub parent: Option<usize>,
    pub label: Seq<char>,
    pub navigation_range: TextSpan,
    pub node_range: TextSpan,
    pub kind: Seq<char>,
    pub detail: Option<Seq<char>>,
    pub deprecated: bool,
}

impl View for Symbol {
    type V = SymbolView;

    open spec fn view(&self) -> SymbolView {
        SymbolView {
            parent: self.parent,
            label: self.label@,
            navigation_range: self.navigation_range,
            node_range: self.node_range,
            kind: self.kind@,
            detail: optional_view(self.detail),
            deprecated: self.deprecated,
        }
    }
}

/// The items of `symbols`, each by its view.
pub open spec fn views(symbols: Seq<Symbol>) -> Seq<SymbolView> {
    symbols.map_values(|symbol: Symbol| symbol@)
}

/// Whether every item that has a parent comes after it.
pub open spec fn nested(symbols: Seq<SymbolView>) -> bool {
    forall|i: int|
        0 <= i < symbols.len() && (#[trigger] symbols[i]).parent is Some ==> symbols[i].parent.unwrap()
            < i
}

/// Whether `span` is a range of a text that takes `len` bytes in UTF-8.
pub open spec fn span_within(span: TextSpan, len: nat) -> bool {
    span.start <= span.end <= len
}

/// Whether both ranges of every item lie in a text of `len` bytes.
pub open spec fn within(symbols: Seq<SymbolView>, len: nat) -> bool {
    forall|i: int|
        0 <= i < symbols.len() ==> span_within((#[trigger] symbols[i]).node_range, len)
            && span_within(symbols[i].navigation_range, len)
}

/// Whether `symbols` is the outline of `text`, local bindings left out or
/// not: the named outline, with each parent before its child and each range
/// inside the text.
pub open spec fn outlines(symbols: Seq<Symbol>, text: Seq<char>, exclude_locals: bool) -> bool {
    &&& views(symbols) == structure_of(text, exclude_locals)
    &&& nested(views(symbols))
    &&& within(views(symbols), encode_utf8(text).len())
}

/// Calls `SourceFile::parse` for the current edition and takes the tree. The
/// parser never refuses a text; the claim is only that the tree's listing is
/// the one named for the text. Offsets in the tree are 32-bit and the tree
/// panics on a longer text, hence the `requires`.
#[verifier::external_body]
fn parse_source(text: &str) -> (tree: SourceFile)
    requires
        fits(text@),
    ensures
        tree_dump(tree) == syntax_dump(text@),
{
    SourceFile::parse(text, Edition::CURRENT).tree()
}

/// Formats the tree's root with `{:#?}`, the `Debug` of `SyntaxNode` in its
/// alternate form; the result is only named.
#[verifier::external_body]
fn dump_tree(tree: &SourceFile) -> (out: String)
    ensures
        out@ == tree_dump(*tree),
{
    format!("{:#?}", tree.syntax())
}

/// Calls `Analysis::file_structure`, which parses the file under the current
/// edition and walks the tree. The walk pushes an item after the item that
/// encloses it, so a parent's position is smaller than its child's; each
/// range is that of a node or token of the tree, so it lies within the text.
/// The method panics for a file that the snapshot does not hold, the tree
/// for a text beyond 32-bit offsets, and `FileId::from_raw` for a number
/// above `MAX_FILE_ID`, hence the `requires`. Nothing is promised about
/// whether the outline or the database's account of a cancellation comes
/// back.
#[verifier::external_body]
fn file_structure(analysis: &Analysis, file: u32, exclude_locals: bool) -> (out: Result<Vec<Symbol>, Cancelled>)
    requires
        holds(*analysis, file),
    ensures
        out is Ok ==> views(out->Ok_0@) == structure_of(
            analysis_texts(*analysis)[file],
            exclude_locals,
        ),
        out is Ok ==> nested(views(out->Ok_0@)),
        out is Ok ==> within(
            views(out->Ok_0@),
            encode_utf8(analysis_texts(*analysis)[file]).len(),
        ),
{
    let config = FileStructureConfig { exclude_locals };
    let nodes = analysis.file_structure(&config, ra_ap_vfs::FileId::from_raw(file))?;
    Ok(nodes.into_iter().map(|node| Symbol {
        parent: node.parent,
        label: node.label,
        navigation_range: TextSpan { start: node.navigation_range.start().into(), end: node.navigation_range.end().into() },
        node_range: TextSpan { start: node.node_range.start().into(), end: node.node_range.end().into() },
        kind: format!("{:?}", node.kind),
        detail: node.detail,
        deprecated: node.deprecated,
    }).collect())
}

/// Calls `Analysis::highlight_as_html`; the document is only named, as what
/// the snapshot holds for the file and the switch. The `requires` is that of
/// `file_structure`, and as little is promised about a cancellation.
#[verifier::external_body]
fn highlight_as_html(analysis: &Analysis, file: u32, rainbow: bool) -> (out: Result<String, Cancelled>)
    requires
        holds(*analysis, file),
    ensures
        out is Ok ==> out->Ok_0@ == analysis_markup(*analysis)[(file, rainbow)],
{
    analysis.highlight_as_html(ra_ap_vfs::FileId::from_raw(file), rainbow)
}

/// Parses `text` and gives the listing of its tree, unless `no_dump` asks
/// for the parse alone. The text is parsed either way, and no text fails.
pub fn parse(text: &str, no_dump: bool) -> (out: Option<String>)
    requires
        fits(text@),
    ensures
        no_dump ==> out is None,
        !no_dump ==> out is Some && out.unwrap()@ == syntax_dump(text@),
{
    let tree = parse_source(text);
    if no_dump {
        None
    } else {
        Some(dump_tree(&tree))
    }
}

/// What `outline_answer` makes of the snapshot's answer.
pub open spec fn outline_answered(
    answer: Result<Vec<Symbol>, Interruption>,
    out: Result<Vec<Symbol>, BatchError>,
) -> bool {
    match answer {
        Ok(symbols) => out is Ok && out->Ok_0@ == symbols@,
        Err(why) => out is Err && out->Err_0.kind == ErrorKind::Cancelled
            && out->Err_0.detail@ == interruption_text(why),
    }
}

/// Turns the snapshot's answer to a query for an outline into the query's
/// result: the outline as it came, or a `Cancelled` failure that names the
/// reason.
pub fn outline_answer(answer: Result<Vec<Symbol>, Interruption>) -> (out: Result<Vec<Symbol>, BatchError>)
    ensures
        outline_answered(answer, out),
{
    match answer {
        Ok(symbols) => Ok(symbols),
        Err(why) => Err(interrupted(why)),
    }
}

/// The outline of `file`: its named items in source order, local bindings
/// left out. Each item that has a parent comes after it, and each range lies
/// within the file's text. The one failure is a query that the database
/// abandoned.
pub fn symbols(analysis: &Analysis, file: u32) -> (out: Result<Vec<Symbol>, BatchError>)
    requires
        holds(*analysis, file),
    ensures
        out is Ok ==> outlines(out->Ok_0@, analysis_texts(*analysis)[file], true),
        out is Err ==> is_interrupted(out->Err_0),
{
    match file_structure(analysis, file, true) {
        Ok(found) => outline_answer(Ok(found)),
        Err(cancelled) => {
            let why = interruption_of(cancelled);
            let out = outline_answer(Err(why));
            assert(out->Err_0.detail@ == interruption_text(why));
            out
        },
    }
}

/// How deep the item at `at` is nested: none for an item without a parent,
/// one more than its parent otherwise.
pub open spec fn depth_of(symbols: Seq<SymbolView>, at: int) -> nat
    decreases at,
{
    if 0 <= at < symbols.len() && symbols[at].parent is Some && symbols[at].parent.unwrap() < at {
        depth_of(symbols, symbols[at].parent.unwrap() as int) + 1
    } else {
        0
    }
}

/// How deep the item at `at` is nested.
pub fn nesting_depth(symbols: &Vec<Symbol>, at: usize) -> (out: usize)
    requires
        at < symbols@.len(),
        nested(views(symbols@)),
    ensures
        out == depth_of(views(symbols@), at as int),
        out <= at,
{
    let mut depth: usize = 0;
    let mut here: usize = at;
    proof {
        assert(views(symbols@).len() == symbols@.len());
    }
    loop
        invariant
            here < symbols@.len(),
            here <= at,
            nested(views(symbols@)),
            depth + here <= at,
            depth_of(views(symbols@), at as int) == depth + depth_of(views(symbols@), here as int),
        decreases here,
    {
        proof {
            assert(views(symbols@)[here as int] == symbols@[here as int]@);
        }
        match symbols[here].parent {
            Some(parent) => {
                depth += 1;
                here = parent;
            },
            None => {
                return depth;
            },
        }
    }
}

/// The printed form of a range: its two ends with two dots between.
pub open spec fn span_text(span: TextSpan) -> Seq<char> {
    decimal(span.start as nat) + ".."@ + decimal(span.end as nat)
}

/// The printed form of an optional position: `None`, or `Some(..)` round
/// the number.
pub open spec fn position_text(position: Option<usize>) -> Seq<char> {
    match position {
        Some(at) => "Some("@ + decimal(at as nat) + ")"@,
        None => "None"@,
    }
}

/// The printed form of a switch.
pub open spec fn switch_text(on: bool) -> Seq<char> {
    if on {
        "true"@
    } else {
        "false"@
    }
}

/// The line printed for an item of the outline: its fields by name, in
/// braces, after the word `StructureNode`.
pub open spec fn symbol_text(symbol: SymbolView) -> Seq<char> {
    "StructureNode { parent: "@ + position_text(symbol.parent) + ", label: "@ + debug_quoted(
        symbol.label,
    ) + ", navigation_range: "@ + span_text(symbol.navigation_range) + ", node_range: "@
        + span_text(symbol.node_range) + ", kind: "@ + symbol.kind + ", detail: "@ + name_text(
        symbol.detail,
    ) + ", deprecated: "@ + switch_text(symbol.deprecated) + " }"@
}

fn push_span(line: &mut String, span: TextSpan)
    ensures
        final(line)@ == old(line)@ + span_text(span),
{
    push_decimal(line, span.start as u64);
    line.append("..");
    push_decimal(line, span.end as u64);
    assert(line@ =~= old(line)@ + span_text(span));
}

fn push_position(line: &mut String, position: Option<usize>)
    ensures
        final(line)@ == old(line)@ + position_text(position),
{
    match position {
        Some(at) => {
            line.append("Some(");
            push_decimal(line, at as u64);
            line.append(")");
            assert(line@ =~= old(line)@ + position_text(position));
        },
        None => {
            line.append("None");
        },
    }
}

/// The line printed for `symbol`.
pub fn symbol_line(symbol: &Symbol) -> (out: String)
    ensures
        out@ == symbol_text(symbol@),
{
    let mut line = String::from_str("StructureNode { parent: ");
    push_position(&mut line, symbol.parent);
    line.append(", label: ");
    line.append(debug_quote(symbol.label.as_str()).as_str());
    line.append(", navigation_range: ");
    push_span(&mut line, symbol.navigation_range);
    line.append(", node_range: ");
    push_span(&mut line, symbol.node_range);
    line.append(", kind: ");
    line.append(symbol.kind.as_str());
    line.append(", detail: ");
    push_name(&mut line, &symbol.detail);
    line.append(", deprecated: ");
    line.append(if symbol.deprecated { "true" } else { "false" });
    line.append(" }");
    assert(line@ =~= symbol_text(symbol@));
    line
}

/// What `markup_answer` makes of the snapshot's answer.
pub open spec fn markup_answered(
    answer: Result<String, Interruption>,
    out: Result<String, BatchError>,
) -> bool {
    match answer {
        Ok(html) => out is Ok && out->Ok_0@ == html@,
        Err(why) => out is Err && out->Err_0.kind == ErrorKind::Cancelled
            && out->Err_0.detail@ == interruption_text(why),
    }
}

/// Turns the snapshot's answer to a query for markup into the query's
/// result: the document as it came, or a `Cancelled` failure that names the
/// reason.
pub fn markup_answer(answer: Result<String, Interruption>) -> (out: Result<String, BatchError>)
    ensures
        markup_answered(answer, out),
{
    match answer {
        Ok(html) => Ok(html),
        Err(why) => Err(interrupted(why)),
    }
}

/// The markup document that highlights `file`. With `rainbow`, each local
/// binding also gets a colour of its own. The one failure is a query that
/// the database abandoned.
pub fn highlight(analysis: &Analysis, file: u32, rainbow: bool) -> (out: Result<String, BatchError>)
    requires
        holds(*analysis, file),
    ensures
        out is Ok ==> out->Ok_0@ == analysis_markup(*analysis)[(file, rainbow)],
        out is Err ==> is_interrupted(out->Err_0),
{
    match highlight_as_html(analysis, file, rainbow) {
        Ok(html) => markup_answer(Ok(html)),
        Err(cancelled) => {
            let why = interruption_of(cancelled);
            let out = markup_answer(Err(why));
            assert(out->Err_0.detail@ == interruption_text(why));
            out
        },
    }
}

} // verus!
