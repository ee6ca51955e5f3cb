//! Abstract syntax tree of a reStructuredText document.
//!
//! These are the node types that a parser of the token stream builds; the
//! tokeniser itself does not produce them.
use vstd::prelude::*;

use url::Url;

verus! {

/// The URL type of the `url` crate, carried as an opaque value.
#[verifier::external_type_specification]
#[verifier::external_body]
pub struct ExUrl(Url);

/// A document: the root of the tree.
#[allow(dead_code)]
pub struct Document(Body);

/// A section: a title, identified by its adornment, and what the section holds.
#[allow(dead_code)]
pub struct Section {
    title: String,
    children: Vec<SectionChildren>,
}

/// Children of a section.
#[allow(dead_code)]
enum SectionChildren {
    Body(BodyBlock),
    Transition,
    Section(Section),
}

/// A block that can be embedded within the body of another element.
pub enum BodyBlock {
    Paragraph(Paragraph),
    List(List),
    DefinitionList(DefinitionList),
    FieldList(FieldList),
    OptionList(OptionList),
    LiteralBlock(LiteralBlock),
    LineBlock(LineBlock),
    BlockQuote(BlockQuote),
    DocTest(DocTest),
    Table(Table),
    Footnote(Footnote),
    Citation(Citation),
    Target(Target),
    Directive(Directive),
    Substitution(Substitution),
    Comment(Comment),
}

/// A sequence of body blocks.
#[allow(dead_code)]
pub struct Body(Vec<BodyBlock>);

/// A paragraph: left-aligned text with no markup for any other body element.
#[allow(dead_code)]
pub struct Paragraph(Text);

/// A bulleted or enumerated list.
#[allow(dead_code)]
pub struct List {
    marker: ListMarker,
    elements: Vec<Body>,
}

/// The kind of marker that identifies the elements of a list; for enumerated lists,
/// the starting index too.
#[allow(dead_code)]
enum ListMarker {
    Bullet,
    Arabic(u64),
    LatinUppercase(u64),
    LatinLowercase(u64),
    RomanUppercase(u64),
    RomanLowercase(u64),
}

/// A definition list.
#[allow(dead_code)]
pub struct DefinitionList(Vec<Definition>);

/// A term, its optional classifiers and its definition.
#[allow(dead_code)]
pub struct Definition {
    term: Text,
    classifiers: Vec<Text>,
    definition: Body,
}

/// A field list: field names mapped to field bodies.
#[allow(dead_code)]
pub struct FieldList(Vec<Field>);

/// An element of a field list.
#[allow(dead_code)]
pub struct Field {
    marker: Text,
    body: Body,
}

/// An option list: command-line options and their descriptions.
#[allow(dead_code)]
pub struct OptionList(Vec<OptionItem>);

/// The options of an option list item, each with its argument, and the description.
#[allow(dead_code)]
pub struct OptionItem {
    options: Vec<(String, Option<String>)>,
    description: Text,
}

/// A literal block, taken as it stands.
#[allow(dead_code)]
pub struct LiteralBlock(String);

/// A line block, in which the structure of lines is significant.
#[allow(dead_code)]
pub struct LineBlock(Vec<Line>);

/// A line within a line block, with the lines nested below it.
#[allow(dead_code)]
pub struct Line {
    content: Text,
    children: Vec<Line>,
}

/// A block quote, with its optional attribution.
#[allow(dead_code)]
pub struct BlockQuote {
    quote: Body,
    attribution: Option<Text>,
}

/// A doctest block: an interactive session pasted into the document.
#[allow(dead_code)]
pub struct DocTest(String);

/// A grid or simple table.
#[allow(dead_code)]
pub struct Table {
    header: Vec<Row>,
    body: Vec<Row>,
}

/// A row of a table.
#[allow(dead_code)]
pub struct Row(Vec<Cell>);

/// A cell of a table, with the columns and rows that it spans.
#[allow(dead_code)]
pub struct Cell {
    column_span: u64,
    row_span: u64,
    content: Text,
}

/// A footnote: its identifier and its body.
#[allow(dead_code)]
pub struct Footnote {
    identifier: FootnoteIdentifier,
    body: Body,
}

/// How a footnote is identified.
pub enum FootnoteIdentifier {
    AutoNumbered,
    Numbered(u64),
    Labelled(String),
}

/// A citation: a footnote with a textual label.
#[allow(dead_code)]
pub struct Citation {
    name: String,
    body: Body,
}

/// A hyperlink target.
pub struct Target;

/// What a hyperlink target refers to.
pub enum HyperlinkContent {
    Empty,
    URI(Url),
    Email(String),
    Reference(String),
}

/// A directive: its type, its fields and its content.
#[allow(dead_code)]
pub struct Directive {
    marker: String,
    fields: FieldList,
    content: DirectiveContent,
}

/// The content of a directive, as it stands or parsed into the tree.
pub enum DirectiveContent {
    Literal(String),
    Parsed(Body),
}

/// A substitution definition.
#[allow(dead_code)]
pub struct Substitution {
    text: String,
    directive: Directive,
}

/// A comment.
#[allow(dead_code)]
pub struct Comment(String);

/// An inline item.
pub enum Inline {
    Emphasis(Emphasis),
    Strong(Strong),
    Interpreted(Interpreted),
    Literal(Literal),
    HyperlinkReference(HyperlinkReference),
    Target(InlineInternalTarget),
    StandaloneHyperlink(StandaloneHyperlink),
    Word(String),
    Character(char),
    Whitespace,
}

/// A sequence of inline items.
#[allow(dead_code)]
pub struct Text(Vec<Inline>);

/// Text emphasis.
pub struct Emphasis;

/// Strong text emphasis.
pub struct Strong;

/// Interpreted text.
pub struct Interpreted;

/// An inline literal.
pub struct Literal;

/// A hyperlink reference.
pub struct HyperlinkReference;

/// An inline internal target.
pub struct InlineInternalTarget;

/// A footnote reference.
pub struct FootnoteReference;

/// A substitution reference.
pub struct SubstitutionReference;

/// A standalone hyperlink.
pub struct StandaloneHyperlink;

} // verus!
