//! The readonly PHP model of a parsed document. Objects are built lazily:
//! each one keeps anydoc's values for its children and turns them into
//! objects only when they are read.
use vstd::prelude::*;
use vstd::string::*;

use crate::exception::{plain_exception, ExceptionClass, Throwable};
use crate::source;

verus! {

/// `Anydoc\Heading`.
#[derive(Debug)]
pub struct Heading {
    pub level: i64,
    pub anchor: Option<String>,
    pub content: Vec<source::Inline>,
}

/// `Anydoc\Paragraph`.
#[derive(Debug)]
pub struct Paragraph {
    pub content: Vec<source::Inline>,
}

/// `Anydoc\BlockList`: a block holding a list.
#[derive(Debug)]
pub struct BlockList {
    pub list: source::List,
}

/// `Anydoc\BlockTable`: a block holding a table.
#[derive(Debug)]
pub struct BlockTable {
    pub table: source::Table,
}

/// `Anydoc\BlockQuote`.
#[derive(Debug)]
pub struct BlockQuote {
    pub blocks: Vec<source::Block>,
}

/// `Anydoc\CodeBlock`.
#[derive(Debug, Clone, PartialEq, Eq)]
pub struct CodeBlock {
    pub lang: Option<String>,
    pub text: String,
}

/// `Anydoc\Rule`.
#[derive(Debug, Clone, Copy, PartialEq, Eq)]
pub struct Rule;

/// `Anydoc\MathBlock`: a displayed formula, as LaTeX.
#[derive(Debug, Clone, PartialEq, Eq)]
pub struct MathBlock {
    pub tex: String,
}

/// `Anydoc\Block`: the abstract block class, as the sum of its final
/// subclasses.
#[derive(Debug)]
pub enum Block {
    Heading(Heading),
    Paragraph(Paragraph),
    BlockList(BlockList),
    BlockTable(BlockTable),
    BlockQuote(BlockQuote),
    CodeBlock(CodeBlock),
    Rule(Rule),
    MathBlock(MathBlock),
}

/// The object a block becomes.
pub open spec fn block_spec(value: source::Block) -> Block {
    match value {
        source::Block::Heading { level, anchor, content } => Block::Heading(
            Heading { level: level as i64, anchor, content },
        ),
        source::Block::Paragraph(content) => Block::Paragraph(Paragraph { content }),
        source::Block::List(list) => Block::BlockList(BlockList { list }),
        source::Block::Table(table) => Block::BlockTable(BlockTable { table }),
        source::Block::BlockQuote(blocks) => Block::BlockQuote(BlockQuote { blocks }),
        source::Block::CodeBlock { lang, text } => Block::CodeBlock(CodeBlock { lang, text }),
        source::Block::Rule => Block::Rule(Rule),
        source::Block::Math(tex) => Block::MathBlock(MathBlock { tex }),
    }
}

/// The object for one block.
pub fn block(value: source::Block) -> (r: Block)
    ensures
        r == block_spec(value),
{
    match value {
        source::Block::Heading { level, anchor, content } => Block::Heading(
            Heading { level: level as i64, anchor, content },
        ),
        source::Block::Paragraph(content) => Block::Paragraph(Paragraph { content }),
        source::Block::List(list) => Block::BlockList(BlockList { list }),
        source::Block::Table(table) => Block::BlockTable(BlockTable { table }),
        source::Block::BlockQuote(blocks) => Block::BlockQuote(BlockQuote { blocks }),
        source::Block::CodeBlock { lang, text } => Block::CodeBlock(CodeBlock { lang, text }),
        source::Block::Rule => Block::Rule(Rule),
        source::Block::Math(tex) => Block::MathBlock(MathBlock { tex }),
    }
}

/// The objects for a run of blocks, in order.
pub fn blocks(values: Vec<source::Block>) -> (r: Vec<Block>)
    ensures
        r@ == values@.map_values(|b: source::Block| block_spec(b)),
{
    let ghost all = values@;
    let mut out: Vec<Block> = Vec::new();
    for b in it: values
        invariant
            it.seq() == all,
            out@ == all.take(it.index@ as int).map_values(|b: source::Block| block_spec(b)),
    {
        out.push(block(b));
        assert(all.take(it.index@ + 1) =~= all.take(it.index@ as int).push(b));
    }
    assert(all.take(all.len() as int) =~= all);
    out
}

/// `Anydoc\Style`: a character style.
#[derive(Debug, Clone, Copy, PartialEq, Eq, Default)]
pub struct Style {
    pub bold: bool,
    pub italic: bool,
    pub strike: bool,
    pub code: bool,
}

impl From<source::Style> for Style {
    fn from(style: source::Style) -> (r: Self) {
        Style { bold: style.bold, italic: style.italic, strike: style.strike, code: style.code }
    }
}

impl vstd::std_specs::convert::FromSpecImpl<source::Style> for Style {
    open spec fn obeys_from_spec() -> bool {
        true
    }

    open spec fn from_spec(style: source::Style) -> Self {
        Style { bold: style.bold, italic: style.italic, strike: style.strike, code: style.code }
    }
}

/// `Anydoc\Text`: styled text.
#[derive(Debug, Clone, PartialEq, Eq)]
pub struct TextInline {
    pub text: String,
    pub style: source::Style,
}

/// `Anydoc\Link`: a hyperlink around its own inline content.
#[derive(Debug)]
pub struct LinkInline {
    pub content: Vec<source::Inline>,
    pub target: source::LinkTarget,
}

/// `Anydoc\Image`.
#[derive(Debug, Clone, PartialEq, Eq)]
pub struct ImageInline {
    pub alt: String,
    pub source: source::ImageSource,
}

/// `Anydoc\Anchor`: a zero-width internal link target.
#[derive(Debug, Clone, PartialEq, Eq)]
pub struct AnchorInline {
    pub anchor: String,
}

/// `Anydoc\NoteReference`: a reference to a note by its id.
#[derive(Debug, Clone, PartialEq, Eq)]
pub struct NoteReference {
    pub note_id: String,
}

/// `Anydoc\LineBreak`.
#[derive(Debug, Clone, Copy, PartialEq, Eq)]
pub struct LineBreak;

/// `Anydoc\MathInline`: an inline formula, as LaTeX.
#[derive(Debug, Clone, PartialEq, Eq)]
pub struct MathInline {
    pub tex: String,
}

/// `Anydoc\Checkbox`: a checkbox control with its state.
#[derive(Debug, Clone, Copy, PartialEq, Eq)]
pub struct Checkbox {
    pub checked: bool,
}

/// `Anydoc\Inline`: the abstract inline class, as the sum of its final
/// subclasses.
#[derive(Debug)]
pub enum Inline {
    Text(TextInline),
    Link(LinkInline),
    Image(ImageInline),
    Anchor(AnchorInline),
    NoteReference(NoteReference),
    LineBreak(LineBreak),
    MathInline(MathInline),
    Checkbox(Checkbox),
}

/// The object an inline becomes.
pub open spec fn inline_spec(value: source::Inline) -> Inline {
    match value {
        source::Inline::Text { text, style } => Inline::Text(TextInline { text, style }),
        source::Inline::Link { content, target } => Inline::Link(LinkInline { content, target }),
        source::Inline::Image { alt, source } => Inline::Image(ImageInline { alt, source }),
        source::Inline::Anchor(anchor) => Inline::Anchor(AnchorInline { anchor }),
        source::Inline::NoteRef(note_id) => Inline::NoteReference(NoteReference { note_id }),
        source::Inline::LineBreak => Inline::LineBreak(LineBreak),
        source::Inline::Math(tex) => Inline::MathInline(MathInline { tex }),
        source::Inline::Checkbox(checked) => Inline::Checkbox(Checkbox { checked }),
    }
}

/// The object for one inline.
pub fn inline(value: source::Inline) -> (r: Inline)
    ensures
        r == inline_spec(value),
{
    match value {
        source::Inline::Text { text, style } => Inline::Text(TextInline { text, style }),
        source::Inline::Link { content, target } => Inline::Link(LinkInline { content, target }),
        source::Inline::Image { alt, source } => Inline::Image(ImageInline { alt, source }),
        source::Inline::Anchor(anchor) => Inline::Anchor(AnchorInline { anchor }),
        source::Inline::NoteRef(note_id) => Inline::NoteReference(NoteReference { note_id }),
        source::Inline::LineBreak => Inline::LineBreak(LineBreak),
        source::Inline::Math(tex) => Inline::MathInline(MathInline { tex }),
        source::Inline::Checkbox(checked) => Inline::Checkbox(Checkbox { checked }),
    }
}

/// The objects for a run of inlines, in order.
pub fn inlines(values: Vec<source::Inline>) -> (r: Vec<Inline>)
    ensures
        r@ == values@.map_values(|i: source::Inline| inline_spec(i)),
{
    let ghost all = values@;
    let mut out: Vec<Inline> = Vec::new();
    for i in it: values
        invariant
            it.seq() == all,
            out@ == all.take(it.index@ as int).map_values(|i: source::Inline| inline_spec(i)),
    {
        out.push(inline(i));
        assert(all.take(it.index@ + 1) =~= all.take(it.index@ as int).push(i));
    }
    assert(all.take(all.len() as int) =~= all);
    out
}

/// `Anydoc\ExternalLink`: an absolute URL.
#[derive(Debug, Clone, PartialEq, Eq)]
pub struct ExternalLink {
    pub value: String,
}

/// `Anydoc\RelativeLink`: a scheme-less reference, as written.
#[derive(Debug, Clone, PartialEq, Eq)]
pub struct RelativeLink {
    pub value: String,
}

/// `Anydoc\AnchorLink`: an internal target.
#[derive(Debug, Clone, PartialEq, Eq)]
pub struct AnchorLink {
    pub value: String,
}

/// `Anydoc\LinkTarget`: the abstract link target class, as the sum of its
/// final subclasses.
#[derive(Debug, Clone, PartialEq, Eq)]
pub enum LinkTarget {
    External(ExternalLink),
    Relative(RelativeLink),
    Anchor(AnchorLink),
}

/// The object for a link target.
pub fn link_target(value: source::LinkTarget) -> (r: LinkTarget)
    ensures
        r == (match value {
            source::LinkTarget::External(value) => LinkTarget::External(ExternalLink { value }),
            source::LinkTarget::Relative(value) => LinkTarget::Relative(RelativeLink { value }),
            source::LinkTarget::Anchor(value) => LinkTarget::Anchor(AnchorLink { value }),
        }),
{
    match value {
        source::LinkTarget::External(value) => LinkTarget::External(ExternalLink { value }),
        source::LinkTarget::Relative(value) => LinkTarget::Relative(RelativeLink { value }),
        source::LinkTarget::Anchor(value) => LinkTarget::Anchor(AnchorLink { value }),
    }
}

/// The largest integer PHP represents.
pub open spec fn php_int_max() -> int {
    i64::MAX as int
}

/// The message for a value too large for a PHP integer.
pub open spec fn overflow_message(field: Seq<char>) -> Seq<char> {
    "Anydoc "@ + field + " exceeds the PHP integer range"@
}

/// `e` reports that `field` exceeds the PHP integer range.
pub open spec fn is_overflow(e: Throwable, field: Seq<char>) -> bool {
    e.class == ExceptionClass::Plain && e.message@ == overflow_message(field)
}

/// The exception for a `field` value too large for a PHP integer.
pub fn integer_overflow(field: &str) -> (r: Throwable)
    ensures
        is_overflow(r, field@),
{
    let mut message: String = String::from_str("Anydoc ");
    message.append(field);
    message.append(" exceeds the PHP integer range");
    plain_exception(message)
}

/// A size or index as a PHP integer, or the exception for `field` when it
/// does not fit.
pub fn usize_to_php(value: usize, field: &str) -> (r: Result<i64, Throwable>)
    ensures
        value <= php_int_max() ==> r == Ok::<i64, Throwable>(value as i64),
        value > php_int_max() ==> (r matches Err(e) && is_overflow(e, field@)),
{
    if (value as u64) <= 0x7fff_ffff_ffff_ffffu64 {
        Ok(value as i64)
    } else {
        Err(integer_overflow(field))
    }
}

/// The field an asset index is reported as.
pub open spec fn asset_id_field() -> Seq<char> {
    "asset id"@
}

/// `Anydoc\ExternalImage`.
#[derive(Debug, Clone, PartialEq, Eq)]
pub struct ExternalImage {
    pub url: String,
}

/// `Anydoc\AssetImage`: an embedded image, by its asset index.
#[derive(Debug, Clone, Copy, PartialEq, Eq)]
pub struct AssetImage {
    pub asset_id: i64,
}

/// `Anydoc\UnavailableImage`: an image whose bytes are gone.
#[derive(Debug, Clone, Copy, PartialEq, Eq)]
pub struct UnavailableImage;

/// `Anydoc\ImageSource`: the abstract image source class, as the sum of its
/// final subclasses.
#[derive(Debug, Clone, PartialEq, Eq)]
pub enum ImageSource {
    External(ExternalImage),
    Asset(AssetImage),
    Unavailable(UnavailableImage),
}

/// The object for an image source; an asset index beyond the PHP integer
/// range is an error.
pub fn image_source(value: source::ImageSource) -> (r: Result<ImageSource, Throwable>)
    ensures
        match value {
            source::ImageSource::External(url) => r == Ok::<ImageSource, Throwable>(
                ImageSource::External(ExternalImage { url }),
            ),
            source::ImageSource::Asset(id) => if id <= php_int_max() {
                r == Ok::<ImageSource, Throwable>(
                    ImageSource::Asset(AssetImage { asset_id: id as i64 }),
                )
            } else {
                r matches Err(e) && is_overflow(e, asset_id_field())
            },
            source::ImageSource::Unavailable => r == Ok::<ImageSource, Throwable>(
                ImageSource::Unavailable(UnavailableImage),
            ),
        },
{
    match value {
        source::ImageSource::External(url) => Ok(ImageSource::External(ExternalImage { url })),
        source::ImageSource::Asset(id) => match usize_to_php(id, "asset id") {
            Ok(asset_id) => Ok(ImageSource::Asset(AssetImage { asset_id })),
            Err(e) => Err(e),
        },
        source::ImageSource::Unavailable => Ok(ImageSource::Unavailable(UnavailableImage)),
    }
}

/// The public name of a list marker family.
pub open spec fn marker_name(marker: source::MarkerKind) -> Seq<char> {
    match marker {
        source::MarkerKind::Bullet => "bullet"@,
        source::MarkerKind::Decimal => "decimal"@,
        source::MarkerKind::LowerAlpha => "lowerAlpha"@,
        source::MarkerKind::UpperAlpha => "upperAlpha"@,
        source::MarkerKind::LowerRoman => "lowerRoman"@,
        source::MarkerKind::UpperRoman => "upperRoman"@,
    }
}

/// The public name of a list marker family, as an owned string.
pub fn marker_kind_name(marker: source::MarkerKind) -> (r: String)
    ensures
        r@ == marker_name(marker),
{
    match marker {
        source::MarkerKind::Bullet => String::from_str("bullet"),
        source::MarkerKind::Decimal => String::from_str("decimal"),
        source::MarkerKind::LowerAlpha => String::from_str("lowerAlpha"),
        source::MarkerKind::UpperAlpha => String::from_str("upperAlpha"),
        source::MarkerKind::LowerRoman => String::from_str("lowerRoman"),
        source::MarkerKind::UpperRoman => String::from_str("upperRoman"),
    }
}

/// `Anydoc\DocumentList`.
#[derive(Debug)]
pub struct DocumentList {
    pub marker: String,
    pub start: i64,
    pub items: Vec<source::ListItem>,
}

/// The field a list start is reported as.
pub open spec fn list_start_field() -> Seq<char> {
    "list start"@
}

/// The object for a list; a start beyond the PHP integer range is an error.
pub fn document_list(value: source::List) -> (r: Result<DocumentList, Throwable>)
    ensures
        value.start <= php_int_max() ==> (r matches Ok(list) && list.marker@ == marker_name(
            value.marker,
        ) && list.start == value.start as i64 && list.items == value.items),
        value.start > php_int_max() ==> (r matches Err(e) && is_overflow(e, list_start_field())),
{
    let marker: String = marker_kind_name(value.marker);
    if value.start <= 0x7fff_ffff_ffff_ffffu64 {
        Ok(DocumentList { marker, start: value.start as i64, items: value.items })
    } else {
        Err(integer_overflow("list start"))
    }
}

/// `Anydoc\ListItem`.
#[derive(Debug)]
pub struct ListItem {
    pub blocks: Vec<source::Block>,
    pub marker_label: Option<String>,
}

/// The object a list item becomes.
pub open spec fn list_item_spec(value: source::ListItem) -> ListItem {
    ListItem { blocks: value.blocks, marker_label: value.marker_label }
}

/// The object for a list item.
pub fn list_item(value: source::ListItem) -> (r: ListItem)
    ensures
        r == list_item_spec(value),
{
    ListItem { blocks: value.blocks, marker_label: value.marker_label }
}

/// The public name of a table's purpose.
pub open spec fn table_kind_name(kind: source::TableKind) -> Seq<char> {
    match kind {
        source::TableKind::Data => "data"@,
        source::TableKind::Layout => "layout"@,
    }
}

/// `Anydoc\Table`.
#[derive(Debug)]
pub struct Table {
    pub grid: Vec<Vec<source::CellSlot>>,
    pub header_rows: i64,
    pub kind: String,
}

/// The field a table's header row count is reported as.
pub open spec fn header_rows_field() -> Seq<char> {
    "table header row count"@
}

/// The object for a table; a header row count beyond the PHP integer range
/// is an error.
pub fn table(value: source::Table) -> (r: Result<Table, Throwable>)
    ensures
        value.header_rows <= php_int_max() ==> (r matches Ok(t) && t.grid == value.grid
            && t.header_rows == value.header_rows as i64 && t.kind@ == table_kind_name(
            value.kind,
        )),
        value.header_rows > php_int_max() ==> (r matches Err(e) && is_overflow(
            e,
            header_rows_field(),
        )),
{
    let header_rows: i64 = match usize_to_php(value.header_rows, "table header row count") {
        Ok(n) => n,
        Err(e) => {
            return Err(e);
        },
    };
    let kind: String = match value.kind {
        source::TableKind::Data => String::from_str("data"),
        source::TableKind::Layout => String::from_str("layout"),
    };
    Ok(Table { grid: value.grid, header_rows, kind })
}

/// `Anydoc\Cell`: a table cell and the extent it spans.
#[derive(Debug)]
pub struct Cell {
    pub blocks: Vec<source::Block>,
    pub col_span: i64,
    pub row_span: i64,
}

/// The object a cell becomes.
pub open spec fn cell_spec(value: source::Cell) -> Cell {
    Cell { blocks: value.blocks, col_span: value.col_span as i64, row_span: value.row_span as i64 }
}

/// The object for a cell.
pub fn cell(value: source::Cell) -> (r: Cell)
    ensures
        r == cell_spec(value),
{
    Cell { blocks: value.blocks, col_span: value.col_span as i64, row_span: value.row_span as i64 }
}

/// `Anydoc\OriginCell`: the slot that holds a cell.
#[derive(Debug)]
pub struct OriginCell {
    pub cell: source::Cell,
}

/// `Anydoc\CoveredCell`: a slot covered by the span of the cell at its
/// origin.
#[derive(Debug, Clone, Copy, PartialEq, Eq)]
pub struct CoveredCell {
    pub origin_row: i64,
    pub origin_col: i64,
}

/// `Anydoc\CellSlot`: the abstract slot class, as the sum of its final
/// subclasses.
#[derive(Debug)]
pub enum CellSlot {
    Origin(OriginCell),
    Covered(CoveredCell),
}

/// The fields a covered slot's origin is reported as.
pub open spec fn origin_row_field() -> Seq<char> {
    "covered cell origin row"@
}

pub open spec fn origin_col_field() -> Seq<char> {
    "covered cell origin column"@
}

/// Why a slot cannot become an object, if it cannot: the message for its
/// origin row, or else its origin column, beyond the PHP integer range.
pub open spec fn slot_failure(value: source::CellSlot) -> Option<Seq<char>> {
    match value {
        source::CellSlot::Origin(_) => None,
        source::CellSlot::Covered { origin_row, origin_col } => if origin_row > php_int_max() {
            Some(overflow_message(origin_row_field()))
        } else if origin_col > php_int_max() {
            Some(overflow_message(origin_col_field()))
        } else {
            None
        },
    }
}

/// The object a slot becomes, when it can.
pub open spec fn cell_slot_spec(value: source::CellSlot) -> CellSlot {
    match value {
        source::CellSlot::Origin(cell) => CellSlot::Origin(OriginCell { cell }),
        source::CellSlot::Covered { origin_row, origin_col } => CellSlot::Covered(
            CoveredCell { origin_row: origin_row as i64, origin_col: origin_col as i64 },
        ),
    }
}

/// The object for a slot; an origin beyond the PHP integer range is an
/// error, the row checked before the column.
pub fn cell_slot(value: source::CellSlot) -> (r: Result<CellSlot, Throwable>)
    ensures
        match slot_failure(value) {
            None => r == Ok::<CellSlot, Throwable>(cell_slot_spec(value)),
            Some(m) => r matches Err(e) && e.class == ExceptionClass::Plain && e.message@ == m,
        },
{
    match value {
        source::CellSlot::Origin(cell) => Ok(CellSlot::Origin(OriginCell { cell })),
        source::CellSlot::Covered { origin_row, origin_col } => {
            let row: i64 = match usize_to_php(origin_row, "covered cell origin row") {
                Ok(n) => n,
                Err(e) => {
                    return Err(e);
                },
            };
            let col: i64 = match usize_to_php(origin_col, "covered cell origin column") {
                Ok(n) => n,
                Err(e) => {
                    return Err(e);
                },
            };
            Ok(CellSlot::Covered(CoveredCell { origin_row: row, origin_col: col }))
        },
    }
}

/// The public name of a note's placement.
pub open spec fn note_kind_name(kind: source::NoteKind) -> Seq<char> {
    match kind {
        source::NoteKind::Footnote => "footnote"@,
        source::NoteKind::Endnote => "endnote"@,
    }
}

/// `Anydoc\Note`.
#[derive(Debug)]
pub struct Note {
    pub id: String,
    pub kind: String,
    pub blocks: Vec<source::Block>,
}

/// `n` is the object for the note `value`.
pub open spec fn is_note_of(n: Note, value: source::Note) -> bool {
    n.id == value.id && n.kind@ == note_kind_name(value.kind) && n.blocks == value.blocks
}

/// The object for a note.
pub fn note(value: source::Note) -> (r: Note)
    ensures
        is_note_of(r, value),
{
    let kind: String = match value.kind {
        source::NoteKind::Footnote => String::from_str("footnote"),
        source::NoteKind::Endnote => String::from_str("endnote"),
    };
    Note { id: value.id, kind, blocks: value.blocks }
}

/// `Anydoc\Asset`: an embedded binary asset.
#[derive(Debug, Clone, PartialEq, Eq)]
pub struct Asset {
    pub id: i64,
    pub media_type: String,
    pub origin_part: String,
    pub data: Vec<u8>,
}

/// The object an asset becomes, when its index fits a PHP integer.
pub open spec fn asset_spec(value: source::Asset) -> Asset {
    Asset {
        id: value.id as i64,
        media_type: value.media_type,
        origin_part: value.origin_part,
        data: value.bytes,
    }
}

/// The object for an asset; an index beyond the PHP integer range is an
/// error.
pub fn asset(value: source::Asset) -> (r: Result<Asset, Throwable>)
    ensures
        value.id <= php_int_max() ==> r == Ok::<Asset, Throwable>(asset_spec(value)),
        value.id > php_int_max() ==> (r matches Err(e) && is_overflow(e, asset_id_field())),
{
    match usize_to_php(value.id, "asset id") {
        Ok(id) => Ok(
            Asset {
                id,
                media_type: value.media_type,
                origin_part: value.origin_part,
                data: value.bytes,
            },
        ),
        Err(e) => Err(e),
    }
}

/// The first slot of a row, in order, that cannot become an object, by its
/// message.
pub open spec fn first_slot_failure(slots: Seq<source::CellSlot>) -> Option<Seq<char>>
    decreases slots.len(),
{
    if slots.len() == 0 {
        None
    } else {
        match slot_failure(slots[0]) {
            Some(m) => Some(m),
            None => first_slot_failure(slots.drop_first()),
        }
    }
}

/// The first slot of a grid, row by row, that cannot become an object, by
/// its message.
pub open spec fn first_grid_failure(rows: Seq<Seq<source::CellSlot>>) -> Option<Seq<char>>
    decreases rows.len(),
{
    if rows.len() == 0 {
        None
    } else {
        match first_slot_failure(rows[0]) {
            Some(m) => Some(m),
            None => first_grid_failure(rows.drop_first()),
        }
    }
}

/// The rows of a grid, as sequences.
pub open spec fn grid_rows(grid: Seq<Vec<source::CellSlot>>) -> Seq<Seq<source::CellSlot>> {
    grid.map_values(|row: Vec<source::CellSlot>| row@)
}

proof fn lemma_first_slot_failure_split(a: Seq<source::CellSlot>, b: Seq<source::CellSlot>)
    requires
        first_slot_failure(a) is None,
    ensures
        first_slot_failure(a + b) == first_slot_failure(b),
    decreases a.len(),
{
    if a.len() > 0 {
        assert((a + b).drop_first() =~= a.drop_first() + b);
        lemma_first_slot_failure_split(a.drop_first(), b);
    } else {
        assert(a + b =~= b);
    }
}

proof fn lemma_first_grid_failure_split(
    a: Seq<Seq<source::CellSlot>>,
    b: Seq<Seq<source::CellSlot>>,
)
    requires
        first_grid_failure(a) is None,
    ensures
        first_grid_failure(a + b) == first_grid_failure(b),
    decreases a.len(),
{
    if a.len() > 0 {
        assert((a + b).drop_first() =~= a.drop_first() + b);
        lemma_first_grid_failure_split(a.drop_first(), b);
    } else {
        assert(a + b =~= b);
    }
}

/// The objects for one row of slots, or the exception for its first slot
/// that cannot become one.
fn grid_row(row: Vec<source::CellSlot>) -> (r: Result<Vec<CellSlot>, Throwable>)
    ensures
        match first_slot_failure(row@) {
            None => r matches Ok(v) && v@ == row@.map_values(
                |s: source::CellSlot| cell_slot_spec(s),
            ),
            Some(m) => r matches Err(e) && e.class == ExceptionClass::Plain && e.message@ == m,
        },
{
    let ghost all = row@;
    let mut out: Vec<CellSlot> = Vec::new();
    for slot in it: row
        invariant
            it.seq() == all,
            first_slot_failure(all.take(it.index@ as int)) is None,
            out@ == all.take(it.index@ as int).map_values(|s: source::CellSlot| cell_slot_spec(s)),
    {
        let ghost k = it.index@ as int;
        proof {
            assert(all.take(k + 1) =~= all.take(k) + seq![slot]);
            assert(all =~= all.take(k) + all.skip(k));
            lemma_first_slot_failure_split(all.take(k), all.skip(k));
            lemma_first_slot_failure_split(all.take(k), seq![slot]);
            assert(all.skip(k)[0] == slot);
            assert(seq![slot].drop_first() =~= Seq::<source::CellSlot>::empty());
        }
        match cell_slot(slot) {
            Ok(object) => {
                proof {
                    reveal_with_fuel(first_slot_failure, 2);
                    assert(first_slot_failure(seq![slot]) is None);
                }
                out.push(object);
            },
            Err(e) => {
                return Err(e);
            },
        }
        assert(all.take(k + 1).map_values(|s: source::CellSlot| cell_slot_spec(s)) =~= out@);
    }
    assert(all.take(all.len() as int) =~= all);
    Ok(out)
}

/// The objects for a grid of slots, row by row, or the exception for its
/// first slot that cannot become one.
pub fn grid(rows: Vec<Vec<source::CellSlot>>) -> (r: Result<Vec<Vec<CellSlot>>, Throwable>)
    ensures
        match first_grid_failure(grid_rows(rows@)) {
            None => r matches Ok(v) && v@.len() == rows@.len() && forall|i: int|
                0 <= i < rows@.len() ==> #[trigger] v@[i]@ == rows@[i]@.map_values(
                    |s: source::CellSlot| cell_slot_spec(s),
                ),
            Some(m) => r matches Err(e) && e.class == ExceptionClass::Plain && e.message@ == m,
        },
{
    let ghost all = rows@;
    let ghost views = grid_rows(all);
    let mut out: Vec<Vec<CellSlot>> = Vec::new();
    for row in it: rows
        invariant
            it.seq() == all,
            views == grid_rows(all),
            first_grid_failure(views.take(it.index@ as int)) is None,
            out@.len() == it.index@,
            forall|i: int|
                0 <= i < it.index@ ==> #[trigger] out@[i]@ == all[i]@.map_values(
                    |s: source::CellSlot| cell_slot_spec(s),
                ),
    {
        let ghost k = it.index@ as int;
        proof {
            assert(views.take(k + 1) =~= views.take(k) + seq![row@]);
            assert(views =~= views.take(k) + views.skip(k));
            lemma_first_grid_failure_split(views.take(k), views.skip(k));
            assert(views.skip(k)[0] == row@);
            assert(views.skip(k).drop_first() =~= views.skip(k + 1));
            assert(seq![row@].drop_first() =~= Seq::<Seq<source::CellSlot>>::empty());
            lemma_first_grid_failure_split(views.take(k), seq![row@]);
        }
        match grid_row(row) {
            Ok(objects) => {
                proof {
                    reveal_with_fuel(first_grid_failure, 2);
                    assert(first_grid_failure(seq![row@]) is None);
                }
                out.push(objects);
            },
            Err(e) => {
                return Err(e);
            },
        }
    }
    assert(views.take(all.len() as int) =~= views);
    Ok(out)
}

/// The objects for a run of list items, in order.
pub fn list_items(values: Vec<source::ListItem>) -> (r: Vec<ListItem>)
    ensures
        r@ == values@.map_values(|i: source::ListItem| list_item_spec(i)),
{
    let ghost all = values@;
    let mut out: Vec<ListItem> = Vec::new();
    for item in it: values
        invariant
            it.seq() == all,
            out@ == all.take(it.index@ as int).map_values(|i: source::ListItem| list_item_spec(i)),
    {
        out.push(list_item(item));
        assert(all.take(it.index@ + 1) =~= all.take(it.index@ as int).push(item));
    }
    assert(all.take(all.len() as int) =~= all);
    out
}

/// The objects for a run of notes, in order.
pub fn notes(values: Vec<source::Note>) -> (r: Vec<Note>)
    ensures
        r@.len() == values@.len(),
        forall|i: int| 0 <= i < values@.len() ==> is_note_of(#[trigger] r@[i], values@[i]),
{
    let ghost all = values@;
    let mut out: Vec<Note> = Vec::new();
    for n in it: values
        invariant
            it.seq() == all,
            out@.len() == it.index@,
            forall|i: int| 0 <= i < it.index@ ==> is_note_of(#[trigger] out@[i], all[i]),
    {
        out.push(note(n));
    }
    out
}

/// Every asset's index fits a PHP integer.
pub open spec fn asset_ids_fit(values: Seq<source::Asset>) -> bool {
    forall|i: int| 0 <= i < values.len() ==> #[trigger] values[i].id <= php_int_max()
}

/// The objects for a run of assets, in order; the first index beyond the
/// PHP integer range is an error.
pub fn assets(values: Vec<source::Asset>) -> (r: Result<Vec<Asset>, Throwable>)
    ensures
        asset_ids_fit(values@) ==> (r matches Ok(v) && v@ == values@.map_values(
            |a: source::Asset| asset_spec(a),
        )),
        !asset_ids_fit(values@) ==> (r matches Err(e) && is_overflow(e, asset_id_field())),
{
    let ghost all = values@;
    let mut out: Vec<Asset> = Vec::new();
    for a in it: values
        invariant
            it.seq() == all,
            asset_ids_fit(all.take(it.index@ as int)),
            out@ == all.take(it.index@ as int).map_values(|a: source::Asset| asset_spec(a)),
    {
        let ghost k = it.index@ as int;
        let ghost id = a.id;
        match asset(a) {
            Ok(object) => {
                out.push(object);
            },
            Err(e) => {
                assert(all[k].id > php_int_max());
                return Err(e);
            },
        }
        assert(all.take(k + 1) =~= all.take(k).push(all[k]));
        assert(all.take(k + 1)[k].id == id);
    }
    assert(all.take(all.len() as int) =~= all);
    Ok(out)
}

/// `Anydoc\Document`: a parsed document, read lazily.
#[derive(Debug)]
pub struct Document {
    pub blocks: Vec<source::Block>,
    pub notes: Vec<source::Note>,
    pub assets: Vec<source::Asset>,
}

/// The PHP document for a parsed document; building it never fails, since
/// every child is turned into an object only when it is read.
pub fn convert(document: source::Document) -> (r: Result<Document, Throwable>)
    ensures
        r matches Ok(d) && d.blocks == document.blocks && d.notes == document.notes && d.assets
            == document.assets,
{
    Ok(Document { blocks: document.blocks, notes: document.notes, assets: document.assets })
}

impl Document {
    /// The body's blocks, in order.
    pub fn get_blocks(self) -> (r: Vec<Block>)
        ensures
            r@ == self.blocks@.map_values(|b: source::Block| block_spec(b)),
    {
        blocks(self.blocks)
    }

    /// The notes, in the order the document defines them.
    pub fn get_notes(self) -> (r: Vec<Note>)
        ensures
            r@.len() == self.notes@.len(),
            forall|i: int| 0 <= i < self.notes@.len() ==> is_note_of(#[trigger] r@[i], self.notes@[i]),
    {
        notes(self.notes)
    }

    /// The embedded assets, in index order.
    pub fn get_assets(self) -> (r: Result<Vec<Asset>, Throwable>)
        ensures
            asset_ids_fit(self.assets@) ==> (r matches Ok(v) && v@ == self.assets@.map_values(
                |a: source::Asset| asset_spec(a),
            )),
            !asset_ids_fit(self.assets@) ==> (r matches Err(e) && is_overflow(e, asset_id_field())),
    {
        assets(self.assets)
    }
}

impl Heading {
    /// The heading text.
    pub fn get_content(self) -> (r: Vec<Inline>)
        ensures
            r@ == self.content@.map_values(|i: source::Inline| inline_spec(i)),
    {
        inlines(self.content)
    }
}

impl Paragraph {
    /// The paragraph's inline content.
    pub fn get_content(self) -> (r: Vec<Inline>)
        ensures
            r@ == self.content@.map_values(|i: source::Inline| inline_spec(i)),
    {
        inlines(self.content)
    }
}

impl BlockList {
    /// The list this block holds.
    pub fn get_list(self) -> (r: Result<DocumentList, Throwable>)
        ensures
            self.list.start <= php_int_max() ==> (r matches Ok(list) && list.marker@
                == marker_name(self.list.marker) && list.start == self.list.start as i64
                && list.items == self.list.items),
            self.list.start > php_int_max() ==> (r matches Err(e) && is_overflow(
                e,
                list_start_field(),
            )),
    {
        document_list(self.list)
    }
}

impl BlockTable {
    /// The table this block holds.
    pub fn get_table(self) -> (r: Result<Table, Throwable>)
        ensures
            self.table.header_rows <= php_int_max() ==> (r matches Ok(t) && t.grid
                == self.table.grid && t.header_rows == self.table.header_rows as i64
                && t.kind@ == table_kind_name(self.table.kind)),
            self.table.header_rows > php_int_max() ==> (r matches Err(e) && is_overflow(
                e,
                header_rows_field(),
            )),
    {
        table(self.table)
    }
}

impl BlockQuote {
    /// The quoted blocks, in order.
    pub fn get_blocks(self) -> (r: Vec<Block>)
        ensures
            r@ == self.blocks@.map_values(|b: source::Block| block_spec(b)),
    {
        blocks(self.blocks)
    }
}

impl TextInline {
    /// The character style covering the text.
    pub fn get_style(&self) -> (r: Style)
        ensures
            r == (Style {
                bold: self.style.bold,
                italic: self.style.italic,
                strike: self.style.strike,
                code: self.style.code,
            }),
    {
        Style::from(self.style)
    }
}

impl LinkInline {
    /// The link text.
    pub fn get_content(self) -> (r: Vec<Inline>)
        ensures
            r@ == self.content@.map_values(|i: source::Inline| inline_spec(i)),
    {
        inlines(self.content)
    }

    /// Where the link points.
    pub fn get_target(self) -> (r: LinkTarget)
        ensures
            r == (match self.target {
                source::LinkTarget::External(value) => LinkTarget::External(ExternalLink { value }),
                source::LinkTarget::Relative(value) => LinkTarget::Relative(RelativeLink { value }),
                source::LinkTarget::Anchor(value) => LinkTarget::Anchor(AnchorLink { value }),
            }),
    {
        link_target(self.target)
    }
}

impl ImageInline {
    /// Where the image's bytes are.
    pub fn get_source(self) -> (r: Result<ImageSource, Throwable>)
        ensures
            match self.source {
                source::ImageSource::External(url) => r == Ok::<ImageSource, Throwable>(
                    ImageSource::External(ExternalImage { url }),
                ),
                source::ImageSource::Asset(id) => if id <= php_int_max() {
                    r == Ok::<ImageSource, Throwable>(
                        ImageSource::Asset(AssetImage { asset_id: id as i64 }),
                    )
                } else {
                    r matches Err(e) && is_overflow(e, asset_id_field())
                },
                source::ImageSource::Unavailable => r == Ok::<ImageSource, Throwable>(
                    ImageSource::Unavailable(UnavailableImage),
                ),
            },
    {
        image_source(self.source)
    }
}

impl DocumentList {
    /// The items, in order.
    pub fn get_items(self) -> (r: Vec<ListItem>)
        ensures
            r@ == self.items@.map_values(|i: source::ListItem| list_item_spec(i)),
    {
        list_items(self.items)
    }
}

impl ListItem {
    /// The item's blocks, in order.
    pub fn get_blocks(self) -> (r: Vec<Block>)
        ensures
            r@ == self.blocks@.map_values(|b: source::Block| block_spec(b)),
    {
        blocks(self.blocks)
    }
}

impl Table {
    /// The grid's slots, row by row.
    pub fn get_grid(self) -> (r: Result<Vec<Vec<CellSlot>>, Throwable>)
        ensures
            match first_grid_failure(grid_rows(self.grid@)) {
                None => r matches Ok(v) && v@.len() == self.grid@.len() && forall|i: int|
                    0 <= i < self.grid@.len() ==> #[trigger] v@[i]@ == self.grid@[i]@.map_values(
                        |s: source::CellSlot| cell_slot_spec(s),
                    ),
                Some(m) => r matches Err(e) && e.class == ExceptionClass::Plain && e.message@ == m,
            },
    {
        grid(self.grid)
    }
}

impl OriginCell {
    /// The cell at this slot.
    pub fn get_cell(self) -> (r: Cell)
        ensures
            r == cell_spec(self.cell),
    {
        cell(self.cell)
    }
}

impl Cell {
    /// The cell's blocks, in order.
    pub fn get_blocks(self) -> (r: Vec<Block>)
        ensures
            r@ == self.blocks@.map_values(|b: source::Block| block_spec(b)),
    {
        blocks(self.blocks)
    }
}

impl Note {
    /// The note's blocks, in order.
    pub fn get_blocks(self) -> (r: Vec<Block>)
        ensures
            r@ == self.blocks@.map_values(|b: source::Block| block_spec(b)),
    {
        blocks(self.blocks)
    }
}

impl Asset {
    /// The asset's bytes, exactly as stored.
    pub fn get_data(&self) -> (r: Vec<u8>)
        ensures
            r@ == self.data@,
    {
        self.data.clone()
    }
}

/// The block an object stands for: each class read back as the block
/// variant of the same kind, with the values it carries.
pub open spec fn block_of_object(object: Block) -> source::Block {
    match object {
        Block::Heading(h) => source::Block::Heading {
            level: h.level as u8,
            anchor: h.anchor,
            content: h.content,
        },
        Block::Paragraph(p) => source::Block::Paragraph(p.content),
        Block::BlockList(l) => source::Block::List(l.list),
        Block::BlockTable(t) => source::Block::Table(t.table),
        Block::BlockQuote(q) => source::Block::BlockQuote(q.blocks),
        Block::CodeBlock(c) => source::Block::CodeBlock { lang: c.lang, text: c.text },
        Block::Rule(_) => source::Block::Rule,
        Block::MathBlock(m) => source::Block::Math(m.tex),
    }
}

/// Nothing of a block is lost: the object for every block stands for that
/// very block, so each variant becomes the class of its own kind carrying
/// the same values (a list a `BlockList` holding that list, a heading a
/// `Heading` at the same level, ...).
pub proof fn law_block_objects_keep_their_block(value: source::Block)
    ensures
        block_of_object(block_spec(value)) == value,
        value is Heading ==> block_spec(value)->Heading_0.level == value->level,
{
}

/// The inline an object stands for: each class read back as the inline
/// variant of the same kind, with the values it carries.
pub open spec fn inline_of_object(object: Inline) -> source::Inline {
    match object {
        Inline::Text(t) => source::Inline::Text { text: t.text, style: t.style },
        Inline::Link(l) => source::Inline::Link { content: l.content, target: l.target },
        Inline::Image(i) => source::Inline::Image { alt: i.alt, source: i.source },
        Inline::Anchor(a) => source::Inline::Anchor(a.anchor),
        Inline::NoteReference(n) => source::Inline::NoteRef(n.note_id),
        Inline::LineBreak(_) => source::Inline::LineBreak,
        Inline::MathInline(m) => source::Inline::Math(m.tex),
        Inline::Checkbox(c) => source::Inline::Checkbox(c.checked),
    }
}

/// Nothing of an inline is lost: the object for every inline stands for that
/// very inline, so each variant becomes the class of its own kind carrying
/// the same values (an image an `Image` with the same alt text and source,
/// ...).
pub proof fn law_inline_objects_keep_their_inline(value: source::Inline)
    ensures
        inline_of_object(inline_spec(value)) == value,
{
}

/// An asset object keeps the asset's own index, media type, origin and
/// bytes, so the `assetId` of an image that refers to the asset finds it.
pub proof fn law_asset_objects_keep_their_index(value: source::Asset)
    requires
        value.id <= php_int_max(),
    ensures
        asset_spec(value).id == value.id,
        asset_spec(value).media_type == value.media_type,
        asset_spec(value).origin_part == value.origin_part,
        asset_spec(value).data@ == value.bytes@,
{
}

} // verus!
