//! anydoc's document model, as plain values: what a parsed document holds
//! before the extension turns it into PHP objects.
use vstd::prelude::*;

verus! {

/// A parsed document: its body, its notes, and its embedded assets.
#[derive(Debug)]
pub struct Document {
    pub blocks: Vec<Block>,
    pub notes: Vec<Note>,
    pub assets: Vec<Asset>,
}

/// Footnote or endnote body.
#[derive(Debug)]
pub struct Note {
    pub id: String,
    pub kind: NoteKind,
    pub blocks: Vec<Block>,
}

/// Where the source document places a note.
#[derive(Debug, Clone, Copy, PartialEq, Eq, Structural)]
pub enum NoteKind {
    Footnote,
    Endnote,
}

/// One block-level piece of a document body.
#[derive(Debug)]
pub enum Block {
    Heading { level: u8, anchor: Option<String>, content: Vec<Inline> },
    Paragraph(Vec<Inline>),
    List(List),
    Table(Table),
    BlockQuote(Vec<Block>),
    CodeBlock { lang: Option<String>, text: String },
    Rule,
    Math(String),
}

/// One span of inline content.
#[derive(Debug)]
pub enum Inline {
    Text { text: String, style: Style },
    Link { content: Vec<Inline>, target: LinkTarget },
    Image { alt: String, source: ImageSource },
    Anchor(String),
    NoteRef(String),
    LineBreak,
    Math(String),
    Checkbox(bool),
}

/// Fully resolved character style.
#[derive(Debug, Clone, Copy, PartialEq, Eq, Default, Structural)]
pub struct Style {
    pub bold: bool,
    pub italic: bool,
    pub strike: bool,
    pub code: bool,
}

/// Where a link points.
#[derive(Debug, PartialEq, Eq)]
pub enum LinkTarget {
    External(String),
    Relative(String),
    Anchor(String),
}

/// Where an image's bytes live; an embedded image by its index into the
/// document's assets.
#[derive(Debug, PartialEq, Eq)]
pub enum ImageSource {
    External(String),
    Asset(usize),
    Unavailable,
}

/// The marker family a list level uses.
#[derive(Debug, Clone, Copy, PartialEq, Eq, Structural)]
pub enum MarkerKind {
    Bullet,
    Decimal,
    LowerAlpha,
    UpperAlpha,
    LowerRoman,
    UpperRoman,
}

/// A fully resolved list.
#[derive(Debug)]
pub struct List {
    pub marker: MarkerKind,
    pub start: u64,
    pub items: Vec<ListItem>,
}

/// One item of a list.
#[derive(Debug)]
pub struct ListItem {
    pub blocks: Vec<Block>,
    pub marker_label: Option<String>,
}

/// A table grid: rows of slots.
#[derive(Debug)]
pub struct Table {
    pub grid: Vec<Vec<CellSlot>>,
    pub header_rows: usize,
    pub kind: TableKind,
}

/// What a table is for.
#[derive(Debug, Clone, Copy, PartialEq, Eq, Default, Structural)]
pub enum TableKind {
    #[default]
    Data,
    Layout,
}

/// One position in a table grid: a cell, or the shadow of a spanning one.
#[derive(Debug)]
pub enum CellSlot {
    Origin(Cell),
    Covered { origin_row: usize, origin_col: usize },
}

/// A table cell and the extent it spans.
#[derive(Debug)]
pub struct Cell {
    pub blocks: Vec<Block>,
    pub col_span: u32,
    pub row_span: u32,
}

/// An embedded binary asset, with its own index.
#[derive(Debug, PartialEq, Eq)]
pub struct Asset {
    pub id: usize,
    pub media_type: String,
    pub origin_part: String,
    pub bytes: Vec<u8>,
}

impl Clone for LinkTarget {
    fn clone(&self) -> (r: Self)
        ensures
            r == *self,
    {
        match self {
            LinkTarget::External(s) => LinkTarget::External(s.clone()),
            LinkTarget::Relative(s) => LinkTarget::Relative(s.clone()),
            LinkTarget::Anchor(s) => LinkTarget::Anchor(s.clone()),
        }
    }
}

impl Clone for ImageSource {
    fn clone(&self) -> (r: Self)
        ensures
            r == *self,
    {
        match self {
            ImageSource::External(s) => ImageSource::External(s.clone()),
            ImageSource::Asset(id) => ImageSource::Asset(*id),
            ImageSource::Unavailable => ImageSource::Unavailable,
        }
    }
}

/// `b` is a copy of `a`: the same values, the same strings, and children
/// that are copies of each other.
pub open spec fn same_inline(a: Inline, b: Inline) -> bool
    decreases a,
{
    match (a, b) {
        (Inline::Text { text: t, style: s }, Inline::Text { text: u, style: v }) => t == u && s
            == v,
        (Inline::Link { content: c, target: t }, Inline::Link { content: d, target: u }) => {
            &&& c@.len() == d@.len()
            &&& forall|i: int| 0 <= i < c@.len() ==> same_inline(c@[i], #[trigger] d@[i])
            &&& t == u
        },
        (Inline::Image { alt: t, source: s }, Inline::Image { alt: u, source: v }) => t == u && s
            == v,
        (Inline::Anchor(t), Inline::Anchor(u)) => t == u,
        (Inline::NoteRef(t), Inline::NoteRef(u)) => t == u,
        (Inline::LineBreak, Inline::LineBreak) => true,
        (Inline::Math(t), Inline::Math(u)) => t == u,
        (Inline::Checkbox(t), Inline::Checkbox(u)) => t == u,
        _ => false,
    }
}

/// `b` is a copy of `a`, element by element.
pub open spec fn same_inlines(a: Seq<Inline>, b: Seq<Inline>) -> bool {
    a.len() == b.len() && forall|i: int| 0 <= i < a.len() ==> same_inline(a[i], #[trigger] b[i])
}

/// A copy of an inline.
fn copy_inline(x: &Inline) -> (r: Inline)
    ensures
        same_inline(*x, r),
    decreases x,
{
    match x {
        Inline::Text { text, style } => Inline::Text { text: text.clone(), style: *style },
        Inline::Link { content, target } => {
            let c: Vec<Inline> = copy_inlines(content);
            Inline::Link { content: c, target: target.clone() }
        },
        Inline::Image { alt, source } => Inline::Image { alt: alt.clone(), source: source.clone() },
        Inline::Anchor(t) => Inline::Anchor(t.clone()),
        Inline::NoteRef(t) => Inline::NoteRef(t.clone()),
        Inline::LineBreak => Inline::LineBreak,
        Inline::Math(t) => Inline::Math(t.clone()),
        Inline::Checkbox(t) => Inline::Checkbox(*t),
    }
}

/// A copy of a run of inlines.
fn copy_inlines(v: &Vec<Inline>) -> (r: Vec<Inline>)
    ensures
        same_inlines(v@, r@),
    decreases v,
{
    let mut out: Vec<Inline> = Vec::new();
    let mut i: usize = 0;
    while i < v.len()
        invariant
            i <= v@.len(),
            out@.len() == i,
            forall|j: int| 0 <= j < i ==> same_inline(v@[j], #[trigger] out@[j]),
        decreases v@.len() - i,
    {
        assert(decreases_to!(v => v@[i as int]));
        let c: Inline = copy_inline(&v[i]);
        out.push(c);
        i = i + 1;
    }
    out
}

impl Clone for Inline {
    fn clone(&self) -> (r: Self)
        ensures
            same_inline(*self, r),
    {
        copy_inline(self)
    }
}

/// `b` is a copy of `a`: the same values, the same strings, and children
/// that are copies of each other.
pub open spec fn same_block(a: Block, b: Block) -> bool
    decreases a,
{
    match (a, b) {
        (
            Block::Heading { level: l, anchor: n, content: c },
            Block::Heading { level: m, anchor: o, content: d },
        ) => l == m && n == o && same_inlines(c@, d@),
        (Block::Paragraph(c), Block::Paragraph(d)) => same_inlines(c@, d@),
        (Block::List(k), Block::List(l)) => {
            &&& k.marker == l.marker
            &&& k.start == l.start
            &&& k.items@.len() == l.items@.len()
            &&& forall|i: int|
                0 <= i < k.items@.len() ==> same_list_item(k.items@[i], #[trigger] l.items@[i])
        },
        (Block::Table(t), Block::Table(u)) => {
            &&& t.header_rows == u.header_rows
            &&& t.kind == u.kind
            &&& t.grid@.len() == u.grid@.len()
            &&& forall|i: int|
                0 <= i < t.grid@.len() ==> #[trigger] u.grid@[i]@.len() == t.grid@[i]@.len()
            &&& forall|i: int, j: int|
                0 <= i < t.grid@.len() && 0 <= j < t.grid@[i]@.len() ==> same_slot(
                    t.grid@[i]@[j],
                    #[trigger] u.grid@[i]@[j],
                )
        },
        (Block::BlockQuote(c), Block::BlockQuote(d)) => {
            &&& c@.len() == d@.len()
            &&& forall|i: int| 0 <= i < c@.len() ==> same_block(c@[i], #[trigger] d@[i])
        },
        (Block::CodeBlock { lang: l, text: t }, Block::CodeBlock { lang: m, text: u }) => l == m
            && t == u,
        (Block::Rule, Block::Rule) => true,
        (Block::Math(t), Block::Math(u)) => t == u,
        _ => false,
    }
}

/// `b` is a copy of the list item `a`.
pub open spec fn same_list_item(a: ListItem, b: ListItem) -> bool
    decreases a,
{
    &&& a.marker_label == b.marker_label
    &&& a.blocks@.len() == b.blocks@.len()
    &&& forall|i: int| 0 <= i < a.blocks@.len() ==> same_block(a.blocks@[i], #[trigger] b.blocks@[i])
}

/// `b` is a copy of the table slot `a`.
pub open spec fn same_slot(a: CellSlot, b: CellSlot) -> bool
    decreases a,
{
    match (a, b) {
        (CellSlot::Origin(c), CellSlot::Origin(d)) => same_cell(c, d),
        (
            CellSlot::Covered { origin_row: r, origin_col: c },
            CellSlot::Covered { origin_row: s, origin_col: d },
        ) => r == s && c == d,
        _ => false,
    }
}

/// `b` is a copy of the cell `a`.
pub open spec fn same_cell(a: Cell, b: Cell) -> bool
    decreases a,
{
    &&& a.col_span == b.col_span
    &&& a.row_span == b.row_span
    &&& a.blocks@.len() == b.blocks@.len()
    &&& forall|i: int| 0 <= i < a.blocks@.len() ==> same_block(a.blocks@[i], #[trigger] b.blocks@[i])
}

/// `b` is a copy of `a`, element by element.
pub open spec fn same_blocks(a: Seq<Block>, b: Seq<Block>) -> bool {
    a.len() == b.len() && forall|i: int| 0 <= i < a.len() ==> same_block(a[i], #[trigger] b[i])
}

/// A copy of a block.
fn copy_block(x: &Block) -> (r: Block)
    ensures
        same_block(*x, r),
    decreases x,
{
    match x {
        Block::Heading { level, anchor, content } => {
            let c: Vec<Inline> = copy_inlines(content);
            Block::Heading { level: *level, anchor: anchor.clone(), content: c }
        },
        Block::Paragraph(content) => Block::Paragraph(copy_inlines(content)),
        Block::List(list) => Block::List(copy_list(list)),
        Block::Table(table) => Block::Table(copy_table(table)),
        Block::BlockQuote(blocks) => Block::BlockQuote(copy_blocks(blocks)),
        Block::CodeBlock { lang, text } => Block::CodeBlock { lang: lang.clone(), text: text.clone() },
        Block::Rule => Block::Rule,
        Block::Math(t) => Block::Math(t.clone()),
    }
}

/// A copy of a run of blocks.
fn copy_blocks(v: &Vec<Block>) -> (r: Vec<Block>)
    ensures
        same_blocks(v@, r@),
    decreases v,
{
    let mut out: Vec<Block> = Vec::new();
    let mut i: usize = 0;
    while i < v.len()
        invariant
            i <= v@.len(),
            out@.len() == i,
            forall|j: int| 0 <= j < i ==> same_block(v@[j], #[trigger] out@[j]),
        decreases v@.len() - i,
    {
        assert(decreases_to!(v => v@[i as int]));
        let c: Block = copy_block(&v[i]);
        out.push(c);
        i = i + 1;
    }
    out
}

/// A copy of a list.
fn copy_list(x: &List) -> (r: List)
    ensures
        r.marker == x.marker,
        r.start == x.start,
        r.items@.len() == x.items@.len(),
        forall|i: int| 0 <= i < x.items@.len() ==> same_list_item(x.items@[i], #[trigger] r.items@[i]),
    decreases x,
{
    let mut items: Vec<ListItem> = Vec::new();
    let mut i: usize = 0;
    while i < x.items.len()
        invariant
            i <= x.items@.len(),
            items@.len() == i,
            forall|j: int| 0 <= j < i ==> same_list_item(x.items@[j], #[trigger] items@[j]),
        decreases x.items@.len() - i,
    {
        assert(decreases_to!(x => x.items@[i as int]));
        let c: ListItem = copy_list_item(&x.items[i]);
        items.push(c);
        i = i + 1;
    }
    List { marker: x.marker, start: x.start, items }
}

/// A copy of a list item.
fn copy_list_item(x: &ListItem) -> (r: ListItem)
    ensures
        same_list_item(*x, r),
    decreases x,
{
    let blocks: Vec<Block> = copy_blocks(&x.blocks);
    ListItem { blocks, marker_label: x.marker_label.clone() }
}

/// A copy of a table.
fn copy_table(x: &Table) -> (r: Table)
    ensures
        r.header_rows == x.header_rows,
        r.kind == x.kind,
        r.grid@.len() == x.grid@.len(),
        forall|i: int| 0 <= i < x.grid@.len() ==> #[trigger] r.grid@[i]@.len() == x.grid@[i]@.len(),
        forall|i: int, j: int|
            0 <= i < x.grid@.len() && 0 <= j < x.grid@[i]@.len() ==> same_slot(
                x.grid@[i]@[j],
                #[trigger] r.grid@[i]@[j],
            ),
    decreases x,
{
    let mut grid: Vec<Vec<CellSlot>> = Vec::new();
    let mut i: usize = 0;
    while i < x.grid.len()
        invariant
            i <= x.grid@.len(),
            grid@.len() == i,
            forall|k: int| 0 <= k < i ==> #[trigger] grid@[k]@.len() == x.grid@[k]@.len(),
            forall|k: int, j: int|
                0 <= k < i && 0 <= j < x.grid@[k]@.len() ==> same_slot(
                    x.grid@[k]@[j],
                    #[trigger] grid@[k]@[j],
                ),
        decreases x.grid@.len() - i,
    {
        assert(decreases_to!(x => x.grid@[i as int]));
        let row: Vec<CellSlot> = copy_row(&x.grid[i]);
        grid.push(row);
        i = i + 1;
    }
    Table { grid, header_rows: x.header_rows, kind: x.kind }
}

/// A copy of a row of table slots.
fn copy_row(v: &Vec<CellSlot>) -> (r: Vec<CellSlot>)
    ensures
        r@.len() == v@.len(),
        forall|j: int| 0 <= j < v@.len() ==> same_slot(v@[j], #[trigger] r@[j]),
    decreases v,
{
    let mut out: Vec<CellSlot> = Vec::new();
    let mut i: usize = 0;
    while i < v.len()
        invariant
            i <= v@.len(),
            out@.len() == i,
            forall|j: int| 0 <= j < i ==> same_slot(v@[j], #[trigger] out@[j]),
        decreases v@.len() - i,
    {
        assert(decreases_to!(v => v@[i as int]));
        let c: CellSlot = copy_slot(&v[i]);
        out.push(c);
        i = i + 1;
    }
    out
}

/// A copy of a table slot.
fn copy_slot(x: &CellSlot) -> (r: CellSlot)
    ensures
        same_slot(*x, r),
    decreases x,
{
    match x {
        CellSlot::Origin(c) => CellSlot::Origin(copy_cell(c)),
        CellSlot::Covered { origin_row, origin_col } => CellSlot::Covered {
            origin_row: *origin_row,
            origin_col: *origin_col,
        },
    }
}

/// A copy of a cell.
fn copy_cell(x: &Cell) -> (r: Cell)
    ensures
        same_cell(*x, r),
    decreases x,
{
    let blocks: Vec<Block> = copy_blocks(&x.blocks);
    Cell { blocks, col_span: x.col_span, row_span: x.row_span }
}

impl Clone for Block {
    fn clone(&self) -> (r: Self)
        ensures
            same_block(*self, r),
    {
        copy_block(self)
    }
}

impl Clone for ListItem {
    fn clone(&self) -> (r: Self)
        ensures
            same_list_item(*self, r),
    {
        copy_list_item(self)
    }
}

impl Clone for CellSlot {
    fn clone(&self) -> (r: Self)
        ensures
            same_slot(*self, r),
    {
        copy_slot(self)
    }
}

impl Clone for Cell {
    fn clone(&self) -> (r: Self)
        ensures
            same_cell(*self, r),
    {
        copy_cell(self)
    }
}

impl Clone for List {
    fn clone(&self) -> (r: Self)
        ensures
            r.marker == self.marker,
            r.start == self.start,
            r.items@.len() == self.items@.len(),
            forall|i: int|
                0 <= i < self.items@.len() ==> same_list_item(self.items@[i], #[trigger] r.items@[i]),
    {
        copy_list(self)
    }
}

impl Clone for Table {
    fn clone(&self) -> (r: Self)
        ensures
            r.header_rows == self.header_rows,
            r.kind == self.kind,
            r.grid@.len() == self.grid@.len(),
            forall|i: int|
                0 <= i < self.grid@.len() ==> #[trigger] r.grid@[i]@.len() == self.grid@[i]@.len(),
            forall|i: int, j: int|
                0 <= i < self.grid@.len() && 0 <= j < self.grid@[i]@.len() ==> same_slot(
                    self.grid@[i]@[j],
                    #[trigger] r.grid@[i]@[j],
                ),
    {
        copy_table(self)
    }
}

/// `b` is a copy of the note `a`.
pub open spec fn same_note(a: Note, b: Note) -> bool {
    a.id == b.id && a.kind == b.kind && same_blocks(a.blocks@, b.blocks@)
}

impl Clone for Note {
    fn clone(&self) -> (r: Self)
        ensures
            same_note(*self, r),
    {
        Note { id: self.id.clone(), kind: self.kind, blocks: copy_blocks(&self.blocks) }
    }
}

/// `b` is a copy of the asset `a`.
pub open spec fn same_asset(a: Asset, b: Asset) -> bool {
    a.id == b.id && a.media_type == b.media_type && a.origin_part == b.origin_part && a.bytes@
        == b.bytes@
}

impl Clone for Asset {
    fn clone(&self) -> (r: Self)
        ensures
            same_asset(*self, r),
    {
        Asset {
            id: self.id,
            media_type: self.media_type.clone(),
            origin_part: self.origin_part.clone(),
            bytes: self.bytes.clone(),
        }
    }
}

impl Clone for Document {
    fn clone(&self) -> (r: Self)
        ensures
            same_blocks(self.blocks@, r.blocks@),
            r.notes@.len() == self.notes@.len(),
            forall|i: int| 0 <= i < self.notes@.len() ==> same_note(self.notes@[i], #[trigger] r.notes@[i]),
            r.assets@.len() == self.assets@.len(),
            forall|i: int|
                0 <= i < self.assets@.len() ==> same_asset(self.assets@[i], #[trigger] r.assets@[i]),
    {
        let blocks: Vec<Block> = copy_blocks(&self.blocks);
        let mut notes: Vec<Note> = Vec::new();
        let mut i: usize = 0;
        while i < self.notes.len()
            invariant
                i <= self.notes@.len(),
                notes@.len() == i,
                forall|j: int| 0 <= j < i ==> same_note(self.notes@[j], #[trigger] notes@[j]),
            decreases self.notes@.len() - i,
        {
            notes.push(self.notes[i].clone());
            i = i + 1;
        }
        let mut assets: Vec<Asset> = Vec::new();
        let mut k: usize = 0;
        while k < self.assets.len()
            invariant
                k <= self.assets@.len(),
                assets@.len() == k,
                forall|j: int| 0 <= j < k ==> same_asset(self.assets@[j], #[trigger] assets@[j]),
            decreases self.assets@.len() - k,
        {
            assets.push(self.assets[k].clone());
            k = k + 1;
        }
        Document { blocks, notes, assets }
    }
}

} // verus!
