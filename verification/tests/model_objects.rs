use ext_anydoc::exception::ExceptionClass;
use ext_anydoc::model::{
    asset, block, cell, cell_slot, convert, document_list, grid, image_source,
    integer_overflow, link_target, list_item, note, table, usize_to_php, AssetImage, Block,
    CellSlot, CoveredCell, ExternalImage, ImageSource, Inline, LinkTarget, Style,
    UnavailableImage,
};
use ext_anydoc::source;

fn text(t: &str) -> source::Inline {
    source::Inline::Text { text: t.to_string(), style: source::Style::default() }
}

fn paragraph(t: &str) -> source::Block {
    source::Block::Paragraph(vec![text(t)])
}

#[test]
fn blocks_become_their_classes() {
    match block(source::Block::Heading {
        level: 3,
        anchor: Some("intro".to_string()),
        content: vec![text("Intro")],
    }) {
        Block::Heading(h) => {
            assert_eq!(h.level, 3);
            assert_eq!(h.anchor, Some("intro".to_string()));
            assert_eq!(h.get_content().len(), 1);
        },
        other => panic!("unexpected {other:?}"),
    }
    assert!(matches!(block(paragraph("x")), Block::Paragraph(_)));
    assert!(matches!(block(source::Block::Rule), Block::Rule(_)));
    match block(source::Block::CodeBlock { lang: Some("rust".to_string()), text: "fn".to_string() }) {
        Block::CodeBlock(c) => {
            assert_eq!(c.lang, Some("rust".to_string()));
            assert_eq!(c.text, "fn");
        },
        other => panic!("unexpected {other:?}"),
    }
    match block(source::Block::Math("x^2".to_string())) {
        Block::MathBlock(m) => assert_eq!(m.tex, "x^2"),
        other => panic!("unexpected {other:?}"),
    }
    match block(source::Block::BlockQuote(vec![paragraph("a"), source::Block::Rule])) {
        Block::BlockQuote(q) => {
            let inner = q.get_blocks();
            assert_eq!(inner.len(), 2);
            assert!(matches!(inner[0], Block::Paragraph(_)));
            assert!(matches!(inner[1], Block::Rule(_)));
        },
        other => panic!("unexpected {other:?}"),
    }
}

#[test]
fn inlines_become_their_classes() {
    let style = source::Style { bold: true, italic: false, strike: true, code: false };
    match ext_anydoc::model::inline(source::Inline::Text { text: "hi".to_string(), style }) {
        Inline::Text(t) => {
            assert_eq!(t.text, "hi");
            assert_eq!(t.get_style(), Style { bold: true, italic: false, strike: true, code: false });
        },
        other => panic!("unexpected {other:?}"),
    }
    match ext_anydoc::model::inline(source::Inline::NoteRef("n1".to_string())) {
        Inline::NoteReference(n) => assert_eq!(n.note_id, "n1"),
        other => panic!("unexpected {other:?}"),
    }
    match ext_anydoc::model::inline(source::Inline::Checkbox(true)) {
        Inline::Checkbox(c) => assert!(c.checked),
        other => panic!("unexpected {other:?}"),
    }
    match ext_anydoc::model::inline(source::Inline::Link {
        content: vec![text("site")],
        target: source::LinkTarget::Relative("a/b.html".to_string()),
    }) {
        Inline::Link(l) => match l.get_target() {
            LinkTarget::Relative(r) => assert_eq!(r.value, "a/b.html"),
            other => panic!("unexpected {other:?}"),
        },
        other => panic!("unexpected {other:?}"),
    }
    assert!(matches!(ext_anydoc::model::inline(source::Inline::LineBreak), Inline::LineBreak(_)));
}

#[test]
fn link_targets_keep_their_kind() {
    match link_target(source::LinkTarget::External("https://x.y".to_string())) {
        LinkTarget::External(e) => assert_eq!(e.value, "https://x.y"),
        other => panic!("unexpected {other:?}"),
    }
    match link_target(source::LinkTarget::Anchor("sec-2".to_string())) {
        LinkTarget::Anchor(a) => assert_eq!(a.value, "sec-2"),
        other => panic!("unexpected {other:?}"),
    }
}

#[test]
fn image_sources_and_the_asset_id_range() {
    assert_eq!(
        image_source(source::ImageSource::Asset(4)).unwrap(),
        ImageSource::Asset(AssetImage { asset_id: 4 })
    );
    assert_eq!(
        image_source(source::ImageSource::External("https://i.png".to_string())).unwrap(),
        ImageSource::External(ExternalImage { url: "https://i.png".to_string() })
    );
    assert_eq!(
        image_source(source::ImageSource::Unavailable).unwrap(),
        ImageSource::Unavailable(UnavailableImage)
    );
    let e = image_source(source::ImageSource::Asset(usize::MAX)).unwrap_err();
    assert_eq!(e.class, ExceptionClass::Plain);
    assert_eq!(e.message, "Anydoc asset id exceeds the PHP integer range");
}

#[test]
fn integer_range_boundaries() {
    assert_eq!(usize_to_php(0, "x").unwrap(), 0);
    assert_eq!(usize_to_php(i64::MAX as usize, "x").unwrap(), i64::MAX);
    let e = usize_to_php(i64::MAX as usize + 1, "widget count").unwrap_err();
    assert_eq!(e.message, "Anydoc widget count exceeds the PHP integer range");
    assert_eq!(integer_overflow("list start").message, "Anydoc list start exceeds the PHP integer range");
}

#[test]
fn lists_name_their_marker() {
    let cases = [
        (source::MarkerKind::Bullet, "bullet"),
        (source::MarkerKind::Decimal, "decimal"),
        (source::MarkerKind::LowerAlpha, "lowerAlpha"),
        (source::MarkerKind::UpperAlpha, "upperAlpha"),
        (source::MarkerKind::LowerRoman, "lowerRoman"),
        (source::MarkerKind::UpperRoman, "upperRoman"),
    ];
    for (marker, name) in cases {
        let list = document_list(source::List {
            marker,
            start: 3,
            items: vec![source::ListItem { blocks: vec![paragraph("a")], marker_label: None }],
        })
        .unwrap();
        assert_eq!(list.marker, name);
        assert_eq!(list.start, 3);
        assert_eq!(list.get_items().len(), 1);
    }
    let e = document_list(source::List { marker: source::MarkerKind::Decimal, start: u64::MAX, items: vec![] })
        .unwrap_err();
    assert_eq!(e.message, "Anydoc list start exceeds the PHP integer range");
}

#[test]
fn list_items_keep_their_label() {
    let item = list_item(source::ListItem {
        blocks: vec![paragraph("x"), paragraph("y")],
        marker_label: Some("1-a)".to_string()),
    });
    assert_eq!(item.marker_label, Some("1-a)".to_string()));
    assert_eq!(item.get_blocks().len(), 2);
}

#[test]
fn tables_name_their_kind_and_check_header_rows() {
    let t = table(source::Table { grid: vec![], header_rows: 1, kind: source::TableKind::Layout }).unwrap();
    assert_eq!(t.kind, "layout");
    assert_eq!(t.header_rows, 1);
    let t = table(source::Table { grid: vec![], header_rows: 0, kind: source::TableKind::Data }).unwrap();
    assert_eq!(t.kind, "data");
    let e = table(source::Table { grid: vec![], header_rows: usize::MAX, kind: source::TableKind::Data })
        .unwrap_err();
    assert_eq!(e.message, "Anydoc table header row count exceeds the PHP integer range");
}

#[test]
fn covered_slots_check_row_before_column() {
    let ok = cell_slot(source::CellSlot::Covered { origin_row: 1, origin_col: 2 }).unwrap();
    assert!(matches!(ok, CellSlot::Covered(CoveredCell { origin_row: 1, origin_col: 2 })));
    let e = cell_slot(source::CellSlot::Covered { origin_row: usize::MAX, origin_col: usize::MAX })
        .unwrap_err();
    assert_eq!(e.message, "Anydoc covered cell origin row exceeds the PHP integer range");
    let e = cell_slot(source::CellSlot::Covered { origin_row: 0, origin_col: usize::MAX }).unwrap_err();
    assert_eq!(e.message, "Anydoc covered cell origin column exceeds the PHP integer range");
}

#[test]
fn grids_convert_row_by_row() {
    let origin = || source::CellSlot::Origin(source::Cell { blocks: vec![paragraph("c")], col_span: 2, row_span: 1 });
    let rows = vec![
        vec![origin(), source::CellSlot::Covered { origin_row: 0, origin_col: 0 }],
        vec![origin()],
    ];
    let objects = grid(rows).unwrap();
    assert_eq!(objects.len(), 2);
    assert_eq!(objects[0].len(), 2);
    assert_eq!(objects[1].len(), 1);
    match objects.into_iter().next().unwrap().into_iter().next().unwrap() {
        CellSlot::Origin(o) => {
            let c = o.get_cell();
            assert_eq!(c.col_span, 2);
            assert_eq!(c.row_span, 1);
            assert_eq!(c.get_blocks().len(), 1);
        },
        other => panic!("unexpected {other:?}"),
    }
    let rows = vec![
        vec![origin(), source::CellSlot::Covered { origin_row: 0, origin_col: usize::MAX }],
        vec![source::CellSlot::Covered { origin_row: usize::MAX, origin_col: 0 }],
    ];
    let e = grid(rows).unwrap_err();
    assert_eq!(e.message, "Anydoc covered cell origin column exceeds the PHP integer range");
}

#[test]
fn cells_keep_their_spans() {
    let c = cell(source::Cell { blocks: vec![], col_span: 3, row_span: u32::MAX });
    assert_eq!(c.col_span, 3);
    assert_eq!(c.row_span, u32::MAX as i64);
}

#[test]
fn notes_name_their_kind() {
    let n = note(source::Note { id: "fn1".to_string(), kind: source::NoteKind::Footnote, blocks: vec![paragraph("x")] });
    assert_eq!(n.id, "fn1");
    assert_eq!(n.kind, "footnote");
    assert_eq!(n.get_blocks().len(), 1);
    let n = note(source::Note { id: "en1".to_string(), kind: source::NoteKind::Endnote, blocks: vec![] });
    assert_eq!(n.kind, "endnote");
}

#[test]
fn assets_are_binary_safe() {
    let a = asset(source::Asset {
        id: 0,
        media_type: "image/png".to_string(),
        origin_part: "word/media/image1.png".to_string(),
        bytes: vec![0x89, 0x00, 0xff, 0x00],
    })
    .unwrap();
    assert_eq!(a.id, 0);
    assert_eq!(a.media_type, "image/png");
    assert_eq!(a.origin_part, "word/media/image1.png");
    assert_eq!(a.get_data(), vec![0x89, 0x00, 0xff, 0x00]);
    let e = asset(source::Asset { id: usize::MAX, media_type: String::new(), origin_part: String::new(), bytes: vec![] })
        .unwrap_err();
    assert_eq!(e.message, "Anydoc asset id exceeds the PHP integer range");
}

fn sample_document() -> source::Document {
    source::Document {
        blocks: vec![
            source::Block::Heading { level: 1, anchor: None, content: vec![text("Title")] },
            paragraph("Body"),
            source::Block::Table(source::Table { grid: vec![], header_rows: 0, kind: source::TableKind::Data }),
        ],
        notes: vec![source::Note { id: "1".to_string(), kind: source::NoteKind::Endnote, blocks: vec![] }],
        assets: vec![source::Asset {
            id: 0,
            media_type: "image/jpeg".to_string(),
            origin_part: "media/a.jpg".to_string(),
            bytes: vec![1, 2, 3],
        }],
    }
}

#[test]
fn documents_are_read_lazily_in_order() {
    let doc = convert(sample_document()).unwrap();
    let blocks = doc.get_blocks();
    assert_eq!(blocks.len(), 3);
    assert!(matches!(blocks[0], Block::Heading(_)));
    assert!(matches!(blocks[1], Block::Paragraph(_)));
    assert!(matches!(blocks[2], Block::BlockTable(_)));
    let doc = convert(sample_document()).unwrap();
    let notes = doc.get_notes();
    assert_eq!(notes.len(), 1);
    assert_eq!(notes[0].kind, "endnote");
    let doc = convert(sample_document()).unwrap();
    let assets = doc.get_assets().unwrap();
    assert_eq!(assets[0].get_data(), vec![1, 2, 3]);
}

#[test]
fn one_oversized_asset_id_fails_the_assets() {
    let mut d = sample_document();
    d.assets.push(source::Asset { id: usize::MAX, media_type: String::new(), origin_part: String::new(), bytes: vec![] });
    let doc = convert(d).unwrap();
    let e = doc.get_assets().unwrap_err();
    assert_eq!(e.message, "Anydoc asset id exceeds the PHP integer range");
}

#[test]
fn copies_are_faithful() {
    let doc = sample_document();
    let copy = doc.clone();
    assert_eq!(format!("{doc:?}"), format!("{copy:?}"));
    let nested = source::Block::List(source::List {
        marker: source::MarkerKind::LowerRoman,
        start: 1,
        items: vec![source::ListItem {
            blocks: vec![source::Block::BlockQuote(vec![paragraph("deep")])],
            marker_label: Some("i.".to_string()),
        }],
    });
    assert_eq!(format!("{nested:?}"), format!("{:?}", nested.clone()));
}
