use ext_anydoc::format::{
    anydoc_format_from_bytes, anydoc_format_from_extension, anydoc_format_from_path,
    format_name, format_name_of, parse_format, requested_format, trim_leading_dots, Format,
};
use ext_anydoc::exception::ExceptionClass;

#[test]
fn maps_anydoc_formats_to_the_public_php_names() {
    let cases = [
        (Format::Csv, "csv"),
        (Format::Doc, "doc"),
        (Format::Docx, "docx"),
        (Format::Epub, "epub"),
        (Format::Excel, "xlsx"),
        (Format::Odp, "odp"),
        (Format::Ods, "ods"),
        (Format::Odt, "odt"),
        (Format::Pdf, "pdf"),
        (Format::Ppt, "ppt"),
        (Format::Pptx, "pptx"),
        (Format::Rtf, "rtf"),
    ];

    for (format, expected) in cases {
        assert_eq!(format_name(format), expected);
    }
}

#[test]
fn extension_with_or_without_leading_dot() {
    assert_eq!(anydoc_format_from_extension("docx"), Some("docx".to_string()));
    assert_eq!(anydoc_format_from_extension(".docx"), Some("docx".to_string()));
    assert_eq!(anydoc_format_from_extension("..docx"), Some("docx".to_string()));
    assert_eq!(anydoc_format_from_extension("."), None);
    assert_eq!(anydoc_format_from_extension(""), None);
}

#[test]
fn extension_is_case_insensitive() {
    assert_eq!(anydoc_format_from_extension("DOCX"), Some("docx".to_string()));
    assert_eq!(anydoc_format_from_extension(".PdF"), Some("pdf".to_string()));
}

#[test]
fn container_variants_share_their_parser_name() {
    assert_eq!(anydoc_format_from_extension("docm"), Some("docx".to_string()));
    assert_eq!(anydoc_format_from_extension("xls"), Some("xlsx".to_string()));
    assert_eq!(anydoc_format_from_extension("xlsb"), Some("xlsx".to_string()));
    assert_eq!(anydoc_format_from_extension("xlsm"), Some("xlsx".to_string()));
    assert_eq!(anydoc_format_from_extension("pps"), Some("ppt".to_string()));
    assert_eq!(anydoc_format_from_extension("pot"), Some("ppt".to_string()));
    assert_eq!(anydoc_format_from_extension("ppsx"), Some("pptx".to_string()));
    assert_eq!(anydoc_format_from_extension("pptm"), Some("pptx".to_string()));
    assert_eq!(anydoc_format_from_extension("ppsm"), Some("pptx".to_string()));
}

#[test]
fn unknown_extension_names_nothing() {
    assert_eq!(anydoc_format_from_extension("txt"), None);
    assert_eq!(anydoc_format_from_extension("do c"), None);
}

#[test]
fn every_public_name_resolves_back() {
    for format in [
        Format::Csv, Format::Doc, Format::Docx, Format::Epub, Format::Excel, Format::Odp,
        Format::Ods, Format::Odt, Format::Pdf, Format::Ppt, Format::Pptx, Format::Rtf,
    ] {
        let name = format_name(format);
        assert_eq!(anydoc_format_from_extension(name), Some(name.to_string()));
        assert_eq!(parse_format(name).unwrap(), format);
    }
}

#[test]
fn path_resolution() {
    assert_eq!(anydoc_format_from_path("report.docx"), Some("docx".to_string()));
    assert_eq!(anydoc_format_from_path("/tmp/data/Sheet.XLSX"), Some("xlsx".to_string()));
    assert_eq!(anydoc_format_from_path("archive/notes.txt"), None);
    assert_eq!(anydoc_format_from_path("README"), None);
}

#[test]
fn content_detection() {
    assert_eq!(anydoc_format_from_bytes(b"{\\rtf1\\ansi hello}"), Some("rtf".to_string()));
    assert_eq!(anydoc_format_from_bytes(b"%PDF-1.7\n"), Some("pdf".to_string()));
    assert_eq!(anydoc_format_from_bytes(b"a,b,c\n1,2,3\n"), None);
    assert_eq!(anydoc_format_from_bytes(b""), None);
}

#[test]
fn csv_bytes_require_an_explicit_format() {
    assert_eq!(anydoc_format_from_bytes(b"name,age\nada,36\n"), None);
    assert_eq!(parse_format("csv").unwrap(), Format::Csv);
}

#[test]
fn parse_format_accepts_dots_and_case() {
    assert_eq!(parse_format(".Docx").unwrap(), Format::Docx);
    assert_eq!(parse_format("XLS").unwrap(), Format::Excel);
}

#[test]
fn parse_format_rejects_unknown_names() {
    let e = parse_format(".txt").unwrap_err();
    assert_eq!(e.class, ExceptionClass::Plain);
    assert_eq!(e.message, "unknown anydoc format: .txt");
}

#[test]
fn requested_format_is_optional() {
    assert_eq!(requested_format(None).unwrap(), None);
    assert_eq!(requested_format(Some("odt".to_string())).unwrap(), Some(Format::Odt));
    let e = requested_format(Some("zip".to_string())).unwrap_err();
    assert_eq!(e.message, "unknown anydoc format: zip");
}

#[test]
fn trimming_and_naming_helpers() {
    assert_eq!(trim_leading_dots("...a.b"), "a.b");
    assert_eq!(trim_leading_dots("ab."), "ab.");
    assert_eq!(format_name_of(Some(Format::Excel)), Some("xlsx".to_string()));
    assert_eq!(format_name_of(None), None);
}

#[test]
fn public_names_are_distinct() {
    let formats = [
        Format::Csv, Format::Doc, Format::Docx, Format::Epub, Format::Excel, Format::Odp,
        Format::Ods, Format::Odt, Format::Pdf, Format::Ppt, Format::Pptx, Format::Rtf,
    ];
    for a in formats {
        for b in formats {
            assert_eq!(a == b, format_name(a) == format_name(b));
        }
    }
}

#[test]
fn detection_never_reports_csv() {
    for bytes in [&b"a,b\n"[..], b"PK\x03\x04", b"\xd0\xcf\x11\xe0", b"%PDF-", b"{\\rtf"] {
        assert_ne!(anydoc_format_from_bytes(bytes), Some("csv".to_string()));
    }
}

#[test]
fn bare_file_names_resolve_by_their_last_extension() {
    assert_eq!(anydoc_format_from_path("a.pdf"), Some("pdf".to_string()));
    assert_eq!(anydoc_format_from_path("backup.tar.ODT"), Some("odt".to_string()));
    assert_eq!(anydoc_format_from_path(".docx"), None);
    assert_eq!(anydoc_format_from_path("trailing."), None);
    assert_eq!(anydoc_format_from_path(".."), None);
}

#[test]
fn paths_with_directories_resolve_by_their_file_name() {
    assert_eq!(anydoc_format_from_path("reports/2024/q1.final.pptx"), Some("pptx".to_string()));
    assert_eq!(anydoc_format_from_path("./notes.RTF"), Some("rtf".to_string()));
    assert_eq!(anydoc_format_from_path("a.docx/b"), None);
    assert_eq!(anydoc_format_from_path("dir/.docx"), None);
    assert_eq!(anydoc_format_from_path("dir/.."), None);
}
