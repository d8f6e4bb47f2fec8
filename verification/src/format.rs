//! Input formats: their public names, and how a name, an extension, a path
//! or the content itself resolves to one.
use vstd::prelude::*;
use vstd::string::*;

use crate::exception::{plain_exception, ExceptionClass, Throwable};

use anydoc::Format as AnydocFormat;

verus! {

/// The input formats anydoc converts, one per parser.
#[derive(Debug, Clone, Copy, PartialEq, Eq, Structural)]
pub enum Format {
    Csv,
    Doc,
    Docx,
    Epub,
    Excel,
    Odp,
    Ods,
    Odt,
    Pdf,
    Ppt,
    Pptx,
    Rtf,
}

/// The public name of a format, as PHP callers see it.
pub open spec fn format_name_spec(format: Format) -> Seq<char> {
    match format {
        Format::Csv => seq!['c', 's', 'v'],
        Format::Doc => seq!['d', 'o', 'c'],
        Format::Docx => seq!['d', 'o', 'c', 'x'],
        Format::Epub => seq!['e', 'p', 'u', 'b'],
        Format::Excel => seq!['x', 'l', 's', 'x'],
        Format::Odp => seq!['o', 'd', 'p'],
        Format::Ods => seq!['o', 'd', 's'],
        Format::Odt => seq!['o', 'd', 't'],
        Format::Pdf => seq!['p', 'd', 'f'],
        Format::Ppt => seq!['p', 'p', 't'],
        Format::Pptx => seq!['p', 'p', 't', 'x'],
        Format::Rtf => seq!['r', 't', 'f'],
    }
}

/// The public name of a format.
pub fn format_name(format: Format) -> (r: &'static str)
    ensures
        r@ == format_name_spec(format),
{
    match format {
        Format::Csv => {
            proof { reveal_strlit("csv"); }
            assert("csv"@ =~= format_name_spec(format));
            "csv"
        },
        Format::Doc => {
            proof { reveal_strlit("doc"); }
            assert("doc"@ =~= format_name_spec(format));
            "doc"
        },
        Format::Docx => {
            proof { reveal_strlit("docx"); }
            assert("docx"@ =~= format_name_spec(format));
            "docx"
        },
        Format::Epub => {
            proof { reveal_strlit("epub"); }
            assert("epub"@ =~= format_name_spec(format));
            "epub"
        },
        Format::Excel => {
            proof { reveal_strlit("xlsx"); }
            assert("xlsx"@ =~= format_name_spec(format));
            "xlsx"
        },
        Format::Odp => {
            proof { reveal_strlit("odp"); }
            assert("odp"@ =~= format_name_spec(format));
            "odp"
        },
        Format::Ods => {
            proof { reveal_strlit("ods"); }
            assert("ods"@ =~= format_name_spec(format));
            "ods"
        },
        Format::Odt => {
            proof { reveal_strlit("odt"); }
            assert("odt"@ =~= format_name_spec(format));
            "odt"
        },
        Format::Pdf => {
            proof { reveal_strlit("pdf"); }
            assert("pdf"@ =~= format_name_spec(format));
            "pdf"
        },
        Format::Ppt => {
            proof { reveal_strlit("ppt"); }
            assert("ppt"@ =~= format_name_spec(format));
            "ppt"
        },
        Format::Pptx => {
            proof { reveal_strlit("pptx"); }
            assert("pptx"@ =~= format_name_spec(format));
            "pptx"
        },
        Format::Rtf => {
            proof { reveal_strlit("rtf"); }
            assert("rtf"@ =~= format_name_spec(format));
            "rtf"
        },
    }
}


/// `to_ascii_lowercase` on one character: ASCII capitals become small
/// letters, everything else stays.
pub open spec fn ascii_lower_char(c: char) -> char {
    if 'A' <= c && c <= 'Z' {
        ((c as u32) + 32) as char
    } else {
        c
    }
}

/// `to_ascii_lowercase` on a string.
pub open spec fn ascii_lower(s: Seq<char>) -> Seq<char> {
    s.map_values(|c: char| ascii_lower_char(c))
}

/// The format that a bare extension names (no leading dot), matched
/// case-insensitively, as anydoc's `Format::from_extension` documents and
/// implements it.
pub open spec fn extension_format(ext: Seq<char>) -> Option<Format> {
    let e = ascii_lower(ext);
    if e == seq!['d', 'o', 'c'] {
        Some(Format::Doc)
    } else if e == seq!['d', 'o', 'c', 'x'] || e == seq!['d', 'o', 'c', 'm'] {
        Some(Format::Docx)
    } else if e == seq!['o', 'd', 't'] {
        Some(Format::Odt)
    } else if e == seq!['p', 'd', 'f'] {
        Some(Format::Pdf)
    } else if e == seq!['p', 'p', 't', 'x'] || e == seq!['p', 'p', 't', 'm'] || e == seq![
        'p',
        'p',
        's',
        'x',
    ] || e == seq!['p', 'p', 's', 'm'] {
        Some(Format::Pptx)
    } else if e == seq!['p', 'p', 't'] || e == seq!['p', 'p', 's'] || e == seq!['p', 'o', 't'] {
        Some(Format::Ppt)
    } else if e == seq!['r', 't', 'f'] {
        Some(Format::Rtf)
    } else if e == seq!['e', 'p', 'u', 'b'] {
        Some(Format::Epub)
    } else if e == seq!['x', 'l', 's', 'x'] || e == seq!['x', 'l', 's', 'm'] || e == seq![
        'x',
        'l',
        's',
        'b',
    ] || e == seq!['x', 'l', 's'] {
        Some(Format::Excel)
    } else if e == seq!['o', 'd', 's'] {
        Some(Format::Ods)
    } else if e == seq!['o', 'd', 'p'] {
        Some(Format::Odp)
    } else if e == seq!['c', 's', 'v'] {
        Some(Format::Csv)
    } else {
        None
    }
}

/// anydoc's `Format::from_extension`: the format a bare extension names.
/// Its whole behaviour (lower-case the extension, then match it against a
/// fixed table) is stated by `extension_format`.
#[verifier::external_body]
fn format_from_extension(ext: &str) -> (r: Option<Format>)
    ensures
        r == extension_format(ext@),
{
    AnydocFormat::from_extension(ext).map(|f| match f {
        AnydocFormat::Csv => Format::Csv, AnydocFormat::Doc => Format::Doc,
        AnydocFormat::Docx => Format::Docx, AnydocFormat::Epub => Format::Epub,
        AnydocFormat::Excel => Format::Excel, AnydocFormat::Odp => Format::Odp,
        AnydocFormat::Ods => Format::Ods, AnydocFormat::Odt => Format::Odt,
        AnydocFormat::Pdf => Format::Pdf, AnydocFormat::Ppt => Format::Ppt,
        AnydocFormat::Pptx => Format::Pptx, AnydocFormat::Rtf => Format::Rtf,
    })
}

/// `s` with every leading `.` removed (`trim_start_matches('.')`).
pub open spec fn without_leading_dots(s: Seq<char>) -> Seq<char>
    decreases s.len(),
{
    if s.len() > 0 && s[0] == '.' {
        without_leading_dots(s.drop_first())
    } else {
        s
    }
}

/// Removes every leading `.` from `s`.
pub fn trim_leading_dots(s: &str) -> (r: &str)
    ensures
        r@ == without_leading_dots(s@),
{
    let n: usize = s.unicode_len();
    let mut i: usize = 0;
    assert(s@.skip(0) =~= s@);
    while i < n && s.get_char(i) == '.'
        invariant
            i <= n,
            n == s@.len(),
            without_leading_dots(s@) == without_leading_dots(s@.skip(i as int)),
        decreases n - i,
    {
        assert(s@.skip(i as int).drop_first() =~= s@.skip(i + 1));
        i = i + 1;
    }
    let r: &str = s.substring_char(i, n);
    assert(r@ =~= s@.skip(i as int));
    r
}

/// The name of each format of `format`, as an owned string.
pub open spec fn names_format(r: Option<String>, format: Option<Format>) -> bool {
    match (r, format) {
        (None, None) => true,
        (Some(s), Some(f)) => s@ == format_name_spec(f),
        _ => false,
    }
}

/// The public name of an optional format.
pub fn format_name_of(format: Option<Format>) -> (r: Option<String>)
    ensures
        names_format(r, format),
{
    match format {
        Some(f) => Some(format_name(f).to_owned()),
        None => None,
    }
}

/// The format that an extension names, with or without leading dots.
pub open spec fn extension_lookup(extension: Seq<char>) -> Option<Format> {
    extension_format(without_leading_dots(extension))
}

/// Resolves a format from a file extension, with or without a leading dot,
/// to its public name.
pub fn anydoc_format_from_extension(extension: &str) -> (r: Option<String>)
    ensures
        names_format(r, extension_lookup(extension@)),
{
    format_name_of(format_from_extension(trim_leading_dots(extension)))
}

/// The message of the exception for a format name that names nothing.
pub open spec fn unknown_format_message(format: Seq<char>) -> Seq<char> {
    "unknown anydoc format: "@ + format
}

/// Resolves an explicitly requested format name; leading dots are ignored
/// and case does not matter. An unknown name is an error of PHP's base
/// exception class.
pub fn parse_format(format: &str) -> (r: Result<Format, Throwable>)
    ensures
        match extension_lookup(format@) {
            Some(f) => r == Ok::<Format, Throwable>(f),
            None => r matches Err(e) && e.class == ExceptionClass::Plain && e.message@
                == unknown_format_message(format@),
        },
{
    match format_from_extension(trim_leading_dots(format)) {
        Some(f) => Ok(f),
        None => {
            let mut message: String = String::from_str("unknown anydoc format: ");
            message.append(format);
            Err(plain_exception(message))
        },
    }
}

/// Resolves the optional format argument of the conversion functions: no
/// name means detection from the content.
pub fn requested_format(format: Option<String>) -> (r: Result<Option<Format>, Throwable>)
    ensures
        match format {
            None => r == Ok::<Option<Format>, Throwable>(None),
            Some(name) => match extension_lookup(name@) {
                Some(f) => r == Ok::<Option<Format>, Throwable>(Some(f)),
                None => r matches Err(e) && e.class == ExceptionClass::Plain && e.message@
                    == unknown_format_message(name@),
            },
        },
{
    match format {
        None => Ok(None),
        Some(name) => match parse_format(name.as_str()) {
            Ok(f) => Ok(Some(f)),
            Err(e) => Err(e),
        },
    }
}

/// `bytes` opens with the `{\rtf` group that every RTF file starts with.
pub open spec fn opens_rtf_group(bytes: Seq<u8>) -> bool {
    bytes.len() >= 5 && bytes.take(5) == seq![0x7bu8, 0x5cu8, 0x72u8, 0x74u8, 0x66u8]
}

/// `bytes` opens with the `%PDF-` header.
pub open spec fn opens_pdf_header(bytes: Seq<u8>) -> bool {
    bytes.len() >= 5 && bytes.take(5) == seq![0x25u8, 0x50u8, 0x44u8, 0x46u8, 0x2du8]
}

/// `bytes` opens with the ZIP local-file-header signature `PK\x03\x04`.
pub open spec fn opens_zip_signature(bytes: Seq<u8>) -> bool {
    bytes.len() >= 4 && bytes.take(4) == seq![0x50u8, 0x4bu8, 0x03u8, 0x04u8]
}

/// `bytes` opens with the OLE compound-file signature.
pub open spec fn opens_ole_signature(bytes: Seq<u8>) -> bool {
    bytes.len() >= 8 && bytes.take(8) == seq![
        0xd0u8,
        0xcfu8,
        0x11u8,
        0xe0u8,
        0xa1u8,
        0xb1u8,
        0x1au8,
        0xe1u8,
    ]
}

/// The formats a ZIP package can be detected as.
pub open spec fn is_package_format(format: Format) -> bool {
    format == Format::Docx || format == Format::Pptx || format == Format::Excel || format
        == Format::Odt || format == Format::Ods || format == Format::Odp || format == Format::Epub
}

/// The formats an OLE compound file can be detected as.
pub open spec fn is_compound_file_format(format: Format) -> bool {
    format == Format::Doc || format == Format::Ppt || format == Format::Excel
}

/// What anydoc's `Format::from_bytes` detects in `bytes`.
pub uninterp spec fn detected_format(bytes: Seq<u8>) -> Option<Format>;

/// anydoc's `Format::from_bytes`. Detection reads the container signatures
/// (RTF group, OLE stream names, ZIP package identity, PDF header), so only
/// its name is given here, with the facts its source shows: an RTF opening
/// is RTF, a PDF header is PDF, CSV, which carries no signature, is never
/// detected, and the container signature decides the family: a ZIP package
/// is one of the package formats, an OLE compound file one of the binary
/// Office formats, and the binary Word and PowerPoint formats come from OLE
/// compound files only.
#[verifier::external_body]
fn format_from_bytes(bytes: &[u8]) -> (r: Option<Format>)
    ensures
        r == detected_format(bytes@),
        opens_rtf_group(bytes@) ==> r == Some(Format::Rtf),
        opens_pdf_header(bytes@) ==> r == Some(Format::Pdf),
        r != Some(Format::Csv),
        opens_zip_signature(bytes@) ==> (r matches Some(f) ==> is_package_format(f)),
        opens_ole_signature(bytes@) ==> (r matches Some(f) ==> is_compound_file_format(f)),
        (r == Some(Format::Doc) || r == Some(Format::Ppt)) ==> opens_ole_signature(bytes@),
{
    AnydocFormat::from_bytes(bytes).map(|f| match f {
        AnydocFormat::Csv => Format::Csv, AnydocFormat::Doc => Format::Doc,
        AnydocFormat::Docx => Format::Docx, AnydocFormat::Epub => Format::Epub,
        AnydocFormat::Excel => Format::Excel, AnydocFormat::Odp => Format::Odp,
        AnydocFormat::Ods => Format::Ods, AnydocFormat::Odt => Format::Odt,
        AnydocFormat::Pdf => Format::Pdf, AnydocFormat::Ppt => Format::Ppt,
        AnydocFormat::Pptx => Format::Pptx, AnydocFormat::Rtf => Format::Rtf,
    })
}

/// Detects a document format from its binary content, by its public name.
pub fn anydoc_format_from_bytes(bytes: &[u8]) -> (r: Option<String>)
    ensures
        names_format(r, detected_format(bytes@)),
        opens_rtf_group(bytes@) ==> (r matches Some(name) && name@ == format_name_spec(Format::Rtf)),
        opens_pdf_header(bytes@) ==> (r matches Some(name) && name@ == format_name_spec(Format::Pdf)),
        r matches Some(name) ==> name@ != format_name_spec(Format::Csv),
        opens_zip_signature(bytes@) ==> (r matches Some(name) ==> exists|f: Format|
            #![trigger format_name_spec(f)]
            name@ == format_name_spec(f) && is_package_format(f)),
        (r matches Some(name) && (name@ == format_name_spec(Format::Doc) || name@
            == format_name_spec(Format::Ppt))) ==> opens_ole_signature(bytes@),
{
    let f: Option<Format> = format_from_bytes(bytes);
    let r: Option<String> = format_name_of(f);
    proof {
        if let Some(g) = f {
            law_format_names_distinct(g, Format::Csv);
            law_format_names_distinct(g, Format::Doc);
            law_format_names_distinct(g, Format::Ppt);
            // `g` witnesses the existential: its name is the result.
            assert(r->0@ == format_name_spec(g));
        }
    }
    r
}

/// Some `.` in `path` is followed by a run of characters that names `format`
/// as an extension.
pub open spec fn names_by_extension(path: Seq<char>, format: Format) -> bool {
    exists|i: int, j: int|
        0 <= i < j <= path.len() && path[i] == '.' && #[trigger] extension_format(
            path.subrange(i + 1, j),
        ) == Some(format)
}

/// `path` is a bare file name: no separator (`/`, `\`) and no drive
/// prefix (`:`) on any platform, so the whole path is its file name.
pub open spec fn is_bare_file_name(path: Seq<char>) -> bool {
    forall|k: int| 0 <= k < path.len() ==> #[trigger] path[k] != '/' && path[k] != '\\' && path[k] != ':'
}

/// The index of the last `.` in `s`, or -1 when there is none.
pub open spec fn last_dot(s: Seq<char>) -> int
    decreases s.len(),
{
    if s.len() == 0 {
        -1
    } else if s.last() == '.' {
        s.len() - 1
    } else {
        last_dot(s.drop_last())
    }
}

/// The format a bare file name names by its extension: what follows its last
/// `.`, unless that `.` opens the name (a hidden file without extension).
pub open spec fn bare_file_format(name: Seq<char>) -> Option<Format> {
    let i = last_dot(name);
    if i > 0 {
        extension_format(name.subrange(i + 1, name.len() as int))
    } else {
        None
    }
}

/// The index of the last `/` in `s`, or -1 when there is none.
pub open spec fn last_slash(s: Seq<char>) -> int
    decreases s.len(),
{
    if s.len() == 0 {
        -1
    } else if s.last() == '/' {
        s.len() - 1
    } else {
        last_slash(s.drop_last())
    }
}

/// What follows the last `/` of `p` (all of `p` when it has none).
pub open spec fn final_component(p: Seq<char>) -> Seq<char> {
    p.subrange(last_slash(p) + 1, p.len() as int)
}

/// `p` reads alike as a path on every platform, and its last component is
/// its file name: only `/` separates, there is no `\` and no drive prefix
/// (`:`), it does not open with `//` (a network prefix on some platforms),
/// and it does not end in `/` or in a `.` component.
pub open spec fn portable_path(p: Seq<char>) -> bool {
    &&& forall|k: int| 0 <= k < p.len() ==> #[trigger] p[k] != '\\' && p[k] != ':'
    &&& !(p.len() >= 2 && p[0] == '/' && p[1] == '/')
    &&& !(p.len() > 0 && p.last() == '/')
    &&& final_component(p) != seq!['.']
}

/// `c` separates path components or closes a drive prefix on some platform.
pub open spec fn is_separator_or_colon(c: char) -> bool {
    c == '/' || c == '\\' || c == ':'
}

/// `p` opens with two separators: a network or device prefix on some
/// platforms, a plain root elsewhere.
pub open spec fn opens_with_two_separators(p: Seq<char>) -> bool {
    p.len() >= 2 && (p[0] == '/' || p[0] == '\\') && (p[1] == '/' || p[1] == '\\')
}

/// The extension of `p` wherever it reads alike on every platform: the text
/// after the last `.`, when that `.` follows a character of the file name
/// and nothing behind it separates components or closes a drive prefix, and
/// the path does not open with a network or device prefix.
pub open spec fn dotted_extension(p: Seq<char>) -> Option<Seq<char>> {
    let i = last_dot(p);
    if i >= 1 && !is_separator_or_colon(p[i - 1]) && (forall|k: int|
        i < k < p.len() ==> !#[trigger] is_separator_or_colon(p[k]))
        && !opens_with_two_separators(p) {
        Some(p.subrange(i + 1, p.len() as int))
    } else {
        None
    }
}

/// The last `.` of `s`, if any, is a `.`, and none follows it.
pub proof fn lemma_last_dot(s: Seq<char>)
    ensures
        -1 <= last_dot(s) < s.len(),
        last_dot(s) >= 0 ==> s[last_dot(s)] == '.',
        forall|k: int| last_dot(s) < k < s.len() ==> s[k] != '.',
    decreases s.len(),
{
    if s.len() > 0 && s.last() != '.' {
        lemma_last_dot(s.drop_last());
        assert forall|k: int| last_dot(s) < k < s.len() implies s[k] != '.' by {
            if k < s.len() - 1 {
                assert(s[k] == s.drop_last()[k]);
            }
        }
    }
}

/// anydoc's `Format::from_path`: the format the extension of the path names.
/// What counts as the extension is the platform's path syntax
/// (`Path::extension`), so the result is not named; stated is what holds on
/// every platform: the extension is a run of characters behind a `.`, a
/// path without any `.` has none, and a bare file name has the extension
/// `Path::extension` documents (after its final `.`, none when the name only
/// begins with `.`); so does the last component of a path written with `/`
/// alone, which is its file name on every platform; and so does any path
/// whose `dotted_extension` reads alike on every platform.
#[verifier::external_body]
fn format_from_path(path: &str) -> (r: Option<Format>)
    ensures
        !path@.contains('.') ==> r is None,
        r matches Some(f) ==> names_by_extension(path@, f),
        is_bare_file_name(path@) ==> r == bare_file_format(path@),
        portable_path(path@) ==> r == bare_file_format(final_component(path@)),
        dotted_extension(path@) matches Some(ext) ==> r == extension_format(ext),
{
    AnydocFormat::from_path(std::path::Path::new(path)).map(|f| match f {
        AnydocFormat::Csv => Format::Csv, AnydocFormat::Doc => Format::Doc,
        AnydocFormat::Docx => Format::Docx, AnydocFormat::Epub => Format::Epub,
        AnydocFormat::Excel => Format::Excel, AnydocFormat::Odp => Format::Odp,
        AnydocFormat::Ods => Format::Ods, AnydocFormat::Odt => Format::Odt,
        AnydocFormat::Pdf => Format::Pdf, AnydocFormat::Ppt => Format::Ppt,
        AnydocFormat::Pptx => Format::Pptx, AnydocFormat::Rtf => Format::Rtf,
    })
}

/// Resolves a format from a path or file name, by its public name.
pub fn anydoc_format_from_path(path: &str) -> (r: Option<String>)
    ensures
        !path@.contains('.') ==> r is None,
        is_bare_file_name(path@) ==> names_format(r, bare_file_format(path@)),
        portable_path(path@) ==> names_format(r, bare_file_format(final_component(path@))),
        dotted_extension(path@) matches Some(ext) ==> names_format(r, extension_lookup(ext)),
        r matches Some(name) ==> exists|f: Format|
            #![trigger format_name_spec(f)]
            name@ == format_name_spec(f) && names_by_extension(path@, f),
{
    let f: Option<Format> = format_from_path(path);
    let r: Option<String> = format_name_of(f);
    proof {
        lemma_last_dot(path@);
        if let Some(ext) = dotted_extension(path@) {
            let i = last_dot(path@);
            if ext.len() > 0 {
                assert(ext[0] == path@[i + 1]);
            }
            assert(without_leading_dots(ext) == ext);
        }
        if let Some(g) = f {
            // `g` witnesses the existential: its name is the result.
            assert(r->0@ == format_name_spec(g) && names_by_extension(path@, g));
        }
    }
    r
}

/// No two formats share a public name.
pub proof fn law_format_names_distinct(a: Format, b: Format)
    ensures
        a != b ==> format_name_spec(a) != format_name_spec(b),
{
    let na = format_name_spec(a);
    let nb = format_name_spec(b);
    if a != b && na == nb {
        assert(na.len() == nb.len());
        assert(na[0] == nb[0]);
        assert(na[1] == nb[1]);
        assert(na[2] == nb[2]);
    }
}

/// Every public format name resolves, as an extension, back to its format:
/// `anydoc_format_from_extension(format_name(f))` is `format_name(f)`.
pub proof fn law_public_name_resolves_to_its_format(format: Format)
    ensures
        extension_lookup(format_name_spec(format)) == Some(format),
{
    let name = format_name_spec(format);
    assert(without_leading_dots(name) == name);
    assert(ascii_lower(name) =~= name);
    let e = ascii_lower(name);
    assert(e.len() == name.len());
    assert(e[0] == name[0] && e[1] == name[1] && e[2] == name[2]);
}

/// A leading `.` does not change what an extension names.
pub proof fn law_leading_dot_ignored(extension: Seq<char>)
    ensures
        extension_lookup(seq!['.'] + extension) == extension_lookup(extension),
{
    let s = seq!['.'] + extension;
    assert(s.drop_first() =~= extension);
}

proof fn lemma_lower_commutes_with_trim(s: Seq<char>)
    ensures
        ascii_lower(without_leading_dots(s)) == without_leading_dots(ascii_lower(s)),
    decreases s.len(),
{
    if s.len() > 0 {
        assert(ascii_lower(s)[0] == ascii_lower_char(s[0]));
        if s[0] == '.' {
            assert(ascii_lower(s).drop_first() =~= ascii_lower(s.drop_first()));
            lemma_lower_commutes_with_trim(s.drop_first());
        } else {
            assert(ascii_lower(s)[0] != '.');
        }
    }
}

/// Extensions are matched case-insensitively: two extensions that agree up
/// to ASCII case name the same format.
pub proof fn law_extension_case_insensitive(a: Seq<char>, b: Seq<char>)
    requires
        ascii_lower(a) == ascii_lower(b),
    ensures
        extension_lookup(a) == extension_lookup(b),
{
    lemma_lower_commutes_with_trim(a);
    lemma_lower_commutes_with_trim(b);
}

} // verus!
