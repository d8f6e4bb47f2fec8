use ext_anydoc::exception::{
    convert, guard, plain_exception, ConvertError, ConvertException, ConvertFailure,
    EncryptedException, ExceptionClass, IoException, MalformedException, MissingPartException,
    PanicException, Panicked, ResourceLimitException, UnsupportedException,
};

fn failure(error: ConvertError, message: &str) -> ConvertFailure {
    ConvertFailure { error, message: message.to_string() }
}

#[test]
fn unsupported_carries_its_detail() {
    let t = convert(failure(
        ConvertError::Unsupported("no parser".to_string()),
        "unsupported input: no parser",
    ));
    assert_eq!(
        t.class,
        ExceptionClass::Unsupported(UnsupportedException { detail: "no parser".to_string() })
    );
    assert_eq!(t.message, "unsupported input: no parser");
    assert_eq!(t.class.error_code(), Some("unsupported"));
}

#[test]
fn malformed_carries_part_and_detail() {
    let t = convert(failure(
        ConvertError::Malformed {
            part: Some("word/document.xml".to_string()),
            detail: "bad xml".to_string(),
        },
        "malformed document (word/document.xml): bad xml",
    ));
    assert_eq!(
        t.class,
        ExceptionClass::Malformed(MalformedException {
            part: Some("word/document.xml".to_string()),
            detail: "bad xml".to_string(),
        })
    );
    assert_eq!(t.class.error_code(), Some("malformed"));
    let t = convert(failure(
        ConvertError::Malformed { part: None, detail: "empty".to_string() },
        "malformed document: empty",
    ));
    assert_eq!(
        t.class,
        ExceptionClass::Malformed(MalformedException { part: None, detail: "empty".to_string() })
    );
}

#[test]
fn encrypted_io_and_missing_part() {
    let t = convert(failure(ConvertError::Encrypted, "document is encrypted"));
    assert_eq!(t.class, ExceptionClass::Encrypted(EncryptedException));
    assert_eq!(t.class.error_code(), Some("encrypted"));
    let t = convert(failure(ConvertError::Io, "io error: not found"));
    assert_eq!(t.class, ExceptionClass::Io(IoException));
    assert_eq!(t.class.error_code(), Some("io"));
    assert_eq!(t.message, "io error: not found");
    let t = convert(failure(
        ConvertError::MissingPart { part: "ppt/presentation.xml".to_string() },
        "missing required part: ppt/presentation.xml",
    ));
    assert_eq!(
        t.class,
        ExceptionClass::MissingPart(MissingPartException { part: "ppt/presentation.xml".to_string() })
    );
    assert_eq!(t.class.error_code(), Some("missingPart"));
}

#[test]
fn resource_limit_carries_limit_and_detail() {
    let t = convert(failure(
        ConvertError::ResourceLimit {
            limit: "max_expansion".to_string(),
            detail: "too wide".to_string(),
        },
        "resource limit exceeded (max_expansion): too wide",
    ));
    assert_eq!(
        t.class,
        ExceptionClass::ResourceLimit(ResourceLimitException {
            limit: "max_expansion".to_string(),
            detail: "too wide".to_string(),
        })
    );
    assert_eq!(t.class.error_code(), Some("resourceLimit"));
}

#[test]
fn kinds_without_a_class_are_plain_convert_exceptions() {
    let t = convert(failure(
        ConvertError::NeedsOcr { pages: vec![1, 2], page_count: 2 },
        "all 2 pages need OCR",
    ));
    assert_eq!(t.class, ExceptionClass::Convert(ConvertException));
    assert_eq!(t.class.error_code(), None);
    assert_eq!(t.message, "all 2 pages need OCR");
    let t = convert(failure(ConvertError::Other, "something new"));
    assert_eq!(t.class, ExceptionClass::Convert(ConvertException));
}

#[test]
fn panics_become_panic_exceptions() {
    let t = ext_anydoc::exception::panic();
    assert_eq!(t.class, ExceptionClass::Panic(PanicException));
    assert_eq!(t.message, "anydoc panicked while processing the document");
    assert_eq!(t.class.error_code(), None);
}

#[test]
fn guard_settles_every_outcome() {
    assert_eq!(guard::<u32>(Ok(Ok(7))).unwrap(), 7);
    let e = guard::<u32>(Ok(Err(failure(ConvertError::Encrypted, "document is encrypted"))))
        .unwrap_err();
    assert_eq!(e.class, ExceptionClass::Encrypted(EncryptedException));
    assert_eq!(e.message, "document is encrypted");
    let e = guard::<u32>(Err(Panicked)).unwrap_err();
    assert_eq!(e.class, ExceptionClass::Panic(PanicException));
    assert_eq!(e.message, "anydoc panicked while processing the document");
}

#[test]
fn plain_exceptions_have_no_error_code() {
    let t = plain_exception("boom".to_string());
    assert_eq!(t.class, ExceptionClass::Plain);
    assert_eq!(t.message, "boom");
    assert_eq!(t.class.error_code(), None);
}
