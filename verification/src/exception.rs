//! What the extension throws: the exception classes, and how a conversion
//! failure or a panic becomes one of them.
use vstd::prelude::*;
use vstd::string::*;

verus! {

/// Base class of every conversion failure (`Anydoc\Exception\ConvertException`).
#[derive(Debug, Clone, Copy, PartialEq, Eq, Default)]
pub struct ConvertException;

/// The input format is unknown or cannot be converted at all.
#[derive(Debug, Clone, PartialEq, Eq, Default)]
pub struct UnsupportedException {
    pub detail: String,
}

/// The document is structurally unusable.
#[derive(Debug, Clone, PartialEq, Eq, Default)]
pub struct MalformedException {
    pub part: Option<String>,
    pub detail: String,
}

/// The document is encrypted or password-protected.
#[derive(Debug, Clone, Copy, PartialEq, Eq, Default)]
pub struct EncryptedException;

/// A fixed safety limit was exceeded.
#[derive(Debug, Clone, PartialEq, Eq, Default)]
pub struct ResourceLimitException {
    pub limit: String,
    pub detail: String,
}

/// A part required for any meaningful output is missing.
#[derive(Debug, Clone, PartialEq, Eq, Default)]
pub struct MissingPartException {
    pub part: String,
}

/// The input could not be read.
#[derive(Debug, Clone, Copy, PartialEq, Eq, Default)]
pub struct IoException;

/// anydoc panicked while converting; not a `ConvertException`.
#[derive(Debug, Clone, Copy, PartialEq, Eq, Default)]
pub struct PanicException;

/// The class of a thrown exception, with the properties that class carries.
#[derive(Debug, Clone, PartialEq, Eq)]
pub enum ExceptionClass {
    /// PHP's own `\Exception`, for failures outside the conversion itself.
    Plain,
    Convert(ConvertException),
    Unsupported(UnsupportedException),
    Malformed(MalformedException),
    Encrypted(EncryptedException),
    ResourceLimit(ResourceLimitException),
    MissingPart(MissingPartException),
    Io(IoException),
    Panic(PanicException),
}

/// An exception as the extension throws it: its class and its message.
#[derive(Debug, Clone, PartialEq, Eq)]
pub struct Throwable {
    pub class: ExceptionClass,
    pub message: String,
}

/// An exception of PHP's base class with the given message.
pub fn plain_exception(message: String) -> (r: Throwable)
    ensures
        r.class == ExceptionClass::Plain,
        r.message == message,
{
    Throwable { class: ExceptionClass::Plain, message }
}

/// Why anydoc could not convert a document: its `ConvertError`, variant by
/// variant, as plain values.
#[derive(Debug, Clone, PartialEq, Eq)]
pub enum ConvertError {
    /// The format is unknown or cannot be converted at all.
    Unsupported(String),
    /// Some pages of a PDF need OCR.
    NeedsOcr { pages: Vec<u32>, page_count: u32 },
    /// The document is structurally unusable.
    Malformed { part: Option<String>, detail: String },
    /// The document is encrypted or password-protected.
    Encrypted,
    /// A fixed safety limit was exceeded.
    ResourceLimit { limit: String, detail: String },
    /// A part required for any meaningful output is missing.
    MissingPart { part: String },
    /// The input could not be read.
    Io,
    /// A kind of failure this extension does not know.
    Other,
}

/// A failed conversion: the error, and anydoc's message for it.
#[derive(Debug, Clone, PartialEq, Eq)]
pub struct ConvertFailure {
    pub error: ConvertError,
    pub message: String,
}

/// The exception class, with its properties, that a conversion error is
/// thrown as.
pub open spec fn exception_class_for(error: ConvertError) -> ExceptionClass {
    match error {
        ConvertError::Unsupported(detail) => ExceptionClass::Unsupported(
            UnsupportedException { detail },
        ),
        ConvertError::Malformed { part, detail } => ExceptionClass::Malformed(
            MalformedException { part, detail },
        ),
        ConvertError::Encrypted => ExceptionClass::Encrypted(EncryptedException),
        ConvertError::ResourceLimit { limit, detail } => ExceptionClass::ResourceLimit(
            ResourceLimitException { limit, detail },
        ),
        ConvertError::MissingPart { part } => ExceptionClass::MissingPart(
            MissingPartException { part },
        ),
        ConvertError::Io => ExceptionClass::Io(IoException),
        ConvertError::NeedsOcr { .. } => ExceptionClass::Convert(ConvertException),
        ConvertError::Other => ExceptionClass::Convert(ConvertException),
    }
}

/// The exception a conversion failure is thrown as: the class its error
/// kind selects, carrying the error's fields, with anydoc's message.
pub fn convert(failure: ConvertFailure) -> (r: Throwable)
    ensures
        r.class == exception_class_for(failure.error),
        r.message == failure.message,
{
    let class: ExceptionClass = match failure.error {
        ConvertError::Unsupported(detail) => ExceptionClass::Unsupported(
            UnsupportedException { detail },
        ),
        ConvertError::Malformed { part, detail } => ExceptionClass::Malformed(
            MalformedException { part, detail },
        ),
        ConvertError::Encrypted => ExceptionClass::Encrypted(EncryptedException),
        ConvertError::ResourceLimit { limit, detail } => ExceptionClass::ResourceLimit(
            ResourceLimitException { limit, detail },
        ),
        ConvertError::MissingPart { part } => ExceptionClass::MissingPart(
            MissingPartException { part },
        ),
        ConvertError::Io => ExceptionClass::Io(IoException),
        ConvertError::NeedsOcr { .. } => ExceptionClass::Convert(ConvertException),
        ConvertError::Other => ExceptionClass::Convert(ConvertException),
    };
    Throwable { class, message: failure.message }
}

/// The message of the exception thrown when anydoc panics.
pub open spec fn panic_message() -> Seq<char> {
    "anydoc panicked while processing the document"@
}

/// The exception thrown when anydoc panics.
pub fn panic() -> (r: Throwable)
    ensures
        r.class == ExceptionClass::Panic(PanicException),
        r.message@ == panic_message(),
{
    Throwable {
        class: ExceptionClass::Panic(PanicException),
        message: String::from_str("anydoc panicked while processing the document"),
    }
}

/// anydoc panicked instead of returning.
#[derive(Debug, Clone, Copy, PartialEq, Eq, Default)]
pub struct Panicked;

/// Settles the outcome of a guarded anydoc call: its value, the exception
/// for its conversion failure, or the exception for its panic.
pub fn guard<T>(outcome: Result<Result<T, ConvertFailure>, Panicked>) -> (r: Result<T, Throwable>)
    ensures
        match outcome {
            Ok(Ok(value)) => r == Ok::<T, Throwable>(value),
            Ok(Err(failure)) => r matches Err(e) && e.class == exception_class_for(failure.error)
                && e.message == failure.message,
            Err(_) => r matches Err(e) && e.class == ExceptionClass::Panic(PanicException)
                && e.message@ == panic_message(),
        },
{
    match outcome {
        Ok(Ok(value)) => Ok(value),
        Ok(Err(failure)) => Err(convert(failure)),
        Err(_) => Err(panic()),
    }
}

/// `class` is `ConvertException` or one of its subclasses.
pub open spec fn is_convert_exception(class: ExceptionClass) -> bool {
    match class {
        ExceptionClass::Plain => false,
        ExceptionClass::Panic(_) => false,
        _ => true,
    }
}

/// The `ERROR_CODE` a class exposes, for the concrete conversion exceptions.
pub open spec fn error_code_spec(class: ExceptionClass) -> Option<Seq<char>> {
    match class {
        ExceptionClass::Unsupported(_) => Some("unsupported"@),
        ExceptionClass::Malformed(_) => Some("malformed"@),
        ExceptionClass::Encrypted(_) => Some("encrypted"@),
        ExceptionClass::ResourceLimit(_) => Some("resourceLimit"@),
        ExceptionClass::MissingPart(_) => Some("missingPart"@),
        ExceptionClass::Io(_) => Some("io"@),
        _ => None,
    }
}

/// `ERROR_CODE` of `UnsupportedException`.
pub const UNSUPPORTED_CODE: &'static str = "unsupported";

/// `ERROR_CODE` of `MalformedException`.
pub const MALFORMED_CODE: &'static str = "malformed";

/// `ERROR_CODE` of `EncryptedException`.
pub const ENCRYPTED_CODE: &'static str = "encrypted";

/// `ERROR_CODE` of `ResourceLimitException`.
pub const RESOURCE_LIMIT_CODE: &'static str = "resourceLimit";

/// `ERROR_CODE` of `MissingPartException`.
pub const MISSING_PART_CODE: &'static str = "missingPart";

/// `ERROR_CODE` of `IoException`.
pub const IO_CODE: &'static str = "io";

impl ExceptionClass {
    /// The class's `ERROR_CODE`, for the concrete conversion exceptions.
    pub fn error_code(&self) -> (r: Option<&'static str>)
        ensures
            match error_code_spec(*self) {
                Some(code) => r matches Some(s) && s@ == code,
                None => r is None,
            },
    {
        match self {
            ExceptionClass::Unsupported(_) => Some(UNSUPPORTED_CODE),
            ExceptionClass::Malformed(_) => Some(MALFORMED_CODE),
            ExceptionClass::Encrypted(_) => Some(ENCRYPTED_CODE),
            ExceptionClass::ResourceLimit(_) => Some(RESOURCE_LIMIT_CODE),
            ExceptionClass::MissingPart(_) => Some(MISSING_PART_CODE),
            ExceptionClass::Io(_) => Some(IO_CODE),
            _ => None,
        }
    }
}

/// Every conversion failure is thrown as a `ConvertException`, never as a
/// `PanicException` or a plain exception; a panic is never thrown as one.
pub proof fn law_failures_are_convert_exceptions(error: ConvertError)
    ensures
        is_convert_exception(exception_class_for(error)),
        !is_convert_exception(ExceptionClass::Panic(PanicException)),
{
}

/// Exactly the concrete conversion exception classes (not the base class,
/// not the panic class, not PHP's own) expose an `ERROR_CODE`.
pub proof fn law_error_code_marks_concrete_classes(class: ExceptionClass)
    ensures
        error_code_spec(class) is Some <==> (is_convert_exception(class) && !(class is Convert)),
{
}

/// Each error kind with a class of its own is thrown as that class, and the
/// kinds without one (pages needing OCR, kinds unknown here) as the base
/// `ConvertException`.
pub proof fn law_error_kinds_select_their_classes(error: ConvertError)
    ensures
        (error is Unsupported) <==> (exception_class_for(error) is Unsupported),
        (error is Malformed) <==> (exception_class_for(error) is Malformed),
        (error is Encrypted) <==> (exception_class_for(error) is Encrypted),
        (error is ResourceLimit) <==> (exception_class_for(error) is ResourceLimit),
        (error is MissingPart) <==> (exception_class_for(error) is MissingPart),
        (error is Io) <==> (exception_class_for(error) is Io),
        (error is NeedsOcr || error is Other) <==> (exception_class_for(error) is Convert),
{
}

} // verus!
