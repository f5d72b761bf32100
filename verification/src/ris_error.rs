//! The engine's error type: a message with the place it was raised at, and
//! optionally the error that caused it.
use vstd::prelude::*;

use crate::decimal::decimal;
use crate::decimal::push_decimal;

verus! {

/// What an underlying error shows of itself: the text its `Display` renders
/// and the text its `Debug` renders.
#[derive(Clone)]
pub struct SourceError {
    pub display: String,
    pub debug: String,
}

/// The abstract value of a [`SourceError`].
pub struct SourceErrorView {
    pub display: Seq<char>,
    pub debug: Seq<char>,
}

impl View for SourceError {
    type V = SourceErrorView;

    open spec fn view(&self) -> SourceErrorView {
        SourceErrorView { display: self.display@, debug: self.debug@ }
    }
}

/// The abstract view of an optional source error.
pub open spec fn source_view(source: Option<SourceError>) -> Option<SourceErrorView> {
    match source {
        Some(s) => Some(s@),
        None => None,
    }
}

/// An error of the engine.
#[derive(Clone)]
pub struct RisError {
    source: Option<SourceError>,
    message: String,
    file: String,
    line: u32,
}

/// The abstract value of a [`RisError`].
pub struct RisErrorView {
    pub source: Option<SourceErrorView>,
    pub message: Seq<char>,
    pub file: Seq<char>,
    pub line: u32,
}

impl View for RisError {
    type V = RisErrorView;

    closed spec fn view(&self) -> RisErrorView {
        RisErrorView {
            source: source_view(self.source),
            message: self.message@,
            file: self.file@,
            line: self.line,
        }
    }
}

/// The result type used throughout the engine.
pub type RisResult<T> = Result<T, RisError>;

/// The text that separates the source's text from the error's own text.
pub open spec fn source_separator() -> Seq<char> {
    seq!['\n', ' ', ' ', ' ', ' ']
}

/// What `Display` shows of an error: the source's text on a line of its own
/// (when there is a source), then the quoted message and `file:line`.
pub open spec fn display_text(e: RisErrorView) -> Seq<char> {
    let prefix = match e.source {
        Some(s) => s.display + source_separator(),
        None => Seq::<char>::empty(),
    };
    prefix + seq!['"'] + e.message + seq!['"', ',', ' '] + e.file + seq![':'] + decimal(
        e.line as nat,
    )
}

/// What `Debug` shows of an error.
pub open spec fn debug_text(e: RisErrorView) -> Seq<char> {
    let inner = match e.source {
        Some(s) => seq!['S', 'o', 'm', 'e', ' ', '('] + s.debug + seq![')'],
        None => seq!['N', 'o', 'n', 'e'],
    };
    seq!['R', 'i', 's', 'E', 'r', 'r', 'o', 'r', ' ', '{', 'i', 'n', 'n', 'e', 'r', ':', ' ']
        + inner + seq![',', ' ', 'm', 'e', 's', 's', 'a', 'g', 'e', ':', ' '] + e.message + seq![
        ',',
        ' ',
        'f',
        'i',
        'l',
        'e',
        ':',
        ' ',
    ] + e.file + seq![',', ' ', 'l', 'i', 'n', 'e', ':', ' '] + decimal(e.line as nat) + seq!['}']
}

impl RisError {
    pub fn new(source: Option<SourceError>, message: String, file: String, line: u32) -> (res: Self)
        ensures
            res@ == (RisErrorView {
                source: source_view(source),
                message: message@,
                file: file@,
                line,
            }),
    {
        Self { source, message, file, line }
    }

    pub fn message(&self) -> (res: &String)
        ensures
            res@ == self@.message,
    {
        &self.message
    }

    pub fn file(&self) -> (res: &String)
        ensures
            res@ == self@.file,
    {
        &self.file
    }

    pub fn line(&self) -> (res: &u32)
        ensures
            *res == self@.line,
    {
        &self.line
    }

    /// The error that caused this one, if any.
    pub fn source(&self) -> (res: Option<&SourceError>)
        ensures
            match res {
                Some(s) => self@.source == Some(s@),
                None => self@.source is None,
            },
    {
        match &self.source {
            Some(s) => Some(s),
            None => None,
        }
    }

    /// The text that `Display` renders for this error.
    pub fn to_display_string(&self) -> (res: String)
        ensures
            res@ == display_text(self@),
    {
        let mut out = String::new();
        match &self.source {
            Some(s) => {
                out.append(s.display.as_str());
                proof { reveal_strlit("\n    "); }
                out.append("\n    ");
            },
            None => {},
        }
        proof {
            reveal_strlit("\"");
            reveal_strlit("\", ");
            reveal_strlit(":");
        }
        out.append("\"");
        out.append(self.message.as_str());
        out.append("\", ");
        out.append(self.file.as_str());
        out.append(":");
        push_decimal(&mut out, self.line as u64);
        assert(out@ =~= display_text(self@));
        out
    }

    /// The text that `Debug` renders for this error.
    pub fn to_debug_string(&self) -> (res: String)
        ensures
            res@ == debug_text(self@),
    {
        let mut out = String::new();
        proof {
            reveal_strlit("RisError {inner: ");
            reveal_strlit("Some (");
            reveal_strlit(")");
            reveal_strlit("None");
            reveal_strlit(", message: ");
            reveal_strlit(", file: ");
            reveal_strlit(", line: ");
            reveal_strlit("}");
        }
        out.append("RisError {inner: ");
        match &self.source {
            Some(s) => {
                out.append("Some (");
                out.append(s.debug.as_str());
                out.append(")");
            },
            None => {
                out.append("None");
            },
        }
        out.append(", message: ");
        out.append(self.message.as_str());
        out.append(", file: ");
        out.append(self.file.as_str());
        out.append(", line: ");
        push_decimal(&mut out, self.line as u64);
        out.append("}");
        assert(out@ =~= debug_text(self@));
        out
    }
}

/// The error that stands for an `Option` that held nothing.
pub struct OptionError;

/// What `Display` shows of an [`OptionError`].
pub open spec fn option_error_text() -> Seq<char> {
    seq!['O', 'p', 't', 'i', 'o', 'n', ' ', 'w', 'a', 's', ' ', 'N', 'o', 'n', 'e']
}

/// What `Debug` shows of an [`OptionError`].
pub open spec fn option_error_debug_text() -> Seq<char> {
    seq!['O', 'p', 't', 'i', 'o', 'n', 'E', 'r', 'r', 'o', 'r']
}

impl OptionError {
    /// The text that `Display` renders.
    pub fn to_display_string(&self) -> (res: String)
        ensures
            res@ == option_error_text(),
    {
        let mut out = String::new();
        proof { reveal_strlit("Option was None"); }
        out.append("Option was None");
        out
    }

    /// This error as the source of another one.
    pub fn to_source(&self) -> (res: SourceError)
        ensures
            res@.display == option_error_text(),
            res@.debug == option_error_debug_text(),
    {
        let display = self.to_display_string();
        let mut debug = String::new();
        proof { reveal_strlit("OptionError"); }
        debug.append("OptionError");
        SourceError { display, debug }
    }
}

/// Turns the outcome of a fallible call into a `RisResult`: a value passes
/// through, an error becomes the source of a new error raised at `file:line`.
pub fn unroll<T>(result: Result<T, SourceError>, message: String, file: String, line: u32) -> (res:
    RisResult<T>)
    ensures
        match result {
            Ok(v) => res == Ok::<T, RisError>(v),
            Err(e) => res matches Err(r) && r@ == (RisErrorView {
                source: Some(e@),
                message: message@,
                file: file@,
                line,
            }),
        },
{
    match result {
        Ok(value) => Ok(value),
        Err(error) => Err(RisError::new(Some(error), message, file, line)),
    }
}

/// Turns an `Option` into a `RisResult`: a value passes through, nothing
/// becomes an error raised at `file:line` whose source is an [`OptionError`].
pub fn unroll_option<T>(option: Option<T>, message: String, file: String, line: u32) -> (res:
    RisResult<T>)
    ensures
        match option {
            Some(v) => res == Ok::<T, RisError>(v),
            None => res matches Err(r) && r@ == (RisErrorView {
                source: Some(
                    SourceErrorView {
                        display: option_error_text(),
                        debug: option_error_debug_text(),
                    },
                ),
                message: message@,
                file: file@,
                line,
            }),
        },
{
    match option {
        Some(value) => Ok(value),
        None => {
            let source = OptionError.to_source();
            Err(RisError::new(Some(source), message, file, line))
        },
    }
}

/// A new error without a source, raised at `file:line`.
pub fn new_err(message: String, file: String, line: u32) -> (res: RisError)
    ensures
        res@ == (RisErrorView { source: None, message: message@, file: file@, line }),
{
    RisError::new(None, message, file, line)
}

/// A failed result that holds a new error without a source, raised at `file:line`.
pub fn result_err<T>(message: String, file: String, line: u32) -> (res: RisResult<T>)
    ensures
        res matches Err(r) && r@ == (RisErrorView {
            source: None,
            message: message@,
            file: file@,
            line,
        }),
{
    Err(new_err(message, file, line))
}

} // verus!
