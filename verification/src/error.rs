//! Errors of the extraction pipeline.

use vstd::prelude::*;

verus! {

/// An error of the extraction pipeline.
#[derive(Clone, Debug, PartialEq, Eq)]
pub enum XbergError {
    /// The input or the configuration is not acceptable.
    Validation { message: String },
    /// Optical character recognition failed.
    Ocr { message: String },
}

/// An error with its message as text.
pub enum ErrorText {
    Validation(Seq<char>),
    Ocr(Seq<char>),
}

impl View for XbergError {
    type V = ErrorText;

    open spec fn view(&self) -> ErrorText {
        match *self {
            XbergError::Validation { message } => ErrorText::Validation(message@),
            XbergError::Ocr { message } => ErrorText::Ocr(message@),
        }
    }
}

impl XbergError {
    /// An error about input or configuration.
    pub fn validation(message: String) -> (r: Self)
        ensures
            r@ == ErrorText::Validation(message@),
            r == (XbergError::Validation { message }),
    {
        XbergError::Validation { message }
    }

    /// An error about optical character recognition.
    pub fn ocr(message: String) -> (r: Self)
        ensures
            r@ == ErrorText::Ocr(message@),
            r == (XbergError::Ocr { message }),
    {
        XbergError::Ocr { message }
    }

    /// What went wrong, in words.
    pub fn message(&self) -> (r: &str)
        ensures
            self@ == ErrorText::Validation(r@) || self@ == ErrorText::Ocr(r@),
            match *self {
                XbergError::Validation { message } => r@ == message@,
                XbergError::Ocr { message } => r@ == message@,
            },
    {
        match self {
            XbergError::Validation { message } => message.as_str(),
            XbergError::Ocr { message } => message.as_str(),
        }
    }
}

/// Law: an error is read as what it is, with its own message.
pub proof fn law_error_keeps_its_kind(error: XbergError)
    ensures
        error matches XbergError::Validation { message } ==> error@ == ErrorText::Validation(
            message@,
        ),
        error matches XbergError::Ocr { message } ==> error@ == ErrorText::Ocr(message@),
{
}

} // verus!
