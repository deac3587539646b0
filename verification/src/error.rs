//! What can go wrong: a platform without a naming convention, and an
//! install declaration that cannot be expanded.

use vstd::prelude::*;
use vstd::string::*;

verus! {

/// The two failures of the library.
#[derive(Debug, PartialEq, Eq)]
pub enum Error {
    /// No naming convention is known for this operating system and
    /// environment.
    UnsupportedTarget { os: String, env: String },
    /// A declaration of extra files could not be expanded against its root.
    Expansion { reason: String },
}

/// What an [`Error`] is, as plain values.
pub enum ErrorView {
    UnsupportedTarget { os: Seq<char>, env: Seq<char> },
    Expansion { reason: Seq<char> },
}

impl View for Error {
    type V = ErrorView;

    open spec fn view(&self) -> ErrorView {
        match self {
            Error::UnsupportedTarget { os, env } => ErrorView::UnsupportedTarget {
                os: os@,
                env: env@,
            },
            Error::Expansion { reason } => ErrorView::Expansion { reason: reason@ },
        }
    }
}

/// The sentence that reports an error.
pub open spec fn message_of(e: ErrorView) -> Seq<char> {
    match e {
        ErrorView::UnsupportedTarget { os, env } => "The target "@ + os + "-"@ + env
            + " is not supported yet"@,
        ErrorView::Expansion { reason } => reason,
    }
}

impl Error {
    /// The sentence that reports this error.
    pub fn message(&self) -> (r: String)
        ensures
            r@ == message_of(self@),
    {
        match self {
            Error::UnsupportedTarget { os, env } => {
                let mut text = String::from_str("The target ");
                text.append(os.as_str());
                text.append("-");
                text.append(env.as_str());
                text.append(" is not supported yet");
                text
            },
            Error::Expansion { reason } => reason.clone(),
        }
    }
}

} // verus!
