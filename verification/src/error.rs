//! What can go wrong when a Pal is looked up, and how it is told to the user.

use vstd::prelude::*;

verus! {

/// The ways a lookup of a Pal fails.
#[derive(Debug, Clone, PartialEq)]
pub enum PalError {
    /// No Pal goes by the name that was asked for.
    NoPalFound(String),
    /// The request did not get through, or the body could not be read; the
    /// text is that of the transport's error.
    Reqwest(String),
    /// The upstream service answered 401: its credential must be renewed.
    TokenExpired,
    /// The upstream service answered well, with no record in the answer.
    MissingContent,
    /// Anything else; the text says what.
    Unexpected(String),
}

impl PalError {
    /// The message of the error.
    pub open spec fn text(self) -> Seq<char> {
        match self {
            PalError::NoPalFound(name) => "No Pal named `"@ + name@ + "` was found"@,
            PalError::Reqwest(cause) => "Error fetching from API: `"@ + cause@ + "`"@,
            PalError::TokenExpired => "Discord token is expired"@,
            PalError::MissingContent => "Missing content in response from API"@,
            PalError::Unexpected(cause) => "Unexpected error: `"@ + cause@ + "`"@,
        }
    }

    /// Whether the error goes to the log: every error does but a name that
    /// was not found, which is the user's to correct.
    pub open spec fn logged(self) -> bool {
        !(self is NoPalFound)
    }

    /// What the user is told of the error.
    pub open spec fn reply_text(self) -> Seq<char> {
        "**Error**: "@ + self.text()
    }

    /// The message of the error.
    pub fn message(&self) -> (r: String)
        ensures
            r@ == self.text(),
    {
        match self {
            PalError::NoPalFound(name) => {
                let mut r = String::from_str("No Pal named `");
                r.append(name.as_str());
                r.append("` was found");
                r
            },
            PalError::Reqwest(cause) => {
                let mut r = String::from_str("Error fetching from API: `");
                r.append(cause.as_str());
                r.append("`");
                r
            },
            PalError::TokenExpired => String::from_str("Discord token is expired"),
            PalError::MissingContent => String::from_str("Missing content in response from API"),
            PalError::Unexpected(cause) => {
                let mut r = String::from_str("Unexpected error: `");
                r.append(cause.as_str());
                r.append("`");
                r
            },
        }
    }

    /// Whether the error goes to the log.
    pub fn is_logged(&self) -> (b: bool)
        ensures
            b == self.logged(),
    {
        match self {
            PalError::NoPalFound(_) => false,
            _ => true,
        }
    }

    /// What the user is told of the error.
    pub fn reply(&self) -> (r: String)
        ensures
            r@ == self.reply_text(),
    {
        let mut r = String::from_str("**Error**: ");
        let message = self.message();
        r.append(message.as_str());
        r
    }
}

} // verus!
