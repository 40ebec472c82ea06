//! The uniform error taxonomy that every operation reports through.

use vstd::prelude::*;
use vstd::string::*;

verus! {

/// The categories of error that a caller can be told of.
#[derive(Clone, Copy, Debug, PartialEq, Eq, Structural)]
pub enum Category {
    PayloadTooLarge,
    UnsupportedMediaType,
    BadRequest,
    ServerError,
    Unknown,
}

impl Category {
    /// The HTTP status that stands for the category.
    pub open spec fn spec_status_code(&self) -> u16 {
        match self {
            Category::PayloadTooLarge => 413,
            Category::UnsupportedMediaType => 415,
            Category::BadRequest => 400,
            Category::ServerError => 500,
            Category::Unknown => 500,
        }
    }

    /// The words that open the message of an error of the category.
    pub open spec fn spec_title(&self) -> Seq<char> {
        match self {
            Category::PayloadTooLarge => "Payload Too Large"@,
            Category::UnsupportedMediaType => "Unsupported Media Type"@,
            Category::BadRequest => "Bad Request"@,
            Category::ServerError => "Internal Server Error"@,
            Category::Unknown => "Unknown Error"@,
        }
    }

    #[verifier::when_used_as_spec(spec_status_code)]
    pub fn status_code(&self) -> (code: u16)
        ensures
            code == self.spec_status_code(),
    {
        match self {
            Category::PayloadTooLarge => 413,
            Category::UnsupportedMediaType => 415,
            Category::BadRequest => 400,
            Category::ServerError => 500,
            Category::Unknown => 500,
        }
    }

    pub fn title(&self) -> (title: &'static str)
        ensures
            title@ == self.spec_title(),
    {
        match self {
            Category::PayloadTooLarge => "Payload Too Large",
            Category::UnsupportedMediaType => "Unsupported Media Type",
            Category::BadRequest => "Bad Request",
            Category::ServerError => "Internal Server Error",
            Category::Unknown => "Unknown Error",
        }
    }
}

/// An error as the caller of an operation sees it: a category and a
/// human-readable detail.
#[derive(Debug)]
pub enum JsonError {
    PayloadTooLarge(String),
    UnsupportedMediaType(String),
    BadRequest(String),
    ServerError(String),
    Unknown(String),
}

impl JsonError {
    /// The category of the error.
    pub open spec fn spec_category(&self) -> Category {
        match self {
            JsonError::PayloadTooLarge(_) => Category::PayloadTooLarge,
            JsonError::UnsupportedMediaType(_) => Category::UnsupportedMediaType,
            JsonError::BadRequest(_) => Category::BadRequest,
            JsonError::ServerError(_) => Category::ServerError,
            JsonError::Unknown(_) => Category::Unknown,
        }
    }

    /// The detail that the error carries.
    pub open spec fn detail(&self) -> Seq<char> {
        match self {
            JsonError::PayloadTooLarge(msg) => msg@,
            JsonError::UnsupportedMediaType(msg) => msg@,
            JsonError::BadRequest(msg) => msg@,
            JsonError::ServerError(msg) => msg@,
            JsonError::Unknown(msg) => msg@,
        }
    }

    /// Whether the error is of the given category and carries the given
    /// detail.
    pub open spec fn says(&self, category: Category, detail: Seq<char>) -> bool {
        self.spec_category() == category && self.detail() == detail
    }

    /// The HTTP status of the error: that of its category.
    pub open spec fn spec_status_code(&self) -> u16 {
        self.spec_category().spec_status_code()
    }

    /// The message of the error body: the words of the category, a colon and
    /// the detail.
    pub open spec fn spec_message(&self) -> Seq<char> {
        self.spec_category().spec_title() + ": "@ + self.detail()
    }

    #[verifier::when_used_as_spec(spec_category)]
    pub fn category(&self) -> (category: Category)
        ensures
            category == self.spec_category(),
    {
        match self {
            JsonError::PayloadTooLarge(_) => Category::PayloadTooLarge,
            JsonError::UnsupportedMediaType(_) => Category::UnsupportedMediaType,
            JsonError::BadRequest(_) => Category::BadRequest,
            JsonError::ServerError(_) => Category::ServerError,
            JsonError::Unknown(_) => Category::Unknown,
        }
    }

    #[verifier::when_used_as_spec(spec_status_code)]
    pub fn status_code(&self) -> (code: u16)
        ensures
            code == self.spec_status_code(),
    {
        self.category().status_code()
    }

    /// The text that stands for any error where it is written out as such,
    /// whatever its category and detail.
    pub open spec fn spec_display_text() -> Seq<char> {
        "Json Error"@
    }

    /// The text that is written where the error itself is displayed.
    pub fn display_text(&self) -> (text: String)
        ensures
            text@ == Self::spec_display_text(),
    {
        String::from_str("Json Error")
    }

    /// The text that the error body carries under its `error` key.
    pub fn message(&self) -> (text: String)
        ensures
            text@ == self.spec_message(),
    {
        let mut text = String::from_str(self.category().title());
        text.append(": ");
        match self {
            JsonError::PayloadTooLarge(msg) => text.append(msg.as_str()),
            JsonError::UnsupportedMediaType(msg) => text.append(msg.as_str()),
            JsonError::BadRequest(msg) => text.append(msg.as_str()),
            JsonError::ServerError(msg) => text.append(msg.as_str()),
            JsonError::Unknown(msg) => text.append(msg.as_str()),
        }
        text
    }
}

/// Every status is one of the four that the service answers errors with, and
/// the two categories that a caller cannot mend share one.
pub proof fn lemma_status_codes(error: JsonError)
    ensures
        error.spec_status_code() == 413 <==> error is PayloadTooLarge,
        error.spec_status_code() == 415 <==> error is UnsupportedMediaType,
        error.spec_status_code() == 400 <==> error is BadRequest,
        error.spec_status_code() == 500 <==> error is ServerError || error is Unknown,
{
}

} // verus!
