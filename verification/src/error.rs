use vstd::prelude::*;

verus! {

/// Everything that can go wrong while loading, setting up or talking to the shop.
#[derive(Debug)]
pub enum AppError {
    /// The configuration file could not be read; holds its path.
    ConfigNotFound(String),
    /// A configured value cannot be sent as an HTTP header; holds the value.
    InvalidHeader(String),
    /// A pay type that is neither Alipay nor WeChat; holds the text as given.
    InvalidPayType(String),
    /// The setup wizard failed; holds the reason.
    Setup(String),
    /// The HTTP layer failed; holds its message.
    Http(String),
    /// A JSON document could not be read or written; holds the parser's message.
    Json(String),
}

pub type AppResult<T> = Result<T, AppError>;

} // verus!
