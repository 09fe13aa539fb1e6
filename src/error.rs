//! The library's error type, and the outside error types that it carries.

use vstd::prelude::*;

verus! {

#[verifier::external_type_specification]
#[verifier::external_body]
pub struct ExUrlParseError(url::ParseError);

#[verifier::external_type_specification]
#[verifier::external_body]
pub struct ExParseIntError(core::num::ParseIntError);

#[verifier::external_type_specification]
#[verifier::external_body]
pub struct ExJsonError(serde_json::Error);

#[verifier::external_type_specification]
#[verifier::external_body]
pub struct ExRequestError(reqwest::Error);

#[verifier::external_type_specification]
#[verifier::external_body]
pub struct ExZipError(zip::result::ZipError);

#[verifier::external_type_specification]
#[verifier::external_body]
pub struct ExIoError(std::io::Error);

/// Everything that can end a download.
#[derive(Debug)]
pub enum BiliMangaError {
    /// The comic URL is not a well-formed URL.
    ParseUrlError(url::ParseError),
    /// The last path segment of the comic URL is not a decimal integer.
    ParseIntError(core::num::ParseIntError),
    /// A JSON body could not be read or written.
    ParseJsonError(serde_json::Error),
    /// The transport failed.
    RequestError(reqwest::Error),
    /// The service answered with a non-zero code and this message.
    CustomError(String),
    /// The manifest archive could not be opened or read.
    ZipError(zip::result::ZipError),
    /// A file system operation failed.
    IoError(std::io::Error),
    /// A successful answer carried no data.
    MissingData,
    /// The encrypted manifest is shorter than its preamble.
    TruncatedIndex,
    /// An episode's download was told of a step that it did not ask for.
    UnexpectedEvent,
}

} // verus!
