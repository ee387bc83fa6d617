//! What the service that shares courses answers: a course as text in base64.
use base64::engine::general_purpose;
use base64::Engine;
use vstd::prelude::*;

verus! {

/// Why a text is not base64: the reasons that the crate `base64` tells
/// apart.
#[derive(Clone, Copy, Debug, PartialEq, Eq, Structural)]
pub enum Base64Error {
    /// The byte at `offset` is no symbol of the alphabet.
    InvalidByte { offset: usize, byte: u8 },
    /// The text has a length that no encoded text has.
    InvalidLength,
    /// The last symbol, at `offset`, holds bits that stand for nothing.
    InvalidLastSymbol { offset: usize, byte: u8 },
    /// The padding at the end of the text is missing or wrong.
    InvalidPadding,
}

/// The bytes that a text stands for in base64 with the standard alphabet and
/// padding, as the crate `base64` decodes it, or `None` where the crate
/// refuses the text.
pub uninterp spec fn base64_decoded(text: Seq<char>) -> Option<Seq<u8>>;

/// Calls `decode` of the standard engine of the crate `base64`: the result
/// is what the text stands for, or the reason for which the crate refuses
/// it.
#[verifier::external_body]
fn base64_decode(text: &str) -> (result: Result<Vec<u8>, Base64Error>)
    ensures
        match base64_decoded(text@) {
            Some(bytes) => result matches Ok(decoded) && decoded@ == bytes,
            None => result is Err,
        },
{
    match general_purpose::STANDARD.decode(text) {
        Ok(bytes) => Ok(bytes),
        Err(base64::DecodeError::InvalidByte(offset, byte)) => Err(
            Base64Error::InvalidByte { offset, byte },
        ),
        Err(base64::DecodeError::InvalidLength) => Err(Base64Error::InvalidLength),
        Err(base64::DecodeError::InvalidLastSymbol(offset, byte)) => Err(
            Base64Error::InvalidLastSymbol { offset, byte },
        ),
        Err(base64::DecodeError::InvalidPadding) => Err(Base64Error::InvalidPadding),
    }
}

/// Why an answer of the service holds no course.
#[derive(Clone, Copy, Debug, PartialEq, Eq, Structural)]
pub enum Error {
    /// The text of the answer is not base64.
    Base64DecodeError { source: Base64Error },
}

/// Who shared a course.
#[derive(Clone, Copy, Debug, PartialEq, Eq, Structural)]
pub enum SharingCourseType {
    User,
    Editorial,
}

/// The answer of the service to a request for a course.
#[derive(Debug)]
pub struct CourseDownloadResponse {
    pub course_type: SharingCourseType,
    /// The saved course as text in base64.
    pub course_bytes: String,
}

impl CourseDownloadResponse {
    /// The bytes of the saved course.
    pub fn decode_base64_file(&self) -> (result: Result<Vec<u8>, Error>)
        ensures
            match base64_decoded(self.course_bytes@) {
                Some(bytes) => result matches Ok(decoded) && decoded@ == bytes,
                None => result is Err,
            },
    {
        match base64_decode(self.course_bytes.as_str()) {
            Ok(bytes) => Ok(bytes),
            Err(source) => Err(Error::Base64DecodeError { source }),
        }
    }
}

} // verus!
