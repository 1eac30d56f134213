//! The errors of the library.

use vstd::prelude::*;
use vstd::string::*;
use crate::text::join2;

verus! {

/// Every way in which an operation of the library, or of the program around
/// it, can fail. A variant that stands for a failure of another component
/// holds that component's own message.
#[derive(Clone, Debug, PartialEq, Eq)]
pub enum BerylliumError {
    /// The file system failed.
    Io(String),
    /// The session store failed.
    CBox(String),
    /// The cipher or the random number generator failed.
    Openssl(String),
    /// A key or a session could not be serialised.
    Encode(String),
    /// A key, a session or a ciphertext could not be read.
    Decode(String),
    /// The HTTP transport failed.
    Hyper(String),
    /// The bytes are no image that can be read.
    Image(String),
    /// A PEM file holds no usable certificate or key.
    PemFileError,
    /// A JSON document could not be read or written.
    Serde(String),
    /// The text is no base64.
    Base64(String),
    /// The bytes are no message.
    Protobuf(String),
    /// The text is no UUID.
    Uuid(String),
    /// There is no session with the device and no prekey to start one from.
    MissingPrekey,
    /// Anything else, with its description.
    Other(String),
    /// The platform sent what it never should.
    Unreachable,
}

pub type BerylliumResult<T> = Result<T, BerylliumError>;

/// What is written in front of the message of each kind of error.
pub open spec fn prefix_of(e: BerylliumError) -> Seq<char> {
    match e {
        BerylliumError::Io(_) => "I/O error: "@,
        BerylliumError::CBox(_) => "Cryptobox error: "@,
        BerylliumError::Openssl(_) => "Openssl error: "@,
        BerylliumError::Encode(_) => "Encode error: "@,
        BerylliumError::Decode(_) => "Decode error: "@,
        BerylliumError::Hyper(_) => "Hyper error: "@,
        BerylliumError::Image(_) => "Image error: "@,
        BerylliumError::PemFileError => "PEM file error"@,
        BerylliumError::Serde(_) => "Serde error: "@,
        BerylliumError::Base64(_) => "Base64 decode error: "@,
        BerylliumError::Protobuf(_) => "Protobuf error: "@,
        BerylliumError::Uuid(_) => "UUID parse error: "@,
        BerylliumError::MissingPrekey => "No session and no prekey for the device"@,
        BerylliumError::Other(_) => "Unknown error: "@,
        BerylliumError::Unreachable => "Entered unreachable code!"@,
    }
}

/// The message that the error carries; empty where it carries none.
pub open spec fn detail_of(e: BerylliumError) -> Seq<char> {
    match e {
        BerylliumError::Io(m) => m@,
        BerylliumError::CBox(m) => m@,
        BerylliumError::Openssl(m) => m@,
        BerylliumError::Encode(m) => m@,
        BerylliumError::Decode(m) => m@,
        BerylliumError::Hyper(m) => m@,
        BerylliumError::Image(m) => m@,
        BerylliumError::Serde(m) => m@,
        BerylliumError::Base64(m) => m@,
        BerylliumError::Protobuf(m) => m@,
        BerylliumError::Uuid(m) => m@,
        BerylliumError::Other(m) => m@,
        BerylliumError::PemFileError => Seq::empty(),
        BerylliumError::MissingPrekey => Seq::empty(),
        BerylliumError::Unreachable => Seq::empty(),
    }
}

/// Whether the error stands for the failure of another component.
pub open spec fn has_cause(e: BerylliumError) -> bool {
    match e {
        BerylliumError::PemFileError => false,
        BerylliumError::MissingPrekey => false,
        BerylliumError::Other(_) => false,
        BerylliumError::Unreachable => false,
        _ => true,
    }
}

fn constant_text(s: &str) -> (r: String)
    ensures
        r@ == s@ + Seq::<char>::empty(),
{
    assert(s@ + Seq::<char>::empty() =~= s@);
    s.to_owned()
}

impl BerylliumError {
    /// The error as one line of text: the kind, then the message.
    pub fn to_text(&self) -> (r: String)
        ensures
            r@ == prefix_of(*self) + detail_of(*self),
    {
        match self {
            BerylliumError::Io(m) => join2("I/O error: ", m.as_str()),
            BerylliumError::CBox(m) => join2("Cryptobox error: ", m.as_str()),
            BerylliumError::Openssl(m) => join2("Openssl error: ", m.as_str()),
            BerylliumError::Encode(m) => join2("Encode error: ", m.as_str()),
            BerylliumError::Decode(m) => join2("Decode error: ", m.as_str()),
            BerylliumError::Hyper(m) => join2("Hyper error: ", m.as_str()),
            BerylliumError::Image(m) => join2("Image error: ", m.as_str()),
            BerylliumError::PemFileError => constant_text("PEM file error"),
            BerylliumError::Serde(m) => join2("Serde error: ", m.as_str()),
            BerylliumError::Base64(m) => join2("Base64 decode error: ", m.as_str()),
            BerylliumError::Protobuf(m) => join2("Protobuf error: ", m.as_str()),
            BerylliumError::Uuid(m) => join2("UUID parse error: ", m.as_str()),
            BerylliumError::MissingPrekey => constant_text(
                "No session and no prekey for the device",
            ),
            BerylliumError::Other(m) => join2("Unknown error: ", m.as_str()),
            BerylliumError::Unreachable => constant_text("Entered unreachable code!"),
        }
    }

    /// The name under which every error of the library goes.
    pub fn description(&self) -> (r: &'static str)
        ensures
            r@ == "BerylliumError"@,
    {
        "BerylliumError"
    }

    /// The message of the component that failed, where the error stands
    /// for such a failure.
    pub fn cause(&self) -> (r: Option<&str>)
        ensures
            r.is_some() == has_cause(*self),
            r matches Some(m) ==> m@ == detail_of(*self),
    {
        match self {
            BerylliumError::Io(m) => Some(m.as_str()),
            BerylliumError::CBox(m) => Some(m.as_str()),
            BerylliumError::Openssl(m) => Some(m.as_str()),
            BerylliumError::Encode(m) => Some(m.as_str()),
            BerylliumError::Decode(m) => Some(m.as_str()),
            BerylliumError::Hyper(m) => Some(m.as_str()),
            BerylliumError::Image(m) => Some(m.as_str()),
            BerylliumError::Serde(m) => Some(m.as_str()),
            BerylliumError::Base64(m) => Some(m.as_str()),
            BerylliumError::Protobuf(m) => Some(m.as_str()),
            BerylliumError::Uuid(m) => Some(m.as_str()),
            _ => None,
        }
    }
}

} // verus!
