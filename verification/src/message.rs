use vstd::prelude::*;

verus! {

/// An HTTP protocol version tag. The adapter never interprets it; it is
/// carried through from the transport unchanged.
#[derive(Clone, Copy, Debug, PartialEq, Eq, Structural)]
pub enum Version {
    Http09,
    Http10,
    Http11,
    H2,
    H3,
}

/// One header field: a name and a value, both as raw bytes.
#[derive(Clone, Debug, PartialEq, Eq)]
pub struct Header {
    pub name: Vec<u8>,
    pub value: Vec<u8>,
}

/// The head of an HTTP response: status, version and headers, without
/// the body. This is everything the adapter must surface verbatim.
#[derive(Clone, Debug, PartialEq, Eq)]
pub struct ResponseHead {
    pub status: u16,
    pub version: Version,
    pub headers: Vec<Header>,
}

} // verus!
