//! Container pages as the framer hands them out: a header and a body, both
//! plain bytes.

use vstd::prelude::*;

verus! {

/// Length of the fixed part of a page header. Every page header is at least
/// this long; the segment table follows.
pub const HEADER_FIXED_LEN: usize = 27;

/// Offset of the flag byte within a page header.
pub const FLAGS_OFFSET: usize = 5;

/// Bit of the flag byte that marks the last page of a logical stream.
pub const FLAG_END_OF_STREAM: u8 = 0x04;

/// The mathematical content of a [`Page`].
pub struct PageView {
    pub header: Seq<u8>,
    pub body: Seq<u8>,
}

impl PageView {
    /// A header long enough to hold the fixed fields.
    pub open spec fn valid(self) -> bool {
        self.header.len() >= HEADER_FIXED_LEN
    }

    /// The page as it stands in the stream: the header, then the body.
    pub open spec fn bytes(self) -> Seq<u8> {
        self.header + self.body
    }

    /// Number of bytes the page takes in the stream.
    pub open spec fn len(self) -> nat {
        self.header.len() + self.body.len()
    }

    /// Whether the header's flag byte marks the end of the stream.
    pub open spec fn end_of_stream(self) -> bool {
        self.header[FLAGS_OFFSET as int] & FLAG_END_OF_STREAM != 0
    }
}

/// One page of the container, owned.
#[derive(Debug)]
pub struct Page {
    header: Vec<u8>,
    body: Vec<u8>,
}

impl View for Page {
    type V = PageView;

    closed spec fn view(&self) -> PageView {
        PageView { header: self.header@, body: self.body@ }
    }
}

impl Page {
    #[verifier::type_invariant]
    spec fn well_formed(self) -> bool {
        self.header@.len() >= HEADER_FIXED_LEN
    }

    /// Takes a header and a body as the framer produced them. A header too
    /// short to hold the fixed fields is no page.
    pub fn new(header: Vec<u8>, body: Vec<u8>) -> (page: Option<Page>)
        ensures
            page is Some <==> header@.len() >= HEADER_FIXED_LEN,
            page matches Some(p) ==> p@.header == header@ && p@.body == body@ && p@.valid(),
    {
        if header.len() >= HEADER_FIXED_LEN {
            Some(Page { header, body })
        } else {
            None
        }
    }

    /// The header bytes.
    pub fn header(&self) -> (h: &[u8])
        ensures
            self@.valid(),
            h@ == self@.header,
    {
        proof {
            use_type_invariant(self);
        }
        self.header.as_slice()
    }

    /// The body bytes.
    pub fn body(&self) -> (b: &[u8])
        ensures
            b@ == self@.body,
    {
        self.body.as_slice()
    }

    /// Whether this is the last page of its stream.
    pub fn is_end_of_stream(&self) -> (last: bool)
        ensures
            self@.valid(),
            last == self@.end_of_stream(),
    {
        proof {
            use_type_invariant(self);
        }
        self.header[FLAGS_OFFSET] & FLAG_END_OF_STREAM != 0
    }

    /// The page as one run of bytes, header first.
    pub fn to_bytes(&self) -> (bytes: Vec<u8>)
        ensures
            self@.valid(),
            bytes@ == self@.bytes(),
            bytes@.len() == self@.len(),
    {
        proof {
            use_type_invariant(self);
        }
        let mut bytes: Vec<u8> = Vec::with_capacity(self.header.len());
        bytes.extend_from_slice(self.header.as_slice());
        bytes.extend_from_slice(self.body.as_slice());
        assert(bytes@ =~= self@.bytes());
        bytes
    }
}

} // verus!
