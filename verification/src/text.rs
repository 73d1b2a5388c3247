//! UTF-8 string interchange with the foreign string type.
//!
//! The foreign runtime exchanges strings as byte-pointer/length pairs:
//! a host string is handed over as its UTF-8 bytes, and a returned foreign
//! string is read back as raw bytes that must be validated as UTF-8. The
//! encoding and decoding here are specified against vstd's UTF-8 model, and
//! the round trip is proven identity-preserving for every host string.

use vstd::prelude::*;
use vstd::slice::slice_to_vec;
use vstd::string::StrSliceExecFns;
use vstd::utf8::{
    decode_utf8, decode_utf8_encode_utf8, encode_utf8, encode_utf8_decode_utf8,
    encode_utf8_valid_utf8, valid_utf8,
};

use crate::handle::Handle;
use crate::runtime::{ObjectData, Runtime};

verus! {

/// The UTF-8 bytes of a host string, as handed to the foreign runtime
/// when a foreign string object is created from it.
pub fn encode_text(s: &str) -> (bytes: Vec<u8>)
    ensures
        bytes@ == encode_utf8(s@),
{
    s.as_bytes_vec()
}

/// Relies on `String::from_utf8` of std: it returns a string holding
/// exactly the given bytes when they are valid UTF-8, and an error
/// otherwise. vstd's `valid_utf8` and `decode_utf8` define the same
/// encoding scheme.
#[verifier::external_body]
pub(crate) fn bytes_into_string(bytes: Vec<u8>) -> (r: Option<String>)
    ensures
        r is Some <==> valid_utf8(bytes@),
        r matches Some(s) ==> s@ == decode_utf8(bytes@),
{
    String::from_utf8(bytes).ok()
}

/// Reads a byte buffer handed back by the foreign runtime as a host
/// string: the decoded string when the bytes are valid UTF-8, and `None`
/// otherwise.
pub fn decode_text(bytes: Vec<u8>) -> (r: Option<String>)
    ensures
        r is Some <==> valid_utf8(bytes@),
        r matches Some(s) ==> s@ == decode_utf8(bytes@),
{
    bytes_into_string(bytes)
}

/// Round trip, host side: the UTF-8 encoding of any host string is valid
/// UTF-8 and decodes back to exactly that string — including the empty
/// string and strings whose characters take several bytes each.
pub proof fn lemma_text_round_trip(s: Seq<char>)
    ensures
        valid_utf8(encode_utf8(s)),
        decode_utf8(encode_utf8(s)) == s,
{
    encode_utf8_valid_utf8(s);
    encode_utf8_decode_utf8(s);
}

/// Round trip, foreign side: re-encoding the string decoded from any
/// valid UTF-8 byte buffer yields exactly the original bytes.
pub proof fn lemma_foreign_text_round_trip(bytes: Seq<u8>)
    requires
        valid_utf8(bytes),
    ensures
        encode_utf8(decode_utf8(bytes)) == bytes,
{
    decode_utf8_encode_utf8(bytes);
}

impl Runtime {
    /// Allocates a foreign string object holding the UTF-8 bytes of the
    /// given host string, with one retain attributed to the returned
    /// handle — the model of creating a foreign string from raw bytes.
    pub fn new_string_object(&mut self, s: &str) -> (h: Handle)
        requires
            old(self).wf(),
            old(self).object_count() < usize::MAX,
        ensures
            final(self).wf(),
            h.wf(),
            final(self).is_live(h.reference()),
            h.reference() == old(self).object_count() + 1,
            final(self).object_count() == old(self).object_count() + 1,
            final(self).count_of(h.reference()) == 1,
            final(self).data_of(h.reference()) matches ObjectData::Text { bytes } && bytes@
                == encode_utf8(s@),
            forall|q: usize|
                old(self).in_range(q) ==> final(self).count_of(q) == old(self).count_of(q),
            forall|q: usize|
                old(self).in_range(q) ==> final(self).data_of(q) == old(self).data_of(q),
    {
        let bytes = encode_text(s);
        let r = self.allocate(ObjectData::Text { bytes });
        Handle::wrap(r)
    }

    /// Reads a foreign string object back as a host string, validating
    /// UTF-8 — the model of reading a byte-pointer/length pair from the
    /// foreign string and decoding it.
    pub fn read_string_object(&self, h: &Handle) -> (r: Option<String>)
        requires
            self.wf(),
            self.is_live(h.reference()),
            self.data_of(h.reference()) is Text,
        ensures
            r is Some <==> valid_utf8(self.data_of(h.reference())->bytes@),
            r matches Some(s) ==> s@ == decode_utf8(self.data_of(h.reference())->bytes@),
    {
        let entry = self.data_entry(h.unwrap_reference());
        match entry {
            ObjectData::Text { bytes } => decode_text(slice_to_vec(bytes.as_slice())),
            _ => {
                proof {
                    assert(false);
                }
                None
            },
        }
    }
}

} // verus!
