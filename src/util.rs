//! Fixed-size buffers that the native layer expects.

use vstd::prelude::*;
use vstd::string::StringSliceAdditionalSpecFns;

verus! {

/// Size of the native connection-string buffer.
pub const CONNSTRING_LEN: usize = 1024;

/// The connection-string buffer for `s`: its first `CONNSTRING_LEN` bytes,
/// the rest zero.
pub open spec fn connstring_buffer(s: Seq<u8>) -> Seq<u8> {
    Seq::new(
        CONNSTRING_LEN as nat,
        |i: int|
            if i < s.len() {
                s[i]
            } else {
                0u8
            },
    )
}

/// Copies a connection string into the fixed-size buffer that the native
/// open call reads; longer strings are cut to the buffer's size.
pub fn str_to_connarr(connstring: &str) -> (r: [u8; 1024])
    ensures
        r@ == connstring_buffer(connstring.spec_bytes()),
        r@.len() == CONNSTRING_LEN,
        forall|i: int|
            0 <= i < CONNSTRING_LEN && i < connstring.spec_bytes().len() ==> r@[i]
                == connstring.spec_bytes()[i],
{
    let bytes = connstring.as_bytes();
    let end: usize = if bytes.len() < CONNSTRING_LEN {
        bytes.len()
    } else {
        CONNSTRING_LEN
    };
    let mut connarr: [u8; 1024] = [0u8; 1024];
    let mut i: usize = 0;
    while i < end
        invariant
            end <= CONNSTRING_LEN,
            end <= bytes@.len(),
            end == bytes@.len() || end == CONNSTRING_LEN,
            bytes@ == connstring.spec_bytes(),
            i <= end,
            connarr@.len() == CONNSTRING_LEN,
            forall|k: int| 0 <= k < i ==> connarr@[k] == bytes@[k],
            forall|k: int| i <= k < CONNSTRING_LEN ==> connarr@[k] == 0u8,
        decreases end - i,
    {
        connarr[i] = bytes[i];
        i = i + 1;
    }
    assert(connarr@ =~= connstring_buffer(connstring.spec_bytes()));
    connarr
}

} // verus!
