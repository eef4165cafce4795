//! Syntactic validation of ZEC destination addresses.
//!
//! A withdrawal destination must look like a testnet shielded address: it
//! must start with the literal prefix `ztestsapling1` and be at least 78
//! bytes long.  This is a sanity check only, not a checksum validation.

use vstd::prelude::*;

verus! {

/// The required address prefix, as UTF-8 bytes: `ztestsapling1`.
pub open spec fn zec_address_prefix() -> Seq<u8> {
    seq![122u8, 116u8, 101u8, 115u8, 116u8, 115u8, 97u8, 112u8, 108u8, 105u8, 110u8, 103u8, 49u8]
}

/// The least number of bytes a destination address may have.
pub open spec fn zec_address_min_len() -> int {
    78
}

/// A destination address passes the syntactic check when its UTF-8 encoding
/// is at least 78 bytes long and starts with the bytes of `ztestsapling1`.
pub open spec fn valid_zec_address(addr: Seq<char>) -> bool {
    let bytes = vstd::utf8::encode_utf8(addr);
    &&& bytes.len() >= zec_address_min_len()
    &&& bytes.subrange(0, zec_address_prefix().len() as int) == zec_address_prefix()
}

/// Decides `valid_zec_address` on a real string: length check, then a
/// byte-by-byte comparison against the required prefix.
pub fn is_valid_zec_address(addr: &str) -> (r: bool)
    ensures
        r == valid_zec_address(addr@),
{
    let bytes: &[u8] = addr.as_bytes();
    if bytes.len() < 78 {
        return false;
    }
    let prefix: [u8; 13] = [122, 116, 101, 115, 116, 115, 97, 112, 108, 105, 110, 103, 49];
    proof {
        assert(prefix@ =~= zec_address_prefix());
    }
    let mut i: usize = 0;
    while i < 13
        invariant
            0 <= i <= 13,
            bytes@.len() >= 78,
            bytes@ == vstd::utf8::encode_utf8(addr@),
            prefix@ == zec_address_prefix(),
            forall|j: int| 0 <= j < i ==> bytes@[j] == zec_address_prefix()[j],
        decreases 13 - i,
    {
        if bytes[i] != prefix[i] {
            proof {
                assert(vstd::utf8::encode_utf8(addr@).subrange(0, 13)[i as int]
                    != zec_address_prefix()[i as int]);
            }
            return false;
        }
        i += 1;
    }
    proof {
        assert(vstd::utf8::encode_utf8(addr@).subrange(0, 13) =~= zec_address_prefix());
    }
    true
}

} // verus!
