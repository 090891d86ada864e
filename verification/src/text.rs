//! Facts about strings and their bytes. The host's storage, and Rust's own
//! string functions, work on the UTF-8 encoding of a string; contracts speak of
//! its characters where they can.

use vstd::prelude::*;
use vstd::string::StringSliceAdditionalSpecFns;
use vstd::utf8::{char_u32_cast, encode_scalar, encode_utf8, encode_utf8_first_scalar};

verus! {

/// The number of bytes in the UTF-8 encoding of `s`.
pub open spec fn utf8_len(s: Seq<char>) -> nat {
    encode_utf8(s).len()
}

/// The prefix that an image address must carry.
pub open spec fn secure_scheme() -> Seq<char> {
    "https://"@
}

/// `s` begins with `https://`.
pub open spec fn has_secure_scheme(s: Seq<char>) -> bool {
    secure_scheme().is_prefix_of(s)
}

/// One string begins with another exactly when its encoding begins with the
/// other's encoding.
pub proof fn prefix_by_bytes(prefix: Seq<char>, s: Seq<char>)
    ensures
        prefix.is_prefix_of(s) <==> encode_utf8(prefix).is_prefix_of(encode_utf8(s)),
    decreases prefix.len(),
{
    let head = encode_utf8(prefix);
    let whole = encode_utf8(s);
    if prefix.len() == 0 {
        assert(prefix =~= s.subrange(0, 0));
        assert(head =~= whole.subrange(0, 0));
    } else if s.len() == 0 {
        encode_utf8_first_scalar(prefix);
    } else {
        let rest = prefix.drop_first();
        let tail = s.drop_first();
        prefix_by_bytes(rest, tail);
        encode_utf8_first_scalar(prefix);
        encode_utf8_first_scalar(s);
        let first = encode_scalar(prefix[0] as u32);
        let other = encode_scalar(s[0] as u32);
        if prefix.is_prefix_of(s) {
            assert(prefix[0] == s.subrange(0, prefix.len() as int)[0]);
            assert(rest =~= tail.subrange(0, rest.len() as int)) by {
                assert forall|i: int| 0 <= i < rest.len() implies rest[i] == tail[i] by {
                    assert(prefix[i + 1] == s.subrange(0, prefix.len() as int)[i + 1]);
                }
            }
            assert(encode_utf8(rest) =~= encode_utf8(tail).subrange(
                0,
                encode_utf8(rest).len() as int,
            ));
            assert(head =~= whole.subrange(0, head.len() as int));
        }
        if head.is_prefix_of(whole) {
            assert forall|i: int| 0 <= i < head.len() implies head[i] == whole[i] by {
                assert(head[i] == whole.subrange(0, head.len() as int)[i]);
            }
            assert(prefix[0] as u32 == s[0] as u32);
            char_u32_cast(prefix[0], prefix[0] as u32);
            char_u32_cast(s[0], s[0] as u32);
            assert(first == other);
            assert(encode_utf8(rest) =~= head.subrange(first.len() as int, head.len() as int));
            assert(encode_utf8(tail) =~= whole.subrange(first.len() as int, whole.len() as int));
            assert(encode_utf8(rest) =~= encode_utf8(tail).subrange(
                0,
                encode_utf8(rest).len() as int,
            ));
            assert(prefix =~= s.subrange(0, prefix.len() as int)) by {
                assert forall|i: int| 0 <= i < prefix.len() implies prefix[i] == s[i] by {
                    if i > 0 {
                        assert(rest[i - 1] == tail.subrange(0, rest.len() as int)[i - 1]);
                    }
                }
            }
        }
    }
}

/// Length of `s` in bytes.
pub fn byte_len(s: &str) -> (n: usize)
    ensures
        n == utf8_len(s@),
{
    s.as_bytes().len()
}

/// Whether `bytes` begins with `prefix`.
pub fn bytes_start_with(bytes: &[u8], prefix: &[u8]) -> (found: bool)
    ensures
        found == prefix@.is_prefix_of(bytes@),
{
    if prefix.len() > bytes.len() {
        return false;
    }
    let mut i: usize = 0;
    while i < prefix.len()
        invariant
            i <= prefix.len() <= bytes.len(),
            forall|j: int| 0 <= j < i ==> prefix@[j] == bytes@[j],
        decreases prefix.len() - i,
    {
        if prefix[i] != bytes[i] {
            assert(bytes@.subrange(0, prefix@.len() as int)[i as int] == bytes@[i as int]);
            return false;
        }
        i += 1;
    }
    assert(prefix@ =~= bytes@.subrange(0, prefix@.len() as int));
    true
}

/// Whether `image` is an `https://` address.
pub fn is_secure_address(image: &str) -> (secure: bool)
    ensures
        secure == has_secure_scheme(image@),
{
    proof {
        prefix_by_bytes(secure_scheme(), image@);
    }
    bytes_start_with(image.as_bytes(), "https://".as_bytes())
}

} // verus!
