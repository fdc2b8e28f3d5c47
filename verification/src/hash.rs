//! SHA-256 fingerprints in lower-case hexadecimal.

use sha2::{Digest, Sha256};
use vstd::prelude::*;
use vstd::string::*;
use crate::text::{is_lower_hex_char, lower_hex};

verus! {

broadcast use vstd::string::group_string_axioms;

/// The SHA-256 digest of a sequence of bytes.
pub uninterp spec fn sha256_digest(source: Seq<u8>) -> Seq<u8>;

/// Calls `sha2::Sha256::digest`. The digest is a function of the bytes alone and has 32 bytes;
/// which bytes is left to that function.
#[verifier::external_body]
fn sha256(source: &[u8]) -> (digest: Vec<u8>)
    ensures
        digest@ == sha256_digest(source@),
        digest@.len() == 32,
{
    Sha256::digest(source).to_vec()
}

/// The hexadecimal character of a number below 16.
pub open spec fn hex_char(nibble: int) -> char {
    if nibble < 10 {
        ('0' as int + nibble) as char
    } else {
        ('a' as int + nibble - 10) as char
    }
}

/// Two hexadecimal characters per byte, the high half first.
pub open spec fn hex_text(bytes: Seq<u8>) -> Seq<char>
    decreases bytes.len(),
{
    if bytes.len() == 0 {
        Seq::empty()
    } else {
        hex_text(bytes.drop_last()).push(hex_char(bytes.last() as int / 16)).push(
            hex_char(bytes.last() as int % 16),
        )
    }
}

/// The fingerprint of a sequence of bytes.
pub open spec fn fingerprint(source: Seq<u8>) -> Seq<char> {
    hex_text(sha256_digest(source))
}

fn nibble_text(nibble: u8) -> (text: &'static str)
    requires
        nibble < 16,
    ensures
        text@ == seq![hex_char(nibble as int)],
{
    proof {
        reveal_strlit("0");
        reveal_strlit("1");
        reveal_strlit("2");
        reveal_strlit("3");
        reveal_strlit("4");
        reveal_strlit("5");
        reveal_strlit("6");
        reveal_strlit("7");
        reveal_strlit("8");
        reveal_strlit("9");
        reveal_strlit("a");
        reveal_strlit("b");
        reveal_strlit("c");
        reveal_strlit("d");
        reveal_strlit("e");
        reveal_strlit("f");
    }
    let text = match nibble {
        0 => "0",
        1 => "1",
        2 => "2",
        3 => "3",
        4 => "4",
        5 => "5",
        6 => "6",
        7 => "7",
        8 => "8",
        9 => "9",
        10 => "a",
        11 => "b",
        12 => "c",
        13 => "d",
        14 => "e",
        _ => "f",
    };
    assert(text@ =~= seq![hex_char(nibble as int)]);
    text
}

/// Spells bytes in hexadecimal.
pub fn hex(bytes: &Vec<u8>) -> (text: String)
    ensures
        text@ == hex_text(bytes@),
{
    let mut text = String::new();
    let mut i: usize = 0;
    assert(bytes@.take(0) =~= Seq::<u8>::empty());
    while i < bytes.len()
        invariant
            i <= bytes.len(),
            text@ == hex_text(bytes@.take(i as int)),
        decreases bytes.len() - i,
    {
        proof {
            let longer = bytes@.take(i + 1);
            assert(longer.drop_last() =~= bytes@.take(i as int));
            assert(longer.last() == bytes@[i as int]);
        }
        text.append(nibble_text(bytes[i] / 16));
        text.append(nibble_text(bytes[i] % 16));
        i = i + 1;
        assert(text@ =~= hex_text(bytes@.take(i as int)));
    }
    assert(bytes@.take(bytes.len() as int) =~= bytes@);
    text
}

/// A hexadecimal text is lower-case hexadecimal, two characters per byte.
pub proof fn hex_text_is_lower_hex(bytes: Seq<u8>)
    ensures
        lower_hex(hex_text(bytes), bytes.len() * 2),
    decreases bytes.len(),
{
    if bytes.len() > 0 {
        hex_text_is_lower_hex(bytes.drop_last());
        let before = hex_text(bytes.drop_last());
        let all = hex_text(bytes);
        assert forall|i: int| 0 <= i < all.len() implies is_lower_hex_char(#[trigger] all[i]) by {
            if i < before.len() {
                assert(all[i] == before[i]);
            }
        }
    }
}

/// Different bytes have different hexadecimal texts.
pub proof fn hex_text_is_injective(left: Seq<u8>, right: Seq<u8>)
    requires
        hex_text(left) == hex_text(right),
    ensures
        left == right,
    decreases left.len(),
{
    hex_text_is_lower_hex(left);
    hex_text_is_lower_hex(right);
    if left.len() > 0 {
        let a = hex_text(left);
        let b = hex_text(right);
        assert(a.drop_last().drop_last() =~= hex_text(left.drop_last()));
        assert(b.drop_last().drop_last() =~= hex_text(right.drop_last()));
        hex_text_is_injective(left.drop_last(), right.drop_last());
        assert(a[a.len() - 1] == b[b.len() - 1]);
        assert(a[a.len() - 2] == b[b.len() - 2]);
        assert(left.last() == right.last());
        assert(left =~= left.drop_last().push(left.last()));
        assert(right =~= right.drop_last().push(right.last()));
    } else {
        assert(left =~= right);
    }
}

/// Fingerprints a sequence of bytes.
pub fn sha256_hex(source: &[u8]) -> (text: String)
    ensures
        text@ == fingerprint(source@),
        lower_hex(text@, 64),
{
    let digest = sha256(source);
    proof {
        hex_text_is_lower_hex(digest@);
    }
    hex(&digest)
}

} // verus!
