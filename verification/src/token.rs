//! The bearer token that local agents present to the control API.

use vstd::prelude::*;
use vstd::utf8::{encode_utf8, is_ascii_chars, is_ascii_chars_encode_utf8};
use crate::text::{
    digit_char, digit_str, is_unicode_whitespace, trim, trim_end, trim_start, trimmed,
};

verus! {

/// The number of random bytes in a new token.
pub const TOKEN_BYTES: usize = 32;

/// The fewest bytes a stored token must have to be used again.
pub const MIN_TOKEN_LEN: usize = 32;

/// The two lower-case hexadecimal digits of a byte, as `{:02x}` writes it.
pub open spec fn byte_hex(b: u8) -> Seq<char> {
    seq![digit_char((b / 16) as nat), digit_char((b % 16) as nat)]
}

/// The bytes `bs` written as lower-case hexadecimal, two digits per byte.
pub open spec fn hex_bytes(bs: Seq<u8>) -> Seq<char>
    decreases bs.len(),
{
    if bs.len() == 0 {
        Seq::empty()
    } else {
        hex_bytes(bs.drop_last()) + byte_hex(bs.last())
    }
}

/// Writes `bytes` as lower-case hexadecimal, two digits per byte.
pub fn token_hex(bytes: &[u8]) -> (r: String)
    ensures
        r@ == hex_bytes(bytes@),
{
    let mut s = String::new();
    let n = bytes.len();
    let mut i: usize = 0;
    assert(bytes@.take(0) =~= Seq::<u8>::empty());
    while i < n
        invariant
            n == bytes@.len(),
            i <= n,
            s@ == hex_bytes(bytes@.take(i as int)),
        decreases n - i,
    {
        let b = bytes[i];
        s.append(digit_str(b / 16));
        s.append(digit_str(b % 16));
        assert(bytes@.take(i + 1).drop_last() =~= bytes@.take(i as int));
        assert(s@ =~= hex_bytes(bytes@.take(i + 1)));
        i = i + 1;
    }
    assert(bytes@.take(n as int) =~= bytes@);
    s
}

/// Calls `rand::random` for 32 bytes from the thread-local generator.
/// Nothing is stated of the bytes: they are left to chance.
#[verifier::external_body]
fn random_token_bytes() -> [u8; 32] {
    rand::random::<[u8; 32]>()
}

/// A new token: 32 random bytes written as 64 lower-case hexadecimal digits.
pub fn new_token() -> (r: String)
    ensures
        exists|bytes: Seq<u8>| bytes.len() == TOKEN_BYTES && r@ == hex_bytes(bytes),
        r@.len() == 2 * TOKEN_BYTES,
{
    let bytes = random_token_bytes();
    let r = token_hex(&bytes);
    proof {
        lemma_hex_bytes_len(bytes@);
    }
    r
}

/// The token kept in the token file, read from its contents: the contents
/// without surrounding white space, where that has at least 32 bytes in
/// UTF-8; else none, and a new token is made.
pub open spec fn spec_stored_token(contents: Seq<char>) -> Option<Seq<char>> {
    if encode_utf8(trimmed(contents)).len() >= MIN_TOKEN_LEN {
        Some(trimmed(contents))
    } else {
        None
    }
}

/// The token to use again from the contents of the token file, if any.
pub fn stored_token(contents: &str) -> (r: Option<String>)
    ensures
        match spec_stored_token(contents@) {
            Some(t) => r is Some && r->0@ == t,
            None => r is None,
        },
{
    let t = trim(contents);
    if t.as_bytes().len() >= MIN_TOKEN_LEN {
        Some(t.to_owned())
    } else {
        None
    }
}

/// The hexadecimal text of `n` bytes has `2 * n` characters.
pub proof fn lemma_hex_bytes_len(bs: Seq<u8>)
    ensures
        hex_bytes(bs).len() == 2 * bs.len(),
    decreases bs.len(),
{
    if bs.len() > 0 {
        lemma_hex_bytes_len(bs.drop_last());
    }
}

/// Every character of a hexadecimal text is an ASCII digit or letter a-f.
pub proof fn lemma_hex_bytes_chars(bs: Seq<u8>)
    ensures
        forall|i: int|
            0 <= i < hex_bytes(bs).len() ==> {
                let c = #[trigger] hex_bytes(bs)[i];
                &&& ('0' <= c <= '9' || 'a' <= c <= 'f')
                &&& !is_unicode_whitespace(c)
            },
    decreases bs.len(),
{
    if bs.len() > 0 {
        lemma_hex_bytes_chars(bs.drop_last());
        lemma_hex_bytes_len(bs.drop_last());
        let prev = hex_bytes(bs.drop_last());
        let b = bs.last();
        assert(hex_bytes(bs) == prev + byte_hex(b));
        assert forall|i: int| 0 <= i < hex_bytes(bs).len() implies {
            let c = #[trigger] hex_bytes(bs)[i];
            &&& ('0' <= c <= '9' || 'a' <= c <= 'f')
            &&& !is_unicode_whitespace(c)
        } by {
            if i >= prev.len() {
                assert(hex_bytes(bs)[i] == byte_hex(b)[i - prev.len()]);
            } else {
                assert(hex_bytes(bs)[i] == prev[i]);
            }
        }
    }
}

proof fn lemma_trim_start_keeps(s: Seq<char>)
    requires
        s.len() == 0 || !is_unicode_whitespace(s[0]),
    ensures
        trim_start(s) == s,
{
}

proof fn lemma_trim_end_keeps(s: Seq<char>)
    requires
        s.len() == 0 || !is_unicode_whitespace(s.last()),
    ensures
        trim_end(s) == s,
{
}

/// A token made by `new_token` is used again when the token file is read
/// back: its text has no surrounding white space and 64 bytes.
pub proof fn lemma_new_token_is_kept(bytes: Seq<u8>)
    requires
        bytes.len() == TOKEN_BYTES,
    ensures
        spec_stored_token(hex_bytes(bytes)) == Some(hex_bytes(bytes)),
{
    let t = hex_bytes(bytes);
    lemma_hex_bytes_len(bytes);
    lemma_hex_bytes_chars(bytes);
    assert(t.len() > 0);
    assert(!is_unicode_whitespace(t[0]));
    assert(!is_unicode_whitespace(t[t.len() - 1]));
    lemma_trim_start_keeps(t);
    lemma_trim_end_keeps(t);
    assert(trimmed(t) == t);
    assert(is_ascii_chars(t)) by {
        assert forall|i: int| 0 <= i < t.len() implies '\0' <= #[trigger] t[i] <= '\u{7f}' by {
            assert('0' <= t[i] <= '9' || 'a' <= t[i] <= 'f');
        }
    }
    is_ascii_chars_encode_utf8(t);
}

} // verus!
