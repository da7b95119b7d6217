//! The character mapper: one token byte to a small integer code.
//!
//! A token is read as raw bytes. Each byte is folded to lower case with ASCII
//! rules and then looked up in a fixed table. Bytes the table does not know
//! get the code 0; that is never an error.

use vstd::prelude::*;

verus! {

/// The largest code the mapper produces (the code of `z`).
pub const MAX_CODE: u32 = 36;

/// ASCII case folding of one byte: `A`-`Z` become `a`-`z`, every other byte
/// is left as it is.
pub open spec fn ascii_lower(b: u8) -> u8 {
    if 0x41 <= b <= 0x5A {
        (b + 32) as u8
    } else {
        b
    }
}

/// The ASCII upper-case transform of one byte: `a`-`z` become `A`-`Z`, every
/// other byte is left as it is.
pub open spec fn ascii_upper(b: u8) -> u8 {
    if 0x61 <= b <= 0x7A {
        (b - 32) as u8
    } else {
        b
    }
}

/// The mapping table, for a byte that has already been case folded:
/// `0`-`9` give 1-10, `a`-`z` give 11-36, and every other byte, `-` among
/// them, gives 0.
pub open spec fn table_code(b: u8) -> u32 {
    if 0x30 <= b <= 0x39 {
        (b - 47) as u32
    } else if 0x61 <= b <= 0x7A {
        (b - 86) as u32
    } else {
        0
    }
}

/// The code of one raw token byte: fold, then look up.
pub open spec fn byte_code(b: u8) -> u32 {
    table_code(ascii_lower(b))
}

/// The codes of a whole token, one per byte and in the token's order.
pub open spec fn token_codes(bytes: Seq<u8>) -> Seq<u32> {
    Seq::new(bytes.len(), |i: int| byte_code(bytes[i]))
}

/// A token with every byte put through the ASCII upper-case transform.
pub open spec fn upper_token(bytes: Seq<u8>) -> Seq<u8> {
    Seq::new(bytes.len(), |i: int| ascii_upper(bytes[i]))
}

/// Folds one byte to lower case.
pub fn fold_byte(b: u8) -> (folded: u8)
    ensures
        folded == ascii_lower(b),
{
    if 0x41 <= b && b <= 0x5A {
        b + 32
    } else {
        b
    }
}

/// Looks one case-folded byte up in the mapping table.
pub fn mapped_code(b: u8) -> (code: u32)
    ensures
        code == table_code(b),
        code <= MAX_CODE,
{
    if 0x30 <= b && b <= 0x39 {
        (b - 47) as u32
    } else if 0x61 <= b && b <= 0x7A {
        (b - 86) as u32
    } else {
        0
    }
}

/// Maps a whole token: every byte is folded and looked up, and the codes come
/// back in the order of the bytes.
pub fn map_token(bytes: &[u8]) -> (codes: Vec<u32>)
    ensures
        codes@ == token_codes(bytes@),
{
    let mut codes: Vec<u32> = Vec::new();
    let mut i: usize = 0;
    while i < bytes.len()
        invariant
            i <= bytes.len(),
            codes@ == token_codes(bytes@.take(i as int)),
        decreases bytes.len() - i,
    {
        let code: u32 = mapped_code(fold_byte(bytes[i]));
        codes.push(code);
        i += 1;
        assert(codes@ =~= token_codes(bytes@.take(i as int)));
    }
    assert(bytes@.take(i as int) =~= bytes@);
    codes
}

/// Every code lies in the table's range, whatever the byte.
pub proof fn lemma_code_in_range(b: u8)
    ensures
        byte_code(b) <= MAX_CODE,
        byte_code(b) == 0 || (1 <= byte_code(b) <= 10) || (11 <= byte_code(b) <= 36),
{
}

/// A byte and its upper-case transform fold to the same lower-case byte, so
/// they get the same code.
pub proof fn lemma_upper_same_code(b: u8)
    ensures
        ascii_lower(ascii_upper(b)) == ascii_lower(b),
        byte_code(ascii_upper(b)) == byte_code(b),
{
}

/// Case invariance of the mapper: a token and its upper-case transform have
/// identical codes.
pub proof fn lemma_upper_same_codes(bytes: Seq<u8>)
    ensures
        token_codes(upper_token(bytes)) == token_codes(bytes),
{
    assert forall|i: int| 0 <= i < bytes.len() implies byte_code(upper_token(bytes)[i])
        == byte_code(bytes[i]) by {
        lemma_upper_same_code(bytes[i]);
    }
    assert(token_codes(upper_token(bytes)) =~= token_codes(bytes));
}

} // verus!
