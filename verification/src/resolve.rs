//! The whole pipeline: token to bucket, to colour, to escape sequence.
//!
//! A token is hashed over the bytes of its UTF-8 encoding, so a character
//! outside ASCII contributes one code, always 0, for each of its bytes.

use crate::escape::{foreground, reset};
use crate::hash::{accumulate, bucket, bucket_index, sum_squares, PALETTE_SIZE};
use crate::mapper::{lemma_upper_same_codes, map_token, token_codes, upper_token};
use crate::palette::ColorHash;
use vstd::prelude::*;
use vstd::string::{StringExecFns, StringSliceAdditionalSpecFns};

verus! {

/// The hash of a token: the sum of the squares of its codes.
pub open spec fn token_sum(bytes: Seq<u8>) -> nat {
    sum_squares(token_codes(bytes))
}

/// The bucket index of a token.
pub open spec fn token_bucket(bytes: Seq<u8>) -> nat {
    bucket(token_sum(bytes))
}

/// The palette entry of a token.
pub open spec fn token_color(bytes: Seq<u8>) -> ColorHash {
    ColorHash::entry(token_bucket(bytes))
}

/// The escape sequence of a token.
pub open spec fn token_escape(bytes: Seq<u8>) -> Seq<char> {
    token_color(bytes).escape()
}

/// A token in its own colour: the escape sequence, the token's text and the
/// reset sequence.
pub open spec fn colorized(token: &str) -> Seq<char> {
    token_escape(token.spec_bytes()) + token@ + reset()
}

/// Computes the bucket index of a token.
pub fn bucket_of(token: &str) -> (index: u32)
    ensures
        index == token_bucket(token.spec_bytes()),
        index < PALETTE_SIZE,
{
    let codes: Vec<u32> = map_token(token.as_bytes());
    bucket_index(accumulate(codes.as_slice()))
}

/// Picks the palette entry of a token.
pub fn color_of(token: &str) -> (color: ColorHash)
    ensures
        color == token_color(token.spec_bytes()),
{
    ColorHash::from(bucket_of(token))
}

/// Resolves a token to the escape sequence of its colour, and nothing else.
pub fn resolve(token: &str) -> (sequence: String)
    ensures
        sequence@ == token_escape(token.spec_bytes()),
{
    color_of(token).code()
}

/// Wraps a token in its colour: the escape sequence, then the token as it
/// was given, then the reset sequence.
pub fn colorize(token: &str) -> (text: String)
    ensures
        text@ == colorized(token),
{
    let mut text: String = resolve(token);
    text.append(token);
    proof {
        reveal_strlit("\u{001b}[0m");
    }
    assert("\u{001b}[0m"@ =~= reset());
    text.append("\u{001b}[0m");
    text
}

/// Every token falls into one of the palette's buckets.
pub proof fn lemma_bucket_in_range(bytes: Seq<u8>)
    ensures
        token_bucket(bytes) < PALETTE_SIZE,
{
}

/// The escape sequence of every token is the foreground sequence of one of the
/// palette's five triples.
pub proof fn lemma_escape_of_palette(bytes: Seq<u8>)
    ensures
        ColorHash::is_palette_triple(token_color(bytes).channels()),
        token_escape(bytes) == foreground(
            token_color(bytes).channels().0,
            token_color(bytes).channels().1,
            token_color(bytes).channels().2,
        ),
{
}

/// The pipeline reads nothing but the token: two tokens with the same text
/// have the same bucket, the same escape sequence and the same wrapped form.
pub proof fn lemma_same_text_same_result(first: &str, second: &str)
    requires
        first@ == second@,
    ensures
        token_bucket(first.spec_bytes()) == token_bucket(second.spec_bytes()),
        token_escape(first.spec_bytes()) == token_escape(second.spec_bytes()),
        colorized(first) == colorized(second),
{
}

/// Case invariance: a token and its ASCII upper-case transform have the same
/// codes, hence the same sum, bucket, colour and escape sequence.
pub proof fn lemma_case_invariant(bytes: Seq<u8>)
    ensures
        token_codes(upper_token(bytes)) == token_codes(bytes),
        token_sum(upper_token(bytes)) == token_sum(bytes),
        token_bucket(upper_token(bytes)) == token_bucket(bytes),
        token_color(upper_token(bytes)) == token_color(bytes),
        token_escape(upper_token(bytes)) == token_escape(bytes),
{
    lemma_upper_same_codes(bytes);
}

} // verus!
