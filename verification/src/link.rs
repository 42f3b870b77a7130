//! Link codes: the opaque 8-character tokens that deep-link to a user.
//!
//! A code is sampled uniformly from a fixed unambiguous alphabet: the
//! lowercase letters without `i`, `l` and `o`, and the digits `2` through
//! `9` (31 characters in all).

use vstd::prelude::*;

verus! {

/// Number of characters in a link code.
pub const CODE_LEN: usize = 8;

/// Number of characters in the sampling alphabet.
pub const ALPHABET_LEN: usize = 31;

/// True of the characters a link code may contain: lowercase letters other
/// than the confusable `i`, `l`, `o`, and the digits `2` through `9`.
pub open spec fn is_code_char(c: char) -> bool {
    ||| (('a' as u32) <= (c as u32) && (c as u32) <= ('z' as u32) && c != 'i' && c != 'l' && c != 'o')
    ||| (('2' as u32) <= (c as u32) && (c as u32) <= ('9' as u32))
}

/// True of well-formed link codes: exactly eight characters, all drawn from
/// the code alphabet.
pub open spec fn valid_code(s: Seq<char>) -> bool {
    &&& s.len() == CODE_LEN
    &&& forall|i: int| 0 <= i < s.len() ==> is_code_char(#[trigger] s[i])
}

/// Relies on `rand::Rng::gen_range` (via `rand::thread_rng`): the sampled
/// value lies in the half-open range `0..bound`; the call panics only on an
/// empty range, which the precondition excludes.
#[verifier::external_body]
fn random_index(bound: usize) -> (r: usize)
    requires
        0 < bound,
    ensures
        r < bound,
{
    rand::Rng::gen_range(&mut rand::thread_rng(), 0..bound)
}

/// Relies on `String::push`: appends the given character to the end of the
/// string.
#[verifier::external_body]
fn push_char(s: &mut String, c: char)
    ensures
        final(s)@ == old(s)@.push(c),
{
    s.push(c)
}

/// The character of the code alphabet at a given position.
fn code_char(idx: usize) -> (c: char)
    requires
        idx < ALPHABET_LEN,
    ensures
        is_code_char(c),
{
    match idx {
        0 => 'a',
        1 => 'b',
        2 => 'c',
        3 => 'd',
        4 => 'e',
        5 => 'f',
        6 => 'g',
        7 => 'h',
        8 => 'j',
        9 => 'k',
        10 => 'm',
        11 => 'n',
        12 => 'p',
        13 => 'q',
        14 => 'r',
        15 => 's',
        16 => 't',
        17 => 'u',
        18 => 'v',
        19 => 'w',
        20 => 'x',
        21 => 'y',
        22 => 'z',
        23 => '2',
        24 => '3',
        25 => '4',
        26 => '5',
        27 => '6',
        28 => '7',
        29 => '8',
        _ => '9',
    }
}

/// Samples a fresh candidate link code: eight characters drawn uniformly
/// from the code alphabet.
pub fn sample_code() -> (r: String)
    ensures
        valid_code(r@),
{
    let mut code = String::new();
    let mut n: usize = 0;
    while n < CODE_LEN
        invariant
            n <= CODE_LEN,
            code@.len() == n,
            forall|i: int| 0 <= i < code@.len() ==> is_code_char(#[trigger] code@[i]),
        decreases CODE_LEN - n,
    {
        let idx = random_index(ALPHABET_LEN);
        let c = code_char(idx);
        push_char(&mut code, c);
        n = n + 1;
    }
    code
}

/// A user's issued link code.
#[derive(Clone, Debug)]
pub struct UserLink(pub String);

impl UserLink {
    /// The shareable deep link: the platform bot URL with the code as the
    /// `start` parameter.
    pub fn tme_url(&self, bot_url: &str) -> (r: String)
        ensures
            r@ == bot_url@ + "?start="@ + self.0@,
    {
        let mut url = bot_url.to_owned();
        url.append("?start=");
        url.append(self.0.as_str());
        url
    }
}

} // verus!
