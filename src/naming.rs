use vstd::prelude::*;
use vstd::string::StringExecFns;
use rand::Rng;
use rand::rngs::ThreadRng;

verus! {

/// Number of random characters appended to a base name.
pub const SUFFIX_LEN: usize = 12;

#[verifier::external_type_specification]
#[verifier::external_body]
pub struct ExThreadRng(rand::rngs::ThreadRng);

pub assume_specification[ rand::thread_rng ]() -> rand::rngs::ThreadRng;

/// An ASCII letter or digit, as a byte (`0-9` are 48 to 57, `A-Z` 65 to 90,
/// `a-z` 97 to 122).
pub open spec fn is_ascii_alnum(b: u8) -> bool {
    (48 <= b <= 57) || (65 <= b <= 90) || (97 <= b <= 122)
}

/// A lowercase ASCII letter or a digit.
pub open spec fn is_lower_alnum(c: char) -> bool {
    ('0' <= c <= '9') || ('a' <= c <= 'z')
}

/// A string that can stand as the random suffix of a database name.
pub open spec fn is_suffix(s: Seq<char>) -> bool {
    s.len() == SUFFIX_LEN && forall|i: int| 0 <= i < s.len() ==> is_lower_alnum(#[trigger] s[i])
}

/// The database name made of `base` and `suffix`.
pub open spec fn unique_name_of(base: Seq<char>, suffix: Seq<char>) -> Seq<char> {
    base + seq!['-'] + suffix
}

/// Relies on rand's `Alphanumeric` distribution: each sample is one byte of
/// `A-Z`, `a-z` or `0-9`.
#[verifier::external_body]
fn sample_alphanumeric(rng: &mut ThreadRng) -> (r: u8)
    ensures
        is_ascii_alnum(r),
{
    rng.sample(rand::distributions::Alphanumeric)
}

/// Relies on `String::push`: the character is appended at the end.
#[verifier::external_body]
fn push_char(s: &mut String, c: char)
    ensures
        final(s)@ == old(s)@.push(c),
{
    s.push(c)
}

/// The lowercase form of an ASCII byte, as a character: `A-Z` become
/// `a-z`, every other byte keeps its code.
pub open spec fn lower_char(b: u8) -> char {
    if 65 <= b <= 90 {
        ((b + 32) as u8) as char
    } else {
        b as char
    }
}

/// The lowercase form of an ASCII letter or digit, as a character.
pub fn lower_alnum_char(b: u8) -> (c: char)
    requires
        is_ascii_alnum(b),
    ensures
        c == lower_char(b),
        is_lower_alnum(c),
{
    let l: u8 = if 65 <= b && b <= 90 { b + 32 } else { b };
    l as char
}

/// The suffix spelled by the drawn letters and digits, lowercased.
pub fn suffix_from_bytes(bytes: &Vec<u8>) -> (s: String)
    requires
        forall|i: int| 0 <= i < bytes@.len() ==> is_ascii_alnum(#[trigger] bytes@[i]),
    ensures
        s@ == bytes@.map_values(|b: u8| lower_char(b)),
        forall|i: int| 0 <= i < s@.len() ==> is_lower_alnum(#[trigger] s@[i]),
{
    let mut s = String::new();
    let mut i: usize = 0;
    while i < bytes.len()
        invariant
            i <= bytes@.len(),
            forall|k: int| 0 <= k < bytes@.len() ==> is_ascii_alnum(#[trigger] bytes@[k]),
            s@ == bytes@.subrange(0, i as int).map_values(|b: u8| lower_char(b)),
            forall|k: int| 0 <= k < s@.len() ==> is_lower_alnum(#[trigger] s@[k]),
        decreases bytes@.len() - i,
    {
        let c = lower_alnum_char(bytes[i]);
        push_char(&mut s, c);
        proof {
            assert(bytes@.subrange(0, i + 1) =~= bytes@.subrange(0, i as int).push(bytes@[i as int]));
            assert(s@ =~= bytes@.subrange(0, i + 1).map_values(|b: u8| lower_char(b)));
        }
        i = i + 1;
    }
    assert(bytes@.subrange(0, i as int) =~= bytes@);
    s
}

/// `SUFFIX_LEN` letters and digits drawn from the thread's random generator.
fn draw_alphanumerics() -> (v: Vec<u8>)
    ensures
        v@.len() == SUFFIX_LEN,
        forall|i: int| 0 <= i < v@.len() ==> is_ascii_alnum(#[trigger] v@[i]),
{
    let mut rng = rand::thread_rng();
    let mut v: Vec<u8> = Vec::new();
    let mut i: usize = 0;
    while i < SUFFIX_LEN
        invariant
            i <= SUFFIX_LEN,
            v@.len() == i,
            forall|k: int| 0 <= k < v@.len() ==> is_ascii_alnum(#[trigger] v@[k]),
        decreases SUFFIX_LEN - i,
    {
        v.push(sample_alphanumeric(&mut rng));
        i = i + 1;
    }
    v
}

/// A fresh suffix of `SUFFIX_LEN` lowercase letters and digits: random
/// letters and digits, lowercased.
pub fn random_suffix() -> (s: String)
    ensures
        is_suffix(s@),
        exists|drawn: Seq<u8>|
            drawn.len() == SUFFIX_LEN && (forall|i: int| 0 <= i < drawn.len() ==> is_ascii_alnum(#[trigger] drawn[i]))
                && s@ == drawn.map_values(|b: u8| lower_char(b)),
{
    let drawn = draw_alphanumerics();
    suffix_from_bytes(&drawn)
}

/// The database name `base`, a hyphen, then `suffix`.
pub fn unique_name(base: &str, suffix: &str) -> (r: String)
    ensures
        r@ == unique_name_of(base@, suffix@),
{
    let r = String::from_str(base).concat("-").concat(suffix);
    proof {
        reveal_strlit("-");
        assert(r@ =~= unique_name_of(base@, suffix@));
    }
    r
}

/// A collision-resistant database name: `base`, a hyphen and a fresh random
/// suffix.
pub fn generate_unique_name(base: &str) -> (r: String)
    ensures
        exists|suffix: Seq<char>| is_suffix(suffix) && r@ == unique_name_of(base@, suffix),
{
    let suffix = random_suffix();
    unique_name(base, suffix.as_str())
}

/// Two names built on one base name differ exactly when their suffixes
/// differ: the names of fixtures collide only where the random suffixes do.
pub proof fn lemma_names_collide_only_with_suffixes(base: Seq<char>, s1: Seq<char>, s2: Seq<char>)
    requires
        is_suffix(s1),
        is_suffix(s2),
    ensures
        (unique_name_of(base, s1) == unique_name_of(base, s2)) <==> (s1 == s2),
{
    if unique_name_of(base, s1) == unique_name_of(base, s2) {
        let n: int = base.len() as int + 1;
        assert(s1 =~= unique_name_of(base, s1).subrange(n, n + SUFFIX_LEN as int));
        assert(s2 =~= unique_name_of(base, s2).subrange(n, n + SUFFIX_LEN as int));
    }
}

} // verus!
