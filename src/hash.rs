use sha3::{Digest, Sha3_256};
use vstd::prelude::*;
use vstd::utf8::encode_utf8;

verus! {

/// Number of bytes in a SHA3-256 digest.
pub const HASH_LEN: usize = 32;

/// Unicode `White_Space` code points: the characters that `str::trim` strips.
pub open spec fn is_white_space(c: char) -> bool {
    let u = c as u32;
    ||| 0x9 <= u <= 0xD
    ||| u == 0x20
    ||| u == 0x85
    ||| u == 0xA0
    ||| u == 0x1680
    ||| 0x2000 <= u <= 0x200A
    ||| u == 0x2028
    ||| u == 0x2029
    ||| u == 0x202F
    ||| u == 0x205F
    ||| u == 0x3000
}

/// `s` without its leading whitespace.
pub open spec fn trim_start_of(s: Seq<char>) -> Seq<char>
    decreases s.len(),
{
    if s.len() > 0 && is_white_space(s[0]) {
        trim_start_of(s.drop_first())
    } else {
        s
    }
}

/// `s` without its trailing whitespace.
pub open spec fn trim_end_of(s: Seq<char>) -> Seq<char>
    decreases s.len(),
{
    if s.len() > 0 && is_white_space(s.last()) {
        trim_end_of(s.drop_last())
    } else {
        s
    }
}

/// `s` without leading and trailing whitespace.
pub open spec fn trimmed(s: Seq<char>) -> Seq<char> {
    trim_end_of(trim_start_of(s))
}

/// The SHA3-256 digest of a byte sequence.
pub uninterp spec fn sha3_256_of(data: Seq<u8>) -> Seq<u8>;

/// The hash an identicon is drawn from: the SHA3-256 digest of the UTF-8
/// bytes of the trimmed input.
pub open spec fn hash_spec(input: Seq<char>) -> Seq<u8> {
    sha3_256_of(encode_utf8(trimmed(input)))
}

/// Relies on `str::trim`: it removes leading and trailing characters with the
/// Unicode `White_Space` property and keeps everything in between.
#[verifier::external_body]
fn trim(s: &str) -> (r: &str)
    ensures
        r@ == trimmed(s@),
{
    s.trim()
}

/// Relies on `sha3::Sha3_256::digest`: the 32-byte SHA3-256 digest of `data`.
#[verifier::external_body]
fn sha3_256(data: &[u8]) -> (r: Vec<u8>)
    ensures
        r@ == sha3_256_of(data@),
        r@.len() == HASH_LEN,
{
    Sha3_256::digest(data).to_vec()
}

/// Hashes the trimmed input value with SHA3-256.
pub fn hash_value(input_value: &str) -> (r: Vec<u8>)
    ensures
        r@ == hash_spec(input_value@),
        r@.len() == HASH_LEN,
{
    let input_trimmed = trim(input_value);
    sha3_256(input_trimmed.as_bytes())
}

proof fn lemma_trim_start_fixed(s: Seq<char>)
    requires
        s.len() == 0 || !is_white_space(s[0]),
    ensures
        trim_start_of(s) == s,
{
}

proof fn lemma_trim_end_fixed(s: Seq<char>)
    requires
        s.len() == 0 || !is_white_space(s.last()),
    ensures
        trim_end_of(s) == s,
{
}

/// Trimming the end keeps a prefix that is empty or ends in a non-whitespace
/// character.
proof fn lemma_trim_end_shape(s: Seq<char>)
    ensures
        trim_end_of(s).len() <= s.len(),
        trim_end_of(s) == s.subrange(0, trim_end_of(s).len() as int),
        trim_end_of(s).len() == 0 || !is_white_space(trim_end_of(s).last()),
    decreases s.len(),
{
    if s.len() > 0 && is_white_space(s.last()) {
        lemma_trim_end_shape(s.drop_last());
        assert(s.drop_last().subrange(0, trim_end_of(s).len() as int) =~= s.subrange(
            0,
            trim_end_of(s).len() as int,
        ));
    } else {
        assert(s.subrange(0, s.len() as int) =~= s);
    }
}

/// Trimming the start keeps a suffix that is empty or starts with a
/// non-whitespace character.
proof fn lemma_trim_start_shape(s: Seq<char>)
    ensures
        trim_start_of(s).len() == 0 || !is_white_space(trim_start_of(s)[0]),
    decreases s.len(),
{
    if s.len() > 0 && is_white_space(s[0]) {
        lemma_trim_start_shape(s.drop_first());
    }
}

/// What trimming the start does to a concatenation.
proof fn lemma_trim_start_concat(s: Seq<char>, t: Seq<char>)
    ensures
        trim_start_of(s + t) == if trim_start_of(s).len() > 0 {
            trim_start_of(s) + t
        } else {
            trim_start_of(t)
        },
    decreases s.len(),
{
    if s.len() == 0 {
        assert(s + t =~= t);
    } else if is_white_space(s[0]) {
        assert((s + t).drop_first() =~= s.drop_first() + t);
        lemma_trim_start_concat(s.drop_first(), t);
    } else {
        assert((s + t)[0] == s[0]);
    }
}

/// Trimming twice is trimming once.
pub proof fn lemma_trimmed_idempotent(s: Seq<char>)
    ensures
        trimmed(trimmed(s)) == trimmed(s),
{
    let u = trim_start_of(s);
    let v = trim_end_of(u);
    lemma_trim_start_shape(s);
    lemma_trim_end_shape(u);
    if v.len() > 0 {
        assert(v[0] == u[0]);
    }
    lemma_trim_start_fixed(v);
    lemma_trim_end_fixed(v);
}

/// A space on either side of the input disappears when it is trimmed.
pub proof fn lemma_trimmed_padded(s: Seq<char>)
    ensures
        trimmed(seq![' '] + s + seq![' ']) == trimmed(s),
{
    let sp = seq![' '];
    assert(is_white_space(' '));
    assert((sp + s + sp).drop_first() =~= s + sp);
    assert(trim_start_of(sp + s + sp) == trim_start_of(s + sp));
    lemma_trim_start_concat(s, sp);
    if trim_start_of(s).len() > 0 {
        assert((trim_start_of(s) + sp).drop_last() =~= trim_start_of(s));
    } else {
        assert(sp.drop_first() =~= Seq::<char>::empty());
        assert(trim_start_of(sp) == trim_start_of(Seq::<char>::empty()));
    }
}

/// Surrounding whitespace does not change the hash.
pub proof fn lemma_hash_ignores_padding(s: Seq<char>)
    ensures
        hash_spec(trimmed(s)) == hash_spec(s),
        hash_spec(seq![' '] + s + seq![' ']) == hash_spec(s),
{
    lemma_trimmed_idempotent(s);
    lemma_trimmed_padded(s);
}

} // verus!
