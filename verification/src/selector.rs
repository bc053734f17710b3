//! Canonical signature strings and 4-byte call selectors.
//!
//! The signature is the function name followed by the raw textual input
//! types, exactly as given, joined with "," inside parentheses. The selector
//! is the first 4 bytes of the Keccak-256 digest of the signature's UTF-8
//! bytes, hex-encoded in lowercase.

use vstd::prelude::*;
use vstd::string::StringExecFns;
use vstd::string::StringSliceAdditionalSpecFns;
use vstd::utf8::encode_utf8;
use sha3::Digest;

verus! {

/// The given strings joined with ",": the argument list of a canonical
/// signature.
pub open spec fn join_comma(ts: Seq<Seq<char>>) -> Seq<char>
    decreases ts.len(),
{
    if ts.len() == 0 {
        Seq::<char>::empty()
    } else if ts.len() == 1 {
        ts[0]
    } else {
        ts[0] + ","@ + join_comma(ts.drop_first())
    }
}

/// The canonical signature text of a function: its name and its raw input
/// types in declaration order, with no normalization.
pub open spec fn signature_spec(name: Seq<char>, types: Seq<Seq<char>>) -> Seq<char> {
    name + "("@ + join_comma(types) + ")"@
}

/// The Keccak-256 digest of a byte string. It depends on the bytes alone;
/// its value is not stated here, only its length.
pub uninterp spec fn keccak256_of(bytes: Seq<u8>) -> Seq<u8>;

/// Relies on sha3::Keccak256 (through the Digest trait): the digest of a byte
/// string is a function of the bytes alone and is 32 bytes long.
#[verifier::external_body]
fn keccak256(data: &[u8]) -> (r: Vec<u8>)
    ensures
        r@ == keccak256_of(data@),
        r@.len() == 32,
{
    sha3::Keccak256::digest(data).to_vec()
}

/// The lowercase hex digit character for n (n < 16).
pub open spec fn hex_digit(n: nat) -> char {
    if n == 0 { '0' }
    else if n == 1 { '1' }
    else if n == 2 { '2' }
    else if n == 3 { '3' }
    else if n == 4 { '4' }
    else if n == 5 { '5' }
    else if n == 6 { '6' }
    else if n == 7 { '7' }
    else if n == 8 { '8' }
    else if n == 9 { '9' }
    else if n == 10 { 'a' }
    else if n == 11 { 'b' }
    else if n == 12 { 'c' }
    else if n == 13 { 'd' }
    else if n == 14 { 'e' }
    else { 'f' }
}

/// Lowercase hex encoding, two digits per byte, no prefix.
pub open spec fn hex_of(bytes: Seq<u8>) -> Seq<char>
    decreases bytes.len(),
{
    if bytes.len() == 0 {
        Seq::<char>::empty()
    } else {
        hex_of(bytes.drop_last()) + seq![
            hex_digit(bytes.last() as nat / 16),
            hex_digit(bytes.last() as nat % 16),
        ]
    }
}

fn hex_digit_str(n: u8) -> (r: &'static str)
    requires
        n < 16,
    ensures
        r@ == seq![hex_digit(n as nat)],
{
    proof {
        reveal_strlit("0");
        reveal_strlit("1");
        reveal_strlit("2");
        reveal_strlit("3");
        reveal_strlit("4");
        reveal_strlit("5");
        reveal_strlit("6");
        reveal_strlit("7");
        reveal_strlit("8");
        reveal_strlit("9");
        reveal_strlit("a");
        reveal_strlit("b");
        reveal_strlit("c");
        reveal_strlit("d");
        reveal_strlit("e");
        reveal_strlit("f");
    }
    match n {
        0 => "0",
        1 => "1",
        2 => "2",
        3 => "3",
        4 => "4",
        5 => "5",
        6 => "6",
        7 => "7",
        8 => "8",
        9 => "9",
        10 => "a",
        11 => "b",
        12 => "c",
        13 => "d",
        14 => "e",
        _ => "f",
    }
}

/// Hex-encodes the first `take` bytes of `bytes` in lowercase.
pub fn hex_encode_prefix(bytes: &Vec<u8>, take: usize) -> (r: String)
    requires
        take <= bytes@.len(),
    ensures
        r@ == hex_of(bytes@.subrange(0, take as int)),
{
    let mut s = String::new();
    let mut i: usize = 0;
    while i < take
        invariant
            0 <= i <= take <= bytes@.len(),
            s@ == hex_of(bytes@.subrange(0, i as int)),
        decreases take - i,
    {
        let b = bytes[i];
        s.append(hex_digit_str(b / 16));
        s.append(hex_digit_str(b % 16));
        proof {
            let pre = bytes@.subrange(0, i as int);
            let post = bytes@.subrange(0, i as int + 1);
            assert(post.drop_last() =~= pre);
            assert(post.last() == bytes@[i as int]);
            assert(s@ =~= hex_of(post));
        }
        i = i + 1;
    }
    s
}

/// The hex spelling of a signature's 4-byte selector.
pub open spec fn selector_hash_spec(sig: Seq<char>) -> Seq<char> {
    hex_of(keccak256_of(encode_utf8(sig)).subrange(0, 4))
}

proof fn lemma_join_comma_push(ts: Seq<Seq<char>>, t: Seq<char>)
    ensures
        ts.len() == 0 ==> join_comma(ts.push(t)) == t,
        ts.len() > 0 ==> join_comma(ts.push(t)) == join_comma(ts) + ","@ + t,
    decreases ts.len(),
{
    let p = ts.push(t);
    if ts.len() == 0 {
        assert(p.len() == 1);
        assert(p[0] == t);
    } else {
        assert(p[0] == ts[0]);
        assert(p.drop_first() =~= ts.drop_first().push(t));
        lemma_join_comma_push(ts.drop_first(), t);
        if ts.len() == 1 {
            assert(join_comma(p) == ts[0] + ","@ + t);
        } else {
            assert(join_comma(p) == ts[0] + ","@ + (join_comma(ts.drop_first()) + ","@ + t));
            assert(ts[0] + ","@ + (join_comma(ts.drop_first()) + ","@ + t) =~= (ts[0] + ","@
                + join_comma(ts.drop_first())) + ","@ + t);
        }
    }
}

/// Builds the canonical signature text from a name and raw types in order.
pub fn signature_of(name: &str, types: &Vec<String>) -> (r: String)
    ensures
        r@ == signature_spec(name@, types.deep_view()),
{
    let mut s = String::from_str(name);
    s.append("(");
    let ghost all = types.deep_view();
    let mut i: usize = 0;
    while i < types.len()
        invariant
            0 <= i <= types@.len(),
            all == types.deep_view(),
            all.len() == types@.len(),
            forall|k: int| 0 <= k < types@.len() ==> all[k] == types@[k]@,
            s@ == name@ + "("@ + join_comma(all.subrange(0, i as int)),
        decreases types@.len() - i,
    {
        if i > 0 {
            s.append(",");
        }
        s.append(types[i].as_str());
        proof {
            lemma_join_comma_push(all.subrange(0, i as int), all[i as int]);
            assert(all.subrange(0, i as int).push(all[i as int]) =~= all.subrange(
                0,
                i as int + 1,
            ));
            assert(s@ =~= name@ + "("@ + join_comma(all.subrange(0, i as int + 1)));
        }
        i = i + 1;
    }
    s.append(")");
    proof {
        assert(all.subrange(0, all.len() as int) =~= all);
        assert(s@ =~= signature_spec(name@, all));
    }
    s
}

/// Derives a function's canonical signature and its hex-encoded 4-byte
/// selector. Deterministic: both outputs are functions of the name and the
/// raw types alone.
pub fn encode_selector(name: &str, types: &Vec<String>) -> (r: (String, String))
    ensures
        r.0@ == signature_spec(name@, types.deep_view()),
        r.1@ == selector_hash_spec(signature_spec(name@, types.deep_view())),
{
    let sig = signature_of(name, types);
    let digest = keccak256(sig.as_str().as_bytes());
    let hash4 = hex_encode_prefix(&digest, 4);
    (sig, hash4)
}

} // verus!
