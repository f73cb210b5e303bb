//! Lower-case hexadecimal encoding of bytes, and its decoding.
use vstd::prelude::*;

use crate::text::to_owned_string;
#[allow(unused_imports)]
use vstd::string::StringSliceAdditionalSpecFns;

verus! {

/// The lower-case hexadecimal digit for a value below 16.
pub open spec fn hex_digit(n: u8) -> char {
    if n < 10 {
        (48 + n) as char
    } else {
        (87 + n) as char
    }
}

/// Each byte as two lower-case hexadecimal digits, high nibble first.
pub open spec fn hex_encode(bs: Seq<u8>) -> Seq<char>
    decreases bs.len(),
{
    if bs.len() == 0 {
        Seq::empty()
    } else {
        let last = bs.last();
        hex_encode(bs.drop_last()) + seq![hex_digit(last / 16), hex_digit(last % 16)]
    }
}

/// The value of one hexadecimal digit byte, either case.
pub open spec fn hex_value(b: u8) -> Option<u8> {
    if 48 <= b <= 57 {
        Some((b - 48) as u8)
    } else if 97 <= b <= 102 {
        Some((b - 87) as u8)
    } else if 65 <= b <= 70 {
        Some((b - 55) as u8)
    } else {
        None
    }
}

/// The value of a two-byte text read as a base-16 `u8`: two digits, or a `+`
/// sign and one digit.
pub open spec fn pair_value(b0: u8, b1: u8) -> Option<u8> {
    if b0 == 43 {
        hex_value(b1)
    } else {
        match (hex_value(b0), hex_value(b1)) {
            (Some(hi), Some(lo)) => Some((16 * hi + lo) as u8),
            _ => None,
        }
    }
}

pub open spec fn pair_at(b: Seq<u8>, k: int) -> Option<u8> {
    pair_value(b[2 * k], b[2 * k + 1])
}

/// The first `k` pairs of `b` are all valid.
pub open spec fn pairs_valid_before(b: Seq<u8>, k: int) -> bool {
    forall|j: int| 0 <= j < k ==> (#[trigger] pair_at(b, j)) is Some
}

/// The values of the first `k` pairs of `b`.
pub open spec fn pairs_decoded(b: Seq<u8>, k: int) -> Seq<u8> {
    Seq::new(k as nat, |j: int| pair_at(b, j)->0)
}

/// A UTF-8 continuation byte, which no character starts with.
pub open spec fn is_continuation(b: u8) -> bool {
    128 <= b < 192
}

/// Pair `k` is the first invalid pair, and cutting the text after it would
/// split a character.
pub open spec fn splits_char_at(b: Seq<u8>, k: int) -> bool {
    &&& 0 <= k
    &&& 2 * k + 2 < b.len()
    &&& pairs_valid_before(b, k)
    &&& pair_at(b, k) is None
    &&& is_continuation(b[2 * k + 2])
}

/// What decoding a text gives.
pub enum HexOutcome {
    Decoded(Seq<u8>),
    Failed(Seq<char>),
    /// Slicing the text would cut a character in two.
    SplitsChar,
}

/// Decoding the UTF-8 bytes `b` of a text: an odd length fails; otherwise the
/// pairs are read in order, and the first invalid one fails.
pub open spec fn hex_decode_outcome(b: Seq<u8>) -> HexOutcome {
    if b.len() % 2 != 0 {
        HexOutcome::Failed("odd length hex string"@)
    } else if pairs_valid_before(b, (b.len() / 2) as int) {
        HexOutcome::Decoded(pairs_decoded(b, (b.len() / 2) as int))
    } else if exists|k: int| splits_char_at(b, k) {
        HexOutcome::SplitsChar
    } else {
        HexOutcome::Failed("invalid digit found in string"@)
    }
}

pub(crate) fn digit_str(n: u8) -> (s: &'static str)
    requires
        n < 16,
    ensures
        s@ == seq![hex_digit(n)],
{
    proof {
        reveal_strlit("0");
        reveal_strlit("1");
        reveal_strlit("2");
        reveal_strlit("3");
        reveal_strlit("4");
        reveal_strlit("5");
        reveal_strlit("6");
        reveal_strlit("7");
        reveal_strlit("8");
        reveal_strlit("9");
        reveal_strlit("a");
        reveal_strlit("b");
        reveal_strlit("c");
        reveal_strlit("d");
        reveal_strlit("e");
        reveal_strlit("f");
    }
    match n {
        0 => "0",
        1 => "1",
        2 => "2",
        3 => "3",
        4 => "4",
        5 => "5",
        6 => "6",
        7 => "7",
        8 => "8",
        9 => "9",
        10 => "a",
        11 => "b",
        12 => "c",
        13 => "d",
        14 => "e",
        _ => "f",
    }
}

/// Encodes bytes as lower-case hexadecimal, two digits per byte.
pub fn encode(bytes: &[u8]) -> (s: String)
    ensures
        s@ == hex_encode(bytes@),
{
    let mut s = String::new();
    let mut i: usize = 0;
    while i < bytes.len()
        invariant
            i <= bytes@.len(),
            s@ == hex_encode(bytes@.take(i as int)),
        decreases bytes@.len() - i,
    {
        let b = bytes[i];
        s.append(digit_str(b / 16));
        s.append(digit_str(b % 16));
        proof {
            let t = bytes@.take(i + 1);
            assert(t.drop_last() =~= bytes@.take(i as int));
            assert(t.last() == b);
        }
        i = i + 1;
    }
    assert(bytes@.take(bytes@.len() as int) =~= bytes@);
    s
}

fn value_of(b: u8) -> (v: Option<u8>)
    ensures
        v == hex_value(b),
{
    if 48 <= b && b <= 57 {
        Some(b - 48)
    } else if 97 <= b && b <= 102 {
        Some(b - 87)
    } else if 65 <= b && b <= 70 {
        Some(b - 55)
    } else {
        None
    }
}

fn value_of_pair(b0: u8, b1: u8) -> (v: Option<u8>)
    ensures
        v == pair_value(b0, b1),
{
    if b0 == 43 {
        value_of(b1)
    } else {
        match (value_of(b0), value_of(b1)) {
            (Some(hi), Some(lo)) => Some(16 * hi + lo),
            _ => None,
        }
    }
}

/// Decodes hexadecimal text (either case) into bytes, two digits per byte.
/// Fails on an odd length or on the first pair that is not a base-16 number.
pub fn decode(s: &str) -> (r: Result<Vec<u8>, String>)
    requires
        !(hex_decode_outcome(s.spec_bytes()) is SplitsChar),
    ensures
        match hex_decode_outcome(s.spec_bytes()) {
            HexOutcome::Decoded(v) => r is Ok && r->Ok_0@ == v,
            HexOutcome::Failed(e) => r is Err && r->Err_0@ == e,
            HexOutcome::SplitsChar => false,
        },
{
    let b = s.as_bytes();
    let ghost bs = s.spec_bytes();
    let n = b.len();
    if n % 2 != 0 {
        proof {
            reveal_strlit("odd length hex string");
        }
        return Err(to_owned_string("odd length hex string"));
    }
    let mut out: Vec<u8> = Vec::new();
    let mut i: usize = 0;
    while i < n / 2
        invariant
            b@ == bs,
            bs == s.spec_bytes(),
            n == bs.len(),
            n % 2 == 0,
            i <= n / 2,
            !(hex_decode_outcome(bs) is SplitsChar),
            pairs_valid_before(bs, i as int),
            out@ =~= pairs_decoded(bs, i as int),
        decreases n / 2 - i,
    {
        let v = value_of_pair(b[2 * i], b[2 * i + 1]);
        match v {
            Some(x) => {
                out.push(x);
                proof {
                    assert(pair_at(bs, i as int) == v);
                    assert forall|j: int| 0 <= j < i + 1 implies (#[trigger] pair_at(bs, j)) is Some by {
                        if j < i {
                            assert(pair_at(bs, j) is Some);
                        }
                    }
                }
            },
            None => {
                proof {
                    reveal_strlit("invalid digit found in string");
                    assert(pair_at(bs, i as int) is None);
                    assert(!pairs_valid_before(bs, (bs.len() / 2) as int));
                    assert forall|k: int| !splits_char_at(bs, k) by {
                        if splits_char_at(bs, k) {
                            if k < i {
                                assert(pair_at(bs, k) is Some);
                            } else if k > i {
                                assert(pair_at(bs, i as int) is Some);
                            }
                        }
                    }
                    assert(!(exists|k: int| splits_char_at(bs, k))) by {
                        if exists|k: int| splits_char_at(bs, k) {
                            let k = choose|k: int| splits_char_at(bs, k);
                            assert(!(hex_decode_outcome(bs) is SplitsChar));
                        }
                    }
                }
                let msg = to_owned_string("invalid digit found in string");
                return Err(msg);
            },
        }
        i = i + 1;
    }
    Ok(out)
}

/// Which way decoding a text would go, found without decoding it.
#[derive(Debug, Clone, Copy, PartialEq, Eq, Structural)]
pub enum HexCheck {
    Decodes,
    Fails,
    /// Decoding would slice the text inside a character.
    SplitsChar,
}

/// Tells whether `decode` would succeed, fail, or cut a character in two
/// (which `decode` may not be called on).
pub fn check_decode(s: &str) -> (r: HexCheck)
    ensures
        r == HexCheck::Decodes <==> hex_decode_outcome(s.spec_bytes()) is Decoded,
        r == HexCheck::Fails <==> hex_decode_outcome(s.spec_bytes()) is Failed,
        r == HexCheck::SplitsChar <==> hex_decode_outcome(s.spec_bytes()) is SplitsChar,
{
    let b = s.as_bytes();
    let ghost bs = s.spec_bytes();
    let n = b.len();
    if n % 2 != 0 {
        return HexCheck::Fails;
    }
    let mut i: usize = 0;
    while i < n / 2
        invariant
            b@ == bs,
            bs == s.spec_bytes(),
            n == bs.len(),
            n % 2 == 0,
            i <= n / 2,
            pairs_valid_before(bs, i as int),
        decreases n / 2 - i,
    {
        let v = value_of_pair(b[2 * i], b[2 * i + 1]);
        if v.is_none() {
            proof {
                assert(pair_at(bs, i as int) is None);
                assert(!pairs_valid_before(bs, (bs.len() / 2) as int));
                assert forall|k: int| splits_char_at(bs, k) implies k == i by {
                    if k < i {
                        assert(pair_at(bs, k) is Some);
                    } else if k > i {
                        assert(pair_at(bs, i as int) is Some);
                    }
                }
            }
            if 2 * i + 2 < n && 128 <= b[2 * i + 2] && b[2 * i + 2] < 192 {
                proof {
                    assert(splits_char_at(bs, i as int));
                }
                return HexCheck::SplitsChar;
            }
            proof {
                assert(!splits_char_at(bs, i as int));
            }
            return HexCheck::Fails;
        }
        proof {
            assert forall|j: int| 0 <= j < i + 1 implies (#[trigger] pair_at(bs, j)) is Some by {
                if j < i {
                    assert(pair_at(bs, j) is Some);
                }
            }
        }
        i = i + 1;
    }
    HexCheck::Decodes
}

pub(crate) proof fn lemma_hex_encode_len(bs: Seq<u8>)
    ensures
        hex_encode(bs).len() == 2 * bs.len(),
    decreases bs.len(),
{
    if bs.len() > 0 {
        lemma_hex_encode_len(bs.drop_last());
    }
}

proof fn lemma_hex_encode_index(bs: Seq<u8>, k: int)
    requires
        0 <= k < bs.len(),
    ensures
        hex_encode(bs)[2 * k] == hex_digit(bs[k] / 16),
        hex_encode(bs)[2 * k + 1] == hex_digit(bs[k] % 16),
    decreases bs.len(),
{
    lemma_hex_encode_len(bs.drop_last());
    if k < bs.len() - 1 {
        lemma_hex_encode_index(bs.drop_last(), k);
    }
}

/// Decoding what `encode` wrote gives back the same bytes.
pub proof fn lemma_hex_roundtrip(bs: Seq<u8>)
    ensures
        hex_decode_outcome(vstd::utf8::encode_utf8(hex_encode(bs))) == HexOutcome::Decoded(bs),
{
    let cs = hex_encode(bs);
    lemma_hex_encode_len(bs);
    assert forall|i: int| 0 <= i < cs.len() implies '\0' <= #[trigger] cs[i] <= '\u{7f}' by {
        let k = i / 2;
        lemma_hex_encode_index(bs, k);
    }
    assert(vstd::utf8::is_ascii_chars(cs));
    vstd::utf8::is_ascii_chars_encode_utf8(cs);
    let b = vstd::utf8::encode_utf8(cs);
    assert forall|k: int| 0 <= k < bs.len() implies (#[trigger] pair_at(b, k)) == Some(bs[k]) by {
        lemma_hex_encode_index(bs, k);
        assert(b[2 * k] == cs[2 * k] as u8);
        assert(b[2 * k + 1] == cs[2 * k + 1] as u8);
        let hi = bs[k] / 16;
        let lo = bs[k] % 16;
        assert(hi < 16 && lo < 16);
        assert(bs[k] == 16 * hi + lo);
    }
    assert(pairs_valid_before(b, (b.len() / 2) as int));
    assert(pairs_decoded(b, (b.len() / 2) as int) =~= bs);
}

} // verus!
