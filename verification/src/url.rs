//! File URLs handed over by the operating system, turned into paths.
use vstd::prelude::*;
use vstd::utf8::{
    decode_utf8, encode_scalar, encode_utf8, encode_utf8_decode_utf8, encode_utf8_valid_utf8,
    has_width_1_encoding, valid_utf8,
};

verus! {

/// `String::from_utf8`: the text encoded by `bytes` when they are valid
/// UTF-8, which is what the standard library documents.
#[verifier::external_body]
fn string_from_utf8(bytes: Vec<u8>) -> (r: Option<String>)
    ensures
        r is Some <==> valid_utf8(bytes@),
        r matches Some(s) ==> s@ == decode_utf8(bytes@),
{
    String::from_utf8(bytes).ok()
}

/// The scheme and empty authority of a local file URL, `file://`.
pub open spec fn file_scheme() -> Seq<u8> {
    seq![102u8, 105u8, 108u8, 101u8, 58u8, 47u8, 47u8]
}

pub open spec fn is_hex_digit(b: u8) -> bool {
    (48 <= b <= 57) || (65 <= b <= 70) || (97 <= b <= 102)
}

pub open spec fn hex_digit_value(b: u8) -> int {
    if 48 <= b <= 57 {
        b - 48
    } else if 65 <= b <= 70 {
        b - 55
    } else {
        b - 87
    }
}

/// The byte that the two text bytes `a b` denote in base 16, as
/// `u8::from_str_radix` reads them: two hexadecimal digits, or a `+` sign
/// and one digit; anything else denotes nothing.
pub open spec fn hex_pair(a: u8, b: u8) -> Option<u8> {
    if is_hex_digit(a) && is_hex_digit(b) {
        Some((16 * hex_digit_value(a) + hex_digit_value(b)) as u8)
    } else if a == 43 && is_hex_digit(b) {
        Some(hex_digit_value(b) as u8)
    } else {
        None
    }
}

/// `s` with every `%` followed by two bytes replaced by the byte they denote
/// ([`hex_pair`]); `None` when a `%` is not followed by such a pair.
pub open spec fn percent_decode(s: Seq<u8>) -> Option<Seq<u8>>
    decreases s.len(),
{
    if s.len() == 0 {
        Some(Seq::empty())
    } else if s[0] == 37 {
        if s.len() < 3 {
            None
        } else {
            match hex_pair(s[1], s[2]) {
                Some(v) => prefixed(seq![v], percent_decode(s.skip(3))),
                None => None,
            }
        }
    } else {
        prefixed(seq![s[0]], percent_decode(s.skip(1)))
    }
}

pub open spec fn prefixed(p: Seq<u8>, o: Option<Seq<u8>>) -> Option<Seq<u8>> {
    match o {
        Some(rest) => Some(p + rest),
        None => None,
    }
}

/// The path that a URL with UTF-8 encoding `url` names: what follows
/// `file://`, percent-decoded, read as UTF-8.
pub open spec fn file_url_path(url: Seq<u8>) -> Option<Seq<char>> {
    if url.len() >= 7 && url.take(7) == file_scheme() {
        match percent_decode(url.skip(7)) {
            Some(bytes) => if valid_utf8(bytes) {
                Some(decode_utf8(bytes))
            } else {
                None
            },
            None => None,
        }
    } else {
        None
    }
}

fn hex_digit(b: u8) -> (r: Option<u8>)
    ensures
        r is Some <==> is_hex_digit(b),
        r matches Some(v) ==> v == hex_digit_value(b),
{
    if 48 <= b && b <= 57 {
        Some(b - 48)
    } else if 65 <= b && b <= 70 {
        Some(b - 55)
    } else if 97 <= b && b <= 102 {
        Some(b - 87)
    } else {
        None
    }
}

/// The byte denoted by the hexadecimal text `a b` ([`hex_pair`]).
pub fn decode_hex_pair(a: u8, b: u8) -> (r: Option<u8>)
    ensures
        r == hex_pair(a, b),
{
    match (hex_digit(a), hex_digit(b)) {
        (Some(high), Some(low)) => Some(16 * high + low),
        (None, Some(low)) => if a == 43 {
            Some(low)
        } else {
            None
        },
        _ => None,
    }
}

/// The local path named by a `file://` URL, percent-escapes decoded;
/// `None` for any other URL, a malformed escape, or a path that is not UTF-8.
pub fn file_url_to_path(url: &str) -> (r: Option<String>)
    ensures
        match r {
            Some(path) => file_url_path(encode_utf8(url@)) == Some(path@),
            None => file_url_path(encode_utf8(url@)) is None,
        },
{
    let bytes = url.as_bytes();
    let ghost s = bytes@;
    if bytes.len() < 7 || bytes[0] != 102 || bytes[1] != 105 || bytes[2] != 108 || bytes[3] != 101
        || bytes[4] != 58 || bytes[5] != 47 || bytes[6] != 47 {
        proof {
            if s.len() >= 7 && s.take(7) == file_scheme() {
                assert(s[0] == s.take(7)[0] && s[1] == s.take(7)[1] && s[2] == s.take(7)[2]);
                assert(s[3] == s.take(7)[3] && s[4] == s.take(7)[4] && s[5] == s.take(7)[5]);
                assert(s[6] == s.take(7)[6]);
            }
        }
        return None;
    }
    assert(s.take(7) =~= file_scheme());
    let mut out: Vec<u8> = Vec::new();
    let mut i: usize = 7;
    while i < bytes.len()
        invariant
            s == bytes@,
            s == encode_utf8(url@),
            s.take(7) == file_scheme(),
            7 <= i <= s.len(),
            percent_decode(s.skip(7)) == prefixed(out@, percent_decode(s.skip(i as int))),
        decreases s.len() - i,
    {
        let b = bytes[i];
        if b == 37 {
            assert(s.skip(i as int)[0] == 37);
            if bytes.len() - i < 3 {
                assert(s.skip(i as int).len() < 3);
                assert(percent_decode(s.skip(i as int)) is None);
                assert(percent_decode(s.skip(7)) is None);
                return None;
            }
            assert(s.skip(i as int)[1] == s[i + 1] && s.skip(i as int)[2] == s[i + 2]);
            assert(s.skip(i as int).len() >= 3);
            match decode_hex_pair(bytes[i + 1], bytes[i + 2]) {
                Some(v) => {
                    assert(s.skip(i as int).skip(3) =~= s.skip(i + 3));
                    assert(prefixed(out@, prefixed(seq![v], percent_decode(s.skip(i + 3))))
                        == prefixed(out@.push(v), percent_decode(s.skip(i + 3)))) by {
                        assert(out@ + seq![v] =~= out@.push(v));
                        if let Some(rest) = percent_decode(s.skip(i + 3)) {
                            assert(out@ + (seq![v] + rest) =~= out@.push(v) + rest);
                        }
                    }
                    out.push(v);
                    i = i + 3;
                },
                None => {
                    assert(percent_decode(s.skip(i as int)) is None);
                    assert(percent_decode(s.skip(7)) is None);
                    return None;
                },
            }
        } else {
            assert(s.skip(i as int).skip(1) =~= s.skip(i + 1));
            assert(s.skip(i as int)[0] == b);
            assert(prefixed(out@, prefixed(seq![b], percent_decode(s.skip(i + 1))))
                == prefixed(out@.push(b), percent_decode(s.skip(i + 1)))) by {
                assert(out@ + seq![b] =~= out@.push(b));
                if let Some(rest) = percent_decode(s.skip(i + 1)) {
                    assert(out@ + (seq![b] + rest) =~= out@.push(b) + rest);
                }
            }
            out.push(b);
            i = i + 1;
        }
    }
    assert(s.skip(i as int) =~= Seq::<u8>::empty());
    assert(out@ + Seq::<u8>::empty() =~= out@);
    string_from_utf8(out)
}

proof fn lemma_percent_decode_plain(s: Seq<u8>)
    requires
        forall|i: int| 0 <= i < s.len() ==> s[i] != 37,
    ensures
        percent_decode(s) == Some(s),
    decreases s.len(),
{
    if s.len() > 0 {
        assert(s[0] != 37);
        lemma_percent_decode_plain(s.skip(1));
        assert(seq![s[0]] + s.skip(1) =~= s);
    }
}

proof fn lemma_scalar_bytes_not_percent(c: char)
    requires
        c != '%',
    ensures
        forall|k: int| 0 <= k < encode_scalar(c as u32).len() ==> #[trigger] encode_scalar(c as u32)[k] != 37,
{
    let v = c as u32;
    if has_width_1_encoding(v) {
        assert(v != 37);
        assert((v & 0x7F) as u8 != 37) by (bit_vector)
            requires v <= 0x7F, v != 37;
    } else {
        assert(v > 0x7F ==> (0xC0u8 | ((v >> 6) & 0x1F) as u8) != 37u8) by (bit_vector);
        assert(v > 0x7F ==> (0xE0u8 | ((v >> 12) & 0x0F) as u8) != 37u8) by (bit_vector);
        assert(v > 0x7F ==> (0xF0u8 | ((v >> 18) & 0x7) as u8) != 37u8) by (bit_vector);
        assert((0x80u8 | (v & 0x3F) as u8) != 37u8) by (bit_vector);
        assert((0x80u8 | ((v >> 6) & 0x3F) as u8) != 37u8) by (bit_vector);
        assert((0x80u8 | ((v >> 12) & 0x3F) as u8) != 37u8) by (bit_vector);
    }
}

proof fn lemma_encoding_has_no_percent(chars: Seq<char>)
    requires
        forall|i: int| 0 <= i < chars.len() ==> chars[i] != '%',
    ensures
        forall|k: int| 0 <= k < encode_utf8(chars).len() ==> #[trigger] encode_utf8(chars)[k] != 37,
    decreases chars.len(),
{
    if chars.len() > 0 {
        lemma_scalar_bytes_not_percent(chars[0]);
        lemma_encoding_has_no_percent(chars.drop_first());
        let first = encode_scalar(chars[0] as u32);
        let rest = encode_utf8(chars.drop_first());
        assert(encode_utf8(chars) == first + rest);
        assert forall|k: int| 0 <= k < encode_utf8(chars).len() implies #[trigger] encode_utf8(chars)[k] != 37 by {
            if k >= first.len() {
                assert(encode_utf8(chars)[k] == rest[k - first.len()]);
            }
        }
    }
}

proof fn lemma_encode_ascii_prefix(chars: Seq<char>, n: int)
    requires
        0 <= n <= chars.len(),
        forall|i: int| 0 <= i < n ==> (chars[i] as u32) < 0x80,
    ensures
        encode_utf8(chars).len() >= n,
        forall|i: int| 0 <= i < n ==> #[trigger] encode_utf8(chars)[i] == (chars[i] as u32) as u8,
        encode_utf8(chars).skip(n) == encode_utf8(chars.skip(n)),
    decreases n,
{
    if n > 0 {
        let c = chars[0] as u32;
        assert((c & 0x7F) as u8 == c as u8) by (bit_vector)
            requires c < 0x80;
        let rest = chars.drop_first();
        lemma_encode_ascii_prefix(rest, n - 1);
        assert(encode_utf8(chars) == seq![c as u8] + encode_utf8(rest));
        assert(rest.skip(n - 1) =~= chars.skip(n));
        assert(encode_utf8(chars).skip(n) =~= encode_utf8(rest).skip(n - 1));
        assert forall|i: int| 0 <= i < n implies #[trigger] encode_utf8(chars)[i] == (chars[i] as u32) as u8 by {
            if i > 0 {
                assert(encode_utf8(chars)[i] == encode_utf8(rest)[i - 1]);
                assert(rest[i - 1] == chars[i]);
            }
        }
    } else {
        assert(chars.skip(0) =~= chars);
        assert(encode_utf8(chars).skip(0) =~= encode_utf8(chars));
    }
}

/// Law: a `file://` URL without percent signs names exactly the text after
/// `file://`.
pub proof fn law_plain_file_url(url: Seq<char>)
    requires
        url.len() >= 7,
        url.take(7) == seq!['f', 'i', 'l', 'e', ':', '/', '/'],
        forall|i: int| 0 <= i < url.len() ==> url[i] != '%',
    ensures
        file_url_path(encode_utf8(url)) == Some(url.skip(7)),
{
    broadcast use encode_utf8_valid_utf8, encode_utf8_decode_utf8;

    let scheme = seq!['f', 'i', 'l', 'e', ':', '/', '/'];
    assert forall|i: int| 0 <= i < 7 implies (url[i] as u32) < 0x80 by {
        assert(url[i] == scheme[i]);
    }
    lemma_encode_ascii_prefix(url, 7);
    let bytes = encode_utf8(url);
    assert(bytes.take(7) =~= file_scheme()) by {
        assert forall|i: int| 0 <= i < 7 implies bytes.take(7)[i] == file_scheme()[i] by {
            assert(bytes[i] == (url[i] as u32) as u8);
            assert(url[i] == scheme[i]);
        }
    }
    let rest = url.skip(7);
    assert forall|i: int| 0 <= i < rest.len() implies rest[i] != '%' by {
        assert(rest[i] == url[i + 7]);
    }
    lemma_encoding_has_no_percent(rest);
    lemma_percent_decode_plain(encode_utf8(rest));
}

/// `escaped` is a percent-encoding of `bytes`: each byte of `bytes` stands
/// in `escaped` either as itself, which a `%` cannot, or as `%` followed by
/// two hexadecimal digits of its value, in either case.
pub open spec fn is_percent_encoding(escaped: Seq<u8>, bytes: Seq<u8>) -> bool
    decreases bytes.len(),
{
    if bytes.len() == 0 {
        escaped.len() == 0
    } else if escaped.len() >= 3 && escaped[0] == 37 && is_hex_digit(escaped[1]) && is_hex_digit(escaped[2])
        && 16 * hex_digit_value(escaped[1]) + hex_digit_value(escaped[2]) == bytes[0] {
        is_percent_encoding(escaped.skip(3), bytes.skip(1))
    } else {
        &&& escaped.len() >= 1
        &&& escaped[0] != 37
        &&& escaped[0] == bytes[0]
        &&& is_percent_encoding(escaped.skip(1), bytes.skip(1))
    }
}

proof fn lemma_percent_decode_undoes_encoding(escaped: Seq<u8>, bytes: Seq<u8>)
    requires
        is_percent_encoding(escaped, bytes),
    ensures
        percent_decode(escaped) == Some(bytes),
    decreases bytes.len(),
{
    if bytes.len() == 0 {
        assert(escaped =~= Seq::<u8>::empty());
    } else if escaped.len() >= 3 && escaped[0] == 37 && is_hex_digit(escaped[1]) && is_hex_digit(escaped[2])
        && 16 * hex_digit_value(escaped[1]) + hex_digit_value(escaped[2]) == bytes[0] {
        lemma_percent_decode_undoes_encoding(escaped.skip(3), bytes.skip(1));
        assert(hex_pair(escaped[1], escaped[2]) == Some(bytes[0]));
        assert(seq![bytes[0]] + bytes.skip(1) =~= bytes);
    } else {
        lemma_percent_decode_undoes_encoding(escaped.skip(1), bytes.skip(1));
        assert(seq![bytes[0]] + bytes.skip(1) =~= bytes);
    }
}

/// Law: percent-decoding undoes percent-encoding. A `file://` URL whose
/// rest, as UTF-8, is any percent-encoding of the UTF-8 bytes of `path`
/// names exactly `path`.
pub proof fn law_file_url_round_trip(path: Seq<char>, escaped: Seq<char>)
    requires
        is_percent_encoding(encode_utf8(escaped), encode_utf8(path)),
    ensures
        file_url_path(encode_utf8(seq!['f', 'i', 'l', 'e', ':', '/', '/'] + escaped)) == Some(path),
{
    broadcast use encode_utf8_valid_utf8, encode_utf8_decode_utf8;

    let scheme = seq!['f', 'i', 'l', 'e', ':', '/', '/'];
    let url = scheme + escaped;
    assert forall|i: int| 0 <= i < 7 implies (url[i] as u32) < 0x80 by {
        assert(url[i] == scheme[i]);
    }
    lemma_encode_ascii_prefix(url, 7);
    let bytes = encode_utf8(url);
    assert(bytes.take(7) =~= file_scheme()) by {
        assert forall|i: int| 0 <= i < 7 implies bytes.take(7)[i] == file_scheme()[i] by {
            assert(bytes[i] == (url[i] as u32) as u8);
            assert(url[i] == scheme[i]);
        }
    }
    assert(url.skip(7) =~= escaped);
    lemma_percent_decode_undoes_encoding(encode_utf8(escaped), encode_utf8(path));
}

/// The hexadecimal digits in upper case, `0` to `9` then `A` to `F`.
pub open spec fn upper_hex_digits() -> Seq<u8> {
    seq![48u8, 49u8, 50u8, 51u8, 52u8, 53u8, 54u8, 55u8, 56u8, 57u8, 65u8, 66u8, 67u8, 68u8, 69u8, 70u8]
}

/// The hexadecimal digits in lower case, `0` to `9` then `a` to `f`.
pub open spec fn lower_hex_digits() -> Seq<u8> {
    seq![48u8, 49u8, 50u8, 51u8, 52u8, 53u8, 54u8, 55u8, 56u8, 57u8, 97u8, 98u8, 99u8, 100u8, 101u8, 102u8]
}

proof fn lemma_hex_digit_tables(k: int)
    requires
        0 <= k < 16,
    ensures
        is_hex_digit(upper_hex_digits()[k]),
        hex_digit_value(upper_hex_digits()[k]) == k,
        is_hex_digit(lower_hex_digits()[k]),
        hex_digit_value(lower_hex_digits()[k]) == k,
{
    let u = upper_hex_digits();
    let l = lower_hex_digits();
    if k < 10 {
        assert(u[k] == 48 + k && l[k] == 48 + k);
    } else {
        assert(u[k] == 55 + k && l[k] == 87 + k);
    }
}

/// Law: a byte written as its two hexadecimal digits, high digit first, in
/// upper or in lower case, reads back as that byte.
pub proof fn law_hex_pair_reads_written_byte(v: u8)
    ensures
        hex_pair(upper_hex_digits()[(v / 16) as int], upper_hex_digits()[(v % 16) as int]) == Some(v),
        hex_pair(lower_hex_digits()[(v / 16) as int], lower_hex_digits()[(v % 16) as int]) == Some(v),
{
    lemma_hex_digit_tables((v / 16) as int);
    lemma_hex_digit_tables((v % 16) as int);
    assert(16 * (v / 16) + v % 16 == v);
}

} // verus!
