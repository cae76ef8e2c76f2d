//! The `application/x-www-form-urlencoded` syntax: how names and values are
//! written into a query string or a form body, and how they are read back.

use vstd::prelude::*;
use vstd::slice::slice_subrange;
use vstd::utf8::encode_utf8;
use vstd::utf8::is_ascii_chars;
use vstd::utf8::is_ascii_chars_encode_utf8;
use crate::text::lemma_position_absent;
use crate::text::lemma_position_found;
use crate::text::position;

verus! {

/// Whether the serializer writes `b` as itself.
pub open spec fn is_plain(b: u8) -> bool {
    ||| 0x30 <= b <= 0x39
    ||| 0x41 <= b <= 0x5a
    ||| 0x61 <= b <= 0x7a
    ||| b == 0x2a
    ||| b == 0x2d
    ||| b == 0x2e
    ||| b == 0x5f
}

/// The upper-case hexadecimal digit for a value below sixteen.
pub open spec fn hex_digit(v: int) -> u8
    recommends
        0 <= v < 16,
{
    if v < 10 {
        (0x30 + v) as u8
    } else {
        (0x41 + (v - 10)) as u8
    }
}

/// The value of a hexadecimal digit of either case.
pub open spec fn hex_value(d: u8) -> Option<int> {
    if 0x30 <= d <= 0x39 {
        Some(d - 0x30)
    } else if 0x41 <= d <= 0x46 {
        Some(d - 0x41 + 10)
    } else if 0x61 <= d <= 0x66 {
        Some(d - 0x61 + 10)
    } else {
        None
    }
}

/// How one byte is written: itself where it is plain, `+` for a space, and
/// otherwise `%` with two upper-case hexadecimal digits.
pub open spec fn encode_byte(b: u8) -> Seq<u8> {
    if is_plain(b) {
        seq![b]
    } else if b == 0x20 {
        seq![0x2bu8]
    } else {
        seq![0x25u8, hex_digit(b as int / 16), hex_digit(b as int % 16)]
    }
}

/// How a byte string is written.
pub open spec fn encode(bytes: Seq<u8>) -> Seq<u8>
    decreases bytes.len(),
{
    if bytes.len() == 0 {
        Seq::empty()
    } else {
        encode_byte(bytes[0]) + encode(bytes.skip(1))
    }
}

/// Whether `s` starts with `%` and two hexadecimal digits.
pub open spec fn starts_escaped(s: Seq<u8>) -> bool {
    &&& s.len() >= 3
    &&& s[0] == 0x25
    &&& hex_value(s[1]) is Some
    &&& hex_value(s[2]) is Some
}

/// How a written byte string is read: `+` is a space, `%` with two
/// hexadecimal digits is the byte they spell, anything else is itself.
pub open spec fn decode(s: Seq<u8>) -> Seq<u8>
    decreases s.len(),
{
    if s.len() == 0 {
        Seq::empty()
    } else if s[0] == 0x2b {
        seq![0x20u8] + decode(s.skip(1))
    } else if starts_escaped(s) {
        seq![(hex_value(s[1]).unwrap() * 16 + hex_value(s[2]).unwrap()) as u8] + decode(s.skip(3))
    } else {
        seq![s[0]] + decode(s.skip(1))
    }
}

/// A name with its value, both as bytes.
pub type Pair = (Seq<u8>, Seq<u8>);

/// How one pair is written: the name, `=`, the value.
pub open spec fn pair_text(pair: Pair) -> Seq<u8> {
    encode(pair.0) + seq![0x3du8] + encode(pair.1)
}

/// How a list of pairs is written: the pairs in order, `&` between them.
pub open spec fn serialize(pairs: Seq<Pair>) -> Seq<u8>
    decreases pairs.len(),
{
    if pairs.len() == 0 {
        Seq::empty()
    } else if pairs.len() == 1 {
        pair_text(pairs[0])
    } else {
        pair_text(pairs[0]) + seq![0x26u8] + serialize(pairs.skip(1))
    }
}

/// The pair that one piece between two `&` holds: what stands before the
/// first `=` is the name, what follows is the value; without `=` the value is
/// empty.
pub open spec fn pair_of(piece: Seq<u8>) -> Pair {
    let k = position(piece, 0x3du8) as int;
    if k < piece.len() {
        (decode(piece.take(k)), decode(piece.skip(k + 1)))
    } else {
        (decode(piece), Seq::empty())
    }
}

/// The pairs that a query string or form body holds. Empty pieces are passed
/// over.
pub open spec fn parse(input: Seq<u8>) -> Seq<Pair>
    decreases input.len(),
{
    if input.len() == 0 {
        Seq::empty()
    } else {
        let k = position(input, 0x26u8) as int;
        let rest = if k < input.len() {
            input.skip(k + 1)
        } else {
            Seq::empty()
        };
        if k == 0 {
            parse(rest)
        } else {
            seq![pair_of(input.take(k))] + parse(rest)
        }
    }
}

/// The text whose characters are the given ASCII bytes.
pub open spec fn ascii_text(bytes: Seq<u8>) -> Seq<char> {
    Seq::new(bytes.len(), |i: int| bytes[i] as char)
}

/// A pair of strings as a pair of UTF-8 byte strings.
pub open spec fn utf8_pair(pair: (Seq<char>, Seq<char>)) -> Pair {
    (encode_utf8(pair.0), encode_utf8(pair.1))
}

/// Pairs of strings as pairs of UTF-8 byte strings.
pub open spec fn utf8_pairs(pairs: Seq<(Seq<char>, Seq<char>)>) -> Seq<Pair> {
    pairs.map_values(|p: (Seq<char>, Seq<char>)| utf8_pair(p))
}

/// The views of a list of exec pairs.
pub open spec fn str_pairs(pairs: Seq<(&str, &str)>) -> Seq<(Seq<char>, Seq<char>)> {
    pairs.map_values(|p: (&str, &str)| (p.0@, p.1@))
}

/// The views of a list of parsed pairs.
pub open spec fn byte_pairs(pairs: Seq<(Vec<u8>, Vec<u8>)>) -> Seq<Pair> {
    pairs.map_values(|p: (Vec<u8>, Vec<u8>)| (p.0@, p.1@))
}

/// The query string or form body for pairs of strings.
pub open spec fn form_text(pairs: Seq<(Seq<char>, Seq<char>)>) -> Seq<char> {
    ascii_text(serialize(utf8_pairs(pairs)))
}

/// Every byte that `encode` writes is plain, `+` or `%`.
pub proof fn lemma_encode_alphabet(bytes: Seq<u8>, i: int)
    requires
        0 <= i < encode(bytes).len(),
    ensures
        is_plain(encode(bytes)[i]) || encode(bytes)[i] == 0x2b || encode(bytes)[i] == 0x25,
    decreases bytes.len(),
{
    if bytes.len() > 0 {
        let head = encode_byte(bytes[0]);
        if i >= head.len() {
            lemma_encode_alphabet(bytes.skip(1), i - head.len());
        }
    }
}

/// Reading what was written gives the bytes back, whatever follows as long
/// as it is read on its own.
proof fn lemma_decode_step(b: u8, tail: Seq<u8>)
    ensures
        decode(encode_byte(b) + tail) == seq![b] + decode(tail),
{
    let s = encode_byte(b) + tail;
    if is_plain(b) || b == 0x20 {
        assert(s.skip(1) =~= tail);
    } else {
        assert(s.skip(3) =~= tail);
    }
}

/// Reading what the serializer wrote for a byte string gives that byte string.
pub proof fn lemma_decode_encode(bytes: Seq<u8>)
    ensures
        decode(encode(bytes)) == bytes,
    decreases bytes.len(),
{
    if bytes.len() > 0 {
        lemma_decode_encode(bytes.skip(1));
        lemma_decode_step(bytes[0], encode(bytes.skip(1)));
    }
}

/// Neither `&` nor `=` occurs in what `encode` writes.
proof fn lemma_encode_has_no_separator(bytes: Seq<u8>)
    ensures
        forall|i: int|
            0 <= i < encode(bytes).len() ==> encode(bytes)[i] != 0x26 && encode(bytes)[i] != 0x3d,
{
    let written = encode(bytes);
    assert forall|i: int| 0 <= i < written.len() implies written[i] != 0x26 && written[i]
        != 0x3d by {
        lemma_encode_alphabet(bytes, i);
    }
}

/// Reading one written pair gives the pair back.
proof fn lemma_pair_round_trip(pair: Pair)
    ensures
        pair_of(pair_text(pair)) == pair,
        pair_text(pair).len() > 0,
        forall|i: int| 0 <= i < pair_text(pair).len() ==> pair_text(pair)[i] != 0x26,
{
    let name = encode(pair.0);
    let value = encode(pair.1);
    let piece = pair_text(pair);
    lemma_encode_has_no_separator(pair.0);
    lemma_encode_has_no_separator(pair.1);
    lemma_position_found(name, 0x3du8, value);
    assert(piece.take(name.len() as int) =~= name);
    assert(piece.skip(name.len() as int + 1) =~= value);
    lemma_decode_encode(pair.0);
    lemma_decode_encode(pair.1);
}

/// Round trip: reading what the serializer wrote for a list of pairs gives
/// exactly those pairs, in their order.
pub proof fn lemma_parse_serialize(pairs: Seq<Pair>)
    ensures
        parse(serialize(pairs)) == pairs,
    decreases pairs.len(),
{
    if pairs.len() > 0 {
        let piece = pair_text(pairs[0]);
        lemma_pair_round_trip(pairs[0]);
        let input = serialize(pairs);
        let k = position(input, 0x26u8) as int;
        if pairs.len() == 1 {
            lemma_position_absent(piece, 0x26u8);
            assert(input.take(k) =~= piece);
            assert(parse(Seq::<u8>::empty()) =~= Seq::<Pair>::empty());
        } else {
            let rest = serialize(pairs.skip(1));
            lemma_position_found(piece, 0x26u8, rest);
            assert(input.take(k) =~= piece);
            assert(input.skip(k + 1) =~= rest);
            lemma_parse_serialize(pairs.skip(1));
        }
    }
}

fn hex_digit_of(v: u8) -> (d: u8)
    requires
        v < 16,
    ensures
        d == hex_digit(v as int),
{
    if v < 10 {
        0x30 + v
    } else {
        0x41 + (v - 10)
    }
}

fn hex_value_of(d: u8) -> (v: Option<u8>)
    ensures
        match v {
            Some(x) => hex_value(d) == Some(x as int),
            None => hex_value(d) is None,
        },
{
    if 0x30 <= d && d <= 0x39 {
        Some(d - 0x30)
    } else if 0x41 <= d && d <= 0x46 {
        Some(d - 0x41 + 10)
    } else if 0x61 <= d && d <= 0x66 {
        Some(d - 0x61 + 10)
    } else {
        None
    }
}

fn plain(b: u8) -> (r: bool)
    ensures
        r == is_plain(b),
{
    (0x30 <= b && b <= 0x39) || (0x41 <= b && b <= 0x5a) || (0x61 <= b && b <= 0x7a) || b == 0x2a
        || b == 0x2d || b == 0x2e || b == 0x5f
}

/// Appends the written form of the bytes of `s` to `out`.
pub fn push_encoded(out: &mut String, s: &str)
    ensures
        final(out)@ == old(out)@ + ascii_text(encode(encode_utf8(s@))),
{
    let bytes = s.as_bytes();
    let ghost start = out@;
    let mut i: usize = 0;
    assert(bytes@.skip(0) =~= bytes@);
    while i < bytes.len()
        invariant
            i <= bytes.len(),
            bytes@ == encode_utf8(s@),
            out@ + ascii_text(encode(bytes@.skip(i as int))) == start + ascii_text(encode(bytes@)),
        decreases bytes.len() - i,
    {
        let b = bytes[i];
        proof {
            assert(bytes@.skip(i as int).skip(1) =~= bytes@.skip(i + 1));
        }
        if plain(b) {
            out.push(b as char);
        } else if b == 0x20 {
            out.push('+');
        } else {
            out.push('%');
            out.push(hex_digit_of(b / 16) as char);
            out.push(hex_digit_of(b % 16) as char);
        }
        i += 1;
    }
}

/// Writes pairs of strings as one query string or form body.
pub fn serialize_pairs(pairs: &[(&str, &str)]) -> (r: String)
    ensures
        r@ == form_text(str_pairs(pairs@)),
{
    let mut out = String::new();
    let ghost all = utf8_pairs(str_pairs(pairs@));
    let mut i: usize = 0;
    assert(all.skip(0) =~= all);
    while i < pairs.len()
        invariant
            i <= pairs.len(),
            all == utf8_pairs(str_pairs(pairs@)),
            all.len() == pairs.len(),
            out@ + ascii_text(serialize(all.skip(i as int))) == ascii_text(serialize(all)),
        decreases pairs.len() - i,
    {
        let ghost remaining = all.skip(i as int);
        let (name, value) = pairs[i];
        proof {
            assert(remaining.skip(1) =~= all.skip(i + 1));
        }
        push_encoded(&mut out, name);
        out.push('=');
        push_encoded(&mut out, value);
        if i + 1 < pairs.len() {
            out.push('&');
        }
        i += 1;
    }
    out
}

/// Reads a written byte string.
pub fn decode_bytes(input: &[u8]) -> (r: Vec<u8>)
    ensures
        r@ == decode(input@),
{
    let mut out: Vec<u8> = Vec::new();
    let mut i: usize = 0;
    assert(input@.skip(0) =~= input@);
    while i < input.len()
        invariant
            i <= input.len(),
            out@ + decode(input@.skip(i as int)) == decode(input@),
        decreases input.len() - i,
    {
        let ghost s = input@.skip(i as int);
        let b = input[i];
        if b == 0x2b {
            out.push(0x20);
            proof {
                assert(s.skip(1) =~= input@.skip(i + 1));
            }
            i += 1;
        } else {
            let mut escaped: Option<u8> = None;
            if b == 0x25 && input.len() - i >= 3 {
                match (hex_value_of(input[i + 1]), hex_value_of(input[i + 2])) {
                    (Some(hi), Some(lo)) => {
                        escaped = Some(hi * 16 + lo);
                    },
                    _ => {},
                }
            }
            match escaped {
                Some(byte) => {
                    out.push(byte);
                    proof {
                        assert(s.skip(3) =~= input@.skip(i + 3));
                    }
                    i += 3;
                },
                None => {
                    out.push(b);
                    proof {
                        assert(s.skip(1) =~= input@.skip(i + 1));
                    }
                    i += 1;
                },
            }
        }
    }
    out
}

/// The index of the first `b` in `s`, or the length of `s`.
pub fn find_byte(s: &[u8], b: u8) -> (k: usize)
    ensures
        k == position(s@, b),
        k <= s.len(),
{
    let mut i: usize = 0;
    assert(s@.skip(0) =~= s@);
    while i < s.len()
        invariant
            i <= s.len(),
            position(s@, b) == i + position(s@.skip(i as int), b),
        decreases s.len() - i,
    {
        if s[i] == b {
            return i;
        }
        assert(s@.skip(i as int).skip(1) =~= s@.skip(i + 1));
        i += 1;
    }
    i
}

/// Reads the pair that one piece holds.
pub fn read_pair(piece: &[u8]) -> (r: (Vec<u8>, Vec<u8>))
    ensures
        (r.0@, r.1@) == pair_of(piece@),
{
    let k = find_byte(piece, 0x3d);
    if k < piece.len() {
        let name = decode_bytes(slice_subrange(piece, 0, k));
        let value = decode_bytes(slice_subrange(piece, k + 1, piece.len()));
        (name, value)
    } else {
        (decode_bytes(piece), Vec::new())
    }
}

/// Reads the pairs of a query string or form body.
pub fn parse_pairs(input: &[u8]) -> (r: Vec<(Vec<u8>, Vec<u8>)>)
    ensures
        byte_pairs(r@) == parse(input@),
{
    let mut out: Vec<(Vec<u8>, Vec<u8>)> = Vec::new();
    let mut rest: &[u8] = input;
    while rest.len() > 0
        invariant
            byte_pairs(out@) + parse(rest@) == parse(input@),
        decreases rest.len(),
    {
        let ghost s = rest@;
        let k = find_byte(rest, 0x26);
        let next = if k < rest.len() {
            slice_subrange(rest, k + 1, rest.len())
        } else {
            slice_subrange(rest, rest.len(), rest.len())
        };
        proof {
            if k >= s.len() {
                assert(next@ =~= Seq::<u8>::empty());
            }
        }
        if k > 0 {
            let pair = read_pair(slice_subrange(rest, 0, k));
            out.push(pair);
        }
        rest = next;
    }
    out
}

/// Whether a byte may stand in a query string or form body as the
/// serializer writes it: a plain byte, `+`, `%`, `=` or `&`.
pub open spec fn is_form_byte(b: u8) -> bool {
    is_plain(b) || b == 0x2b || b == 0x25 || b == 0x3d || b == 0x26
}

/// Every byte that the serializer writes for a list of pairs is a plain
/// byte, `+`, `%`, `=` or `&`, and so an ASCII byte that needs no further
/// escaping in a URL.
pub proof fn lemma_serialize_alphabet(pairs: Seq<Pair>, i: int)
    requires
        0 <= i < serialize(pairs).len(),
    ensures
        is_form_byte(serialize(pairs)[i]),
        serialize(pairs)[i] < 128,
    decreases pairs.len(),
{
    let name = encode(pairs[0].0);
    let value = encode(pairs[0].1);
    let piece = pair_text(pairs[0]);
    if i < name.len() {
        lemma_encode_alphabet(pairs[0].0, i);
    } else if i == name.len() {
    } else if i < piece.len() {
        lemma_encode_alphabet(pairs[0].1, i - name.len() - 1);
    } else if i == piece.len() {
    } else {
        lemma_serialize_alphabet(pairs.skip(1), i - piece.len() - 1);
    }
}

/// The bytes of a query string or form body are what the serializer wrote:
/// one byte for each character.
pub proof fn lemma_form_text_bytes(pairs: Seq<(Seq<char>, Seq<char>)>)
    ensures
        encode_utf8(form_text(pairs)) == serialize(utf8_pairs(pairs)),
{
    let bytes = serialize(utf8_pairs(pairs));
    let chars = form_text(pairs);
    assert forall|i: int| 0 <= i < chars.len() implies '\0' <= #[trigger] chars[i] <= '\u{7f}' by {
        lemma_serialize_alphabet(utf8_pairs(pairs), i);
    }
    is_ascii_chars_encode_utf8(chars);
    assert forall|i: int| 0 <= i < bytes.len() implies encode_utf8(chars)[i] == bytes[i] by {
        lemma_serialize_alphabet(utf8_pairs(pairs), i);
    }
}

} // verus!
