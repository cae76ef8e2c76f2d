//! Small string tools shared by the other modules.

use vstd::prelude::*;
use vstd::string::StringExecFns;
use vstd::utf8::decode_utf8;
use vstd::utf8::encode_utf8;
use vstd::utf8::valid_utf8;
use vstd::utf8::encode_utf8_decode_utf8;

verus! {

/// `String::push` appends the given character to the end of the string.
pub assume_specification[ String::push ](s: &mut String, c: char)
    ensures
        final(s)@ == old(s)@.push(c),
;

/// The views of a sequence of strings.
pub open spec fn texts(items: Seq<String>) -> Seq<Seq<char>> {
    items.map_values(|s: String| s@)
}

/// The view of an optional string.
pub open spec fn opt_text(item: Option<String>) -> Option<Seq<char>> {
    match item {
        Some(s) => Some(s@),
        None => None,
    }
}

/// Whether two strings hold the same characters.
pub fn same_text(a: &str, b: &str) -> (r: bool)
    ensures
        r == (a@ == b@),
{
    let x = a.as_bytes();
    let y = b.as_bytes();
    proof {
        encode_utf8_decode_utf8(a@);
        encode_utf8_decode_utf8(b@);
    }
    if x.len() != y.len() {
        return false;
    }
    let mut i: usize = 0;
    while i < x.len()
        invariant
            i <= x.len(),
            x@ == encode_utf8(a@),
            y@ == encode_utf8(b@),
            x@.len() == y@.len(),
            x@.take(i as int) == y@.take(i as int),
        decreases x.len() - i,
    {
        if x[i] != y[i] {
            return false;
        }
        i += 1;
    }
    assert(x@ =~= x@.take(i as int));
    assert(y@ =~= y@.take(i as int));
    true
}

/// The index of the first `x` in `s`, or the length of `s` where it has none.
pub open spec fn position<T>(s: Seq<T>, x: T) -> nat
    decreases s.len(),
{
    if s.len() == 0 {
        0
    } else if s[0] == x {
        0
    } else {
        1 + position(s.skip(1), x)
    }
}

/// Where `x` does not occur in `head`, the first `x` of `head + [x] + tail`
/// stands right behind `head`.
pub proof fn lemma_position_found<T>(head: Seq<T>, x: T, tail: Seq<T>)
    requires
        forall|i: int| 0 <= i < head.len() ==> head[i] != x,
    ensures
        position(head + seq![x] + tail, x) == head.len(),
    decreases head.len(),
{
    let s = head + seq![x] + tail;
    if head.len() > 0 {
        assert(s.skip(1) =~= head.skip(1) + seq![x] + tail);
        lemma_position_found(head.skip(1), x, tail);
    }
}

/// Where `x` does not occur in `s`, `position` gives the length of `s`.
pub proof fn lemma_position_absent<T>(s: Seq<T>, x: T)
    requires
        forall|i: int| 0 <= i < s.len() ==> s[i] != x,
    ensures
        position(s, x) == s.len(),
    decreases s.len(),
{
    if s.len() > 0 {
        lemma_position_absent(s.skip(1), x);
    }
}

/// The parts in order, with `sep` between them.
pub open spec fn joined(parts: Seq<Seq<char>>, sep: char) -> Seq<char>
    decreases parts.len(),
{
    if parts.len() == 0 {
        Seq::empty()
    } else if parts.len() == 1 {
        parts[0]
    } else {
        parts[0] + seq![sep] + joined(parts.skip(1), sep)
    }
}

/// The stretches of `s` between occurrences of `sep`.
pub open spec fn words(s: Seq<char>, sep: char) -> Seq<Seq<char>>
    decreases s.len(),
{
    let k = position(s, sep) as int;
    if k < s.len() {
        seq![s.take(k)] + words(s.skip(k + 1), sep)
    } else {
        seq![s]
    }
}

/// Splitting a joined list gives the list back, as long as it has a part and
/// no part holds the separator.
pub proof fn lemma_words_joined(parts: Seq<Seq<char>>, sep: char)
    requires
        parts.len() > 0,
        forall|i: int| 0 <= i < parts.len() ==> !parts[i].contains(sep),
    ensures
        words(joined(parts, sep), sep) == parts,
    decreases parts.len(),
{
    let s = joined(parts, sep);
    let k = position(s, sep) as int;
    assert forall|i: int| 0 <= i < parts[0].len() implies parts[0][i] != sep by {
        if parts[0][i] == sep {
        }
    }
    if parts.len() == 1 {
        lemma_position_absent(parts[0], sep);
    } else {
        let rest = joined(parts.skip(1), sep);
        lemma_position_found(parts[0], sep, rest);
        assert(s.take(k) =~= parts[0]);
        assert(s.skip(k + 1) =~= rest);
        assert forall|i: int| 0 <= i < parts.skip(1).len() implies !parts.skip(1)[i].contains(
            sep,
        ) by {
        }
        lemma_words_joined(parts.skip(1), sep);
    }
}

/// Joins strings with a separator between them.
pub fn join(parts: &Vec<String>, sep: char) -> (r: String)
    ensures
        r@ == joined(texts(parts@), sep),
{
    let mut out = String::new();
    let ghost all = texts(parts@);
    let mut i: usize = 0;
    assert(all.skip(0) =~= all);
    while i < parts.len()
        invariant
            i <= parts.len(),
            all == texts(parts@),
            out@ + joined(all.skip(i as int), sep) == joined(all, sep),
        decreases parts.len() - i,
    {
        let ghost remaining = all.skip(i as int);
        proof {
            assert(remaining.skip(1) =~= all.skip(i + 1));
        }
        out.append(parts[i].as_str());
        if i + 1 < parts.len() {
            out.push(sep);
        }
        i += 1;
    }
    out
}

/// `s` with every occurrence of `c` taken out.
pub open spec fn without(s: Seq<char>, c: char) -> Seq<char> {
    s.filter(|x: char| x != c)
}

/// Removes every occurrence of `c` from `s`.
pub fn remove_char(s: &str, c: char) -> (r: String)
    ensures
        r@ == without(s@, c),
{
    let mut out = String::new();
    proof {
        reveal(Seq::filter);
    }
    for x in iter: s.chars()
        invariant
            iter.seq() == s@,
            out@ == without(iter.seq().take(iter.index()), c),
    {
        proof {
            let t = iter.seq().take(iter.index() + 1);
            assert(t.drop_last() =~= iter.seq().take(iter.index()));
            reveal(Seq::filter);
        }
        if x != c {
            out.push(x);
        }
    }
    assert(s@.take(s@.len() as int) =~= s@);
    out
}

/// What `{:?}` prints for a string: the text between double quotes, with
/// std's escapes.
pub uninterp spec fn debug_text(s: Seq<char>) -> Seq<char>;

/// Formats a string slice with `{:?}`, that is with std's `Debug` for `str`.
/// The contract claims only that the outcome is the one named
/// [`debug_text`]: the same characters always print the same way.
#[verifier::external_body]
pub(crate) fn debug_format(s: &str) -> (r: String)
    ensures
        r@ == debug_text(s@),
{
    format!("{:?}", s)
}

/// `label` followed by `value` as `{:?}` prints it.
pub fn labelled_debug(label: &str, value: &str) -> (r: String)
    ensures
        r@ == label@ + debug_text(value@),
{
    let mut out = label.to_owned();
    let quoted = debug_format(value);
    out.append(quoted.as_str());
    out
}

/// What `String::from_utf8_lossy` makes of bytes that are not valid UTF-8.
pub uninterp spec fn lossy_text(bytes: Seq<u8>) -> Seq<char>;

/// The text that bytes stand for: their characters where they are valid
/// UTF-8, and otherwise what a lossy conversion makes of them.
pub open spec fn text_of_bytes(bytes: Seq<u8>) -> Seq<char> {
    if valid_utf8(bytes) {
        decode_utf8(bytes)
    } else {
        lossy_text(bytes)
    }
}

/// Calls `String::from_utf8_lossy`. Its documentation says that valid UTF-8
/// is converted as it stands, which the contract states; of other input the
/// contract claims only that the outcome is the one named [`lossy_text`].
#[verifier::external_body]
pub(crate) fn from_utf8_lossy(bytes: &[u8]) -> (r: String)
    ensures
        r@ == if valid_utf8(bytes@) {
            decode_utf8(bytes@)
        } else {
            lossy_text(bytes@)
        },
{
    String::from_utf8_lossy(bytes).into_owned()
}

/// The character of a decimal digit.
pub open spec fn digit_char(d: nat) -> char
    recommends
        d < 10,
{
    (0x30 + d) as u8 as char
}

/// The decimal numeral of a natural number, without leading zeros.
pub open spec fn decimal_text(n: nat) -> Seq<char>
    decreases n,
{
    if n < 10 {
        seq![digit_char(n)]
    } else {
        decimal_text(n / 10).push(digit_char(n % 10))
    }
}

/// The decimal numeral of an integer, with a minus sign where it is negative.
pub open spec fn signed_decimal_text(n: int) -> Seq<char> {
    if n < 0 {
        seq!['-'] + decimal_text((-n) as nat)
    } else {
        decimal_text(n as nat)
    }
}

/// Appends the decimal numeral of `n` to `out`.
pub fn push_decimal(out: &mut String, n: u64)
    ensures
        final(out)@ == old(out)@ + decimal_text(n as nat),
    decreases n,
{
    if n >= 10 {
        push_decimal(out, n / 10);
    }
    let d: u8 = (n % 10) as u8;
    out.push((0x30 + d) as char);
    proof {
        if n >= 10 {
        }
    }
}

/// The decimal numeral of `n`.
pub fn decimal(n: u64) -> (r: String)
    ensures
        r@ == decimal_text(n as nat),
{
    let mut out = String::new();
    push_decimal(&mut out, n);
    out
}

/// Appends the signed decimal numeral of `n` to `out`.
pub fn push_signed_decimal(out: &mut String, n: i64)
    ensures
        final(out)@ == old(out)@ + signed_decimal_text(n as int),
{
    if n < 0 {
        out.push('-');
        let magnitude: u64 = if n == i64::MIN {
            0x8000_0000_0000_0000u64
        } else {
            (-n) as u64
        };
        push_decimal(out, magnitude);
    } else {
        push_decimal(out, n as u64);
    }
}

} // verus!
