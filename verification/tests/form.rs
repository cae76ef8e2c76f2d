use tdi::form::decode_bytes;
use tdi::form::find_byte;
use tdi::form::parse_pairs;
use tdi::form::push_encoded;
use tdi::form::read_pair;
use tdi::form::serialize_pairs;

fn encoded(s: &str) -> String {
    let mut out = String::new();
    push_encoded(&mut out, s);
    out
}

fn pair(name: &str, value: &str) -> (Vec<u8>, Vec<u8>) {
    (name.as_bytes().to_vec(), value.as_bytes().to_vec())
}

#[test]
fn plain_bytes_are_written_as_themselves() {
    let plain = "ABCDEFGHIJKLMNOPQRSTUVWXYZabcdefghijklmnopqrstuvwxyz0123456789*-._";
    assert_eq!(encoded(plain), plain);
}

#[test]
fn space_is_written_as_plus() {
    assert_eq!(encoded("a b  c"), "a+b++c");
}

#[test]
fn other_bytes_are_percent_escaped_in_upper_case() {
    assert_eq!(encoded("/:?#[]@!$&'()+,;=%~"), "%2F%3A%3F%23%5B%5D%40%21%24%26%27%28%29%2B%2C%3B%3D%25%7E");
    assert_eq!(encoded("\u{0}\n\u{7f}"), "%00%0A%7F");
    assert_eq!(encoded("\u{e9}\u{20ac}\u{1f600}"), "%C3%A9%E2%82%AC%F0%9F%98%80");
}

#[test]
fn push_encoded_appends() {
    let mut out = String::from("x=");
    push_encoded(&mut out, "1 2");
    assert_eq!(out, "x=1+2");
}

#[test]
fn serialize_joins_pairs_with_ampersands() {
    assert_eq!(serialize_pairs(&[]), "");
    assert_eq!(serialize_pairs(&[("a", "1")]), "a=1");
    assert_eq!(serialize_pairs(&[("a", "1"), ("b c", "d&e"), ("", "")]), "a=1&b+c=d%26e&=");
}

#[test]
fn decode_reads_plus_and_escapes() {
    assert_eq!(decode_bytes(b"a+b"), b"a b");
    assert_eq!(decode_bytes(b"%41%42%43"), b"ABC");
    assert_eq!(decode_bytes(b"%2b%2B"), b"++");
    assert_eq!(decode_bytes(b"%e9%FF"), vec![0xe9u8, 0xff]);
    assert_eq!(decode_bytes(b""), b"");
}

#[test]
fn decode_leaves_broken_escapes_alone() {
    assert_eq!(decode_bytes(b"%"), b"%");
    assert_eq!(decode_bytes(b"%4"), b"%4");
    assert_eq!(decode_bytes(b"%zz1"), b"%zz1");
    assert_eq!(decode_bytes(b"%4g"), b"%4g");
    assert_eq!(decode_bytes(b"%%41"), b"%A");
    assert_eq!(decode_bytes(b"100%+sure"), b"100% sure");
}

#[test]
fn find_byte_gives_first_index_or_length() {
    assert_eq!(find_byte(b"a=b=c", b'='), 1);
    assert_eq!(find_byte(b"abc", b'='), 3);
    assert_eq!(find_byte(b"", b'='), 0);
    assert_eq!(find_byte(b"=", b'='), 0);
}

#[test]
fn read_pair_splits_at_first_equals() {
    assert_eq!(read_pair(b"a=b=c"), pair("a", "b=c"));
    assert_eq!(read_pair(b"name"), pair("name", ""));
    assert_eq!(read_pair(b"=v"), pair("", "v"));
    assert_eq!(read_pair(b"k="), pair("k", ""));
    assert_eq!(read_pair(b"%6b+=+%76"), pair("k ", " v"));
}

#[test]
fn parse_skips_empty_pieces() {
    assert_eq!(parse_pairs(b""), vec![]);
    assert_eq!(parse_pairs(b"&&"), vec![]);
    assert_eq!(parse_pairs(b"&a=1&&b=2&"), vec![pair("a", "1"), pair("b", "2")]);
    assert_eq!(parse_pairs(b"a"), vec![pair("a", "")]);
    assert_eq!(parse_pairs(b"%23first=%25try%25"), vec![pair("#first", "%try%")]);
}

#[test]
fn parse_reads_back_what_serialize_wrote() {
    let pairs = [
        ("client_id", "CLIENTID"),
        ("scope", "a b c"),
        ("redirect_uri", "http://localhost:8000/redirect?x=1&y=2"),
        ("odd name=&", "\u{e9}+%41"),
        ("", ""),
    ];
    let text = serialize_pairs(&pairs);
    let expected: Vec<(Vec<u8>, Vec<u8>)> = pairs.iter().map(|(n, v)| pair(n, v)).collect();
    assert_eq!(parse_pairs(text.as_bytes()), expected);
}
