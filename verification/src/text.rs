//! Text: comparing strings, and the JSON text of numbers and booleans, read
//! and written with `serde_json`.
use vstd::prelude::*;
use vstd::utf8::encode_utf8_decode_utf8;
use vstd::string::StringSliceAdditionalSpecFns;
use vstd::string::StringExecFns;

verus! {

/// `a` and `b` hold the same characters.
pub fn str_eq(a: &str, b: &str) -> (r: bool)
    ensures
        r == (a@ == b@),
{
    let x = a.as_bytes();
    let y = b.as_bytes();
    proof {
        encode_utf8_decode_utf8(a@);
        encode_utf8_decode_utf8(b@);
    }
    if x.len() != y.len() {
        return false;
    }
    let mut i: usize = 0;
    while i < x.len()
        invariant
            i <= x.len(),
            x.len() == y.len(),
            x@ == a.spec_bytes(),
            y@ == b.spec_bytes(),
            forall|j: int| 0 <= j < i ==> x@[j] == y@[j],
        decreases x.len() - i,
    {
        if x[i] != y[i] {
            return false;
        }
        i = i + 1;
    }
    assert(x@ =~= y@);
    true
}

/// The decimal digit `d`.
pub open spec fn digit(d: nat) -> char {
    (48 + d) as char
}

/// The decimal digits of `n`, without leading zeros.
pub open spec fn decimal(n: nat) -> Seq<char>
    decreases n,
{
    if n < 10 {
        seq![digit(n)]
    } else {
        decimal(n / 10).push(digit(n % 10))
    }
}

/// The decimal text of `n`, with a minus sign when negative.
pub open spec fn int_decimal(n: int) -> Seq<char> {
    if n < 0 {
        seq!['-'] + decimal((-n) as nat)
    } else {
        decimal(n as nat)
    }
}

/// JSON white space: space, line feed, tab and carriage return.
pub open spec fn is_json_space(c: char) -> bool {
    c == ' ' || c == '\n' || c == '\t' || c == '\r'
}

/// `s` without its leading JSON white space.
pub open spec fn json_strip_leading(s: Seq<char>) -> Seq<char>
    decreases s.len(),
{
    if s.len() > 0 && is_json_space(s[0]) {
        json_strip_leading(s.drop_first())
    } else {
        s
    }
}

/// `s` without its trailing JSON white space.
pub open spec fn json_strip_trailing(s: Seq<char>) -> Seq<char>
    decreases s.len(),
{
    if s.len() > 0 && is_json_space(s.last()) {
        json_strip_trailing(s.drop_last())
    } else {
        s
    }
}

/// The JSON value text in `s`: `s` without the white space around it.
pub open spec fn json_core(s: Seq<char>) -> Seq<char> {
    json_strip_trailing(json_strip_leading(s))
}

/// `t` is a JSON integer written without sign, fraction, exponent or
/// leading zero.
pub open spec fn plain_digits(t: Seq<char>) -> bool {
    &&& t.len() > 0
    &&& forall|i: int| 0 <= i < t.len() ==> is_digit(#[trigger] t[i])
    &&& t.len() == 1 || t[0] != '0'
}

/// What `serde_json::from_str` makes of a text for an unsigned integer type
/// whose largest value is `max`: white space, a JSON integer written without
/// sign, fraction, exponent or leading zero, whose value is at most `max`,
/// and white space; `None` for any other text.
pub open spec fn json_unsigned(s: Seq<char>, max: int) -> Option<int> {
    let t = json_core(s);
    if plain_digits(t) && digits_value(t) <= max {
        Some(digits_value(t))
    } else {
        None
    }
}

/// What `serde_json::from_str::<u8>` makes of a text: see `json_unsigned`.
pub open spec fn json_u8(s: Seq<char>) -> Option<u8> {
    match json_unsigned(s, 255) {
        Some(v) => Some(v as u8),
        None => None,
    }
}

/// What `serde_json::from_str::<u16>` makes of a text: see `json_unsigned`.
pub open spec fn json_u16(s: Seq<char>) -> Option<u16> {
    match json_unsigned(s, 65535) {
        Some(v) => Some(v as u16),
        None => None,
    }
}

/// What `serde_json::from_str::<u32>` makes of a text: see `json_unsigned`.
pub open spec fn json_u32(s: Seq<char>) -> Option<u32> {
    match json_unsigned(s, 0xffff_ffff) {
        Some(v) => Some(v as u32),
        None => None,
    }
}

/// What `serde_json::from_str::<i16>` makes of a text: white space, a JSON
/// integer as for `json_unsigned` up to 32767, or a minus sign and such an
/// integer from 1 to 32768 (`-0` is read as a float and refused), and white
/// space; `None` for any other text.
pub open spec fn json_i16(s: Seq<char>) -> Option<i16> {
    let t = json_core(s);
    if t.len() > 0 && t[0] == '-' {
        let u = t.drop_first();
        if plain_digits(u) && 1 <= digits_value(u) <= 32768 {
            Some((-digits_value(u)) as i16)
        } else {
            None
        }
    } else if plain_digits(t) && digits_value(t) <= 32767 {
        Some(digits_value(t) as i16)
    } else {
        None
    }
}

/// `t` holds no character that a JSON string must escape: no quote, no
/// backslash and no control character below 0x20.
pub open spec fn json_plain_text(t: Seq<char>) -> bool {
    forall|i: int| 0 <= i < t.len() ==> #[trigger] t[i] != '"' && t[i] != '\\' && t[i] as u32
        >= 0x20
}

/// What `serde_json::from_str::<String>` makes of a text: the text of the
/// JSON string it holds, or `None` when it holds none.
pub uninterp spec fn json_text(s: Seq<char>) -> Option<Seq<char>>;

/// `c` as `serde_json` writes it inside a string: a quote, a backslash and
/// the control characters below 0x20 escaped, the common ones by letter and
/// the others as `\u00` and two lower-case hexadecimal digits.
pub open spec fn json_escape_char(c: char) -> Seq<char> {
    let u = c as u32;
    if c == '"' {
        seq!['\\', '"']
    } else if c == '\\' {
        seq!['\\', '\\']
    } else if u == 0x08 {
        seq!['\\', 'b']
    } else if u == 0x09 {
        seq!['\\', 't']
    } else if u == 0x0a {
        seq!['\\', 'n']
    } else if u == 0x0c {
        seq!['\\', 'f']
    } else if u == 0x0d {
        seq!['\\', 'r']
    } else if u < 0x20 {
        seq!['\\', 'u', '0', '0'] + hex2(u as u8)
    } else {
        seq![c]
    }
}

/// The characters of `t`, each escaped as in a JSON string.
pub open spec fn json_escaped(t: Seq<char>) -> Seq<char>
    decreases t.len(),
{
    if t.len() == 0 {
        Seq::empty()
    } else {
        json_escaped(t.drop_last()) + json_escape_char(t.last())
    }
}

/// `t` as a JSON string, as `serde_json::to_string` writes it.
pub open spec fn json_quoted(t: Seq<char>) -> Seq<char> {
    seq!['"'] + json_escaped(t) + seq!['"']
}

/// The bytes `v` as a JSON array, as `serde_json::to_string` writes it: the
/// decimal numbers between brackets, separated by commas.
pub open spec fn json_byte_array(v: Seq<u8>) -> Seq<char> {
    seq!['['] + joined(v.map_values(|b: u8| decimal(b as nat)), seq![',']) + seq![']']
}

/// `s` holds the JSON array of the 16 bytes `v`: white space, a bracket,
/// the numbers separated by commas, each with white space around it as
/// `json_u8` reads it, a bracket and white space.
pub open spec fn json_bytes16_text(s: Seq<char>, v: Seq<u8>) -> bool {
    &&& v.len() == 16
    &&& exists|pieces: Seq<Seq<char>>|
        #![trigger joined(pieces, seq![','])]
        {
            &&& pieces.len() == 16
            &&& json_core(s) == seq!['['] + joined(pieces, seq![',']) + seq![']']
            &&& forall|k: int| 0 <= k < 16 ==> !(#[trigger] pieces[k]).contains(',')
            &&& forall|k: int| 0 <= k < 16 ==> json_u8(#[trigger] pieces[k]) == Some(v[k])
        }
}

/// What `serde_json::from_str::<bool>` makes of a text: `true` or `false`
/// with white space around it; `None` for any other text.
pub open spec fn json_bool(s: Seq<char>) -> Option<bool> {
    if json_core(s) == "true"@ {
        Some(true)
    } else if json_core(s) == "false"@ {
        Some(false)
    } else {
        None
    }
}

/// `serde_json::to_string` of an integer: JSON writes an integer as its
/// decimal text.
#[verifier::external_body]
pub(crate) fn json_of_int(n: i64) -> (s: String)
    ensures
        s@ == int_decimal(n as int),
{
    serde_json::to_string(&n).unwrap()
}

/// `serde_json::to_string` of a boolean: `true` or `false`.
#[verifier::external_body]
pub(crate) fn json_of_bool(b: bool) -> (s: String)
    ensures
        s@ == (if b {
            "true"@
        } else {
            "false"@
        }),
{
    serde_json::to_string(&b).unwrap()
}

/// `serde_json::from_str::<u8>`, the error dropped: see `json_u8`.
#[verifier::external_body]
pub(crate) fn parse_json_u8(s: &str) -> (r: Option<u8>)
    ensures
        r == json_u8(s@),
{
    serde_json::from_str::<u8>(s).ok()
}

/// `serde_json::from_str::<bool>`, the error dropped: see `json_bool`.
#[verifier::external_body]
pub(crate) fn parse_json_bool(s: &str) -> (r: Option<bool>)
    ensures
        r == json_bool(s@),
{
    serde_json::from_str::<bool>(s).ok()
}

/// `serde_json::from_str::<u16>`, the error dropped: see `json_u16`.
#[verifier::external_body]
pub(crate) fn parse_json_u16(s: &str) -> (r: Option<u16>)
    ensures
        r == json_u16(s@),
{
    serde_json::from_str::<u16>(s).ok()
}

/// `serde_json::from_str::<u32>`, the error dropped: see `json_u32`.
#[verifier::external_body]
pub(crate) fn parse_json_u32(s: &str) -> (r: Option<u32>)
    ensures
        r == json_u32(s@),
{
    serde_json::from_str::<u32>(s).ok()
}

/// `serde_json::from_str::<i16>`, the error dropped: see `json_i16`.
#[verifier::external_body]
pub(crate) fn parse_json_i16(s: &str) -> (r: Option<i16>)
    ensures
        r == json_i16(s@),
{
    serde_json::from_str::<i16>(s).ok()
}

/// `serde_json::from_str::<String>`, the error dropped: the text of the
/// JSON string that `s` holds (see `json_text`). A quoted text with nothing
/// to unescape reads back as that text.
#[verifier::external_body]
pub(crate) fn parse_json_text(s: &str) -> (r: Option<String>)
    ensures
        match r {
            Some(t) => json_text(s@) == Some(t@),
            None => json_text(s@) is None,
        },
        forall|t: Seq<char>|
            json_plain_text(t) && s@ == #[trigger] json_quoted(t) ==> r is Some && r->0@ == t,
{
    serde_json::from_str::<String>(s).ok()
}

/// `serde_json::from_str::<[u8; 16]>`, the error dropped: the 16 bytes of
/// the JSON array that `s` holds, or `None` when it holds no such array.
#[verifier::external_body]
pub(crate) fn parse_json_bytes16(s: &str) -> (r: Option<[u8; 16]>)
    ensures
        r matches Some(a) ==> json_bytes16_text(s@, a@),
        r is None ==> forall|v: Seq<u8>| !#[trigger] json_bytes16_text(s@, v),
{
    serde_json::from_str::<[u8; 16]>(s).ok()
}

/// `serde_json::to_string` of a text: the text as a JSON string.
#[verifier::external_body]
pub(crate) fn json_of_text(t: &str) -> (s: String)
    ensures
        s@ == json_quoted(t@),
{
    serde_json::to_string(t).unwrap()
}

/// `serde_json::to_string` of 16 bytes: the JSON array of their numbers.
#[verifier::external_body]
pub(crate) fn json_of_bytes16(v: &[u8; 16]) -> (s: String)
    ensures
        s@ == json_byte_array(v@),
{
    serde_json::to_string(v).unwrap()
}

proof fn lemma_digit_value(d: nat)
    requires
        d < 10,
    ensures
        is_digit(digit(d)),
        digit(d) as int - 48 == d,
{
}

proof fn lemma_decimal_digits(n: nat)
    ensures
        decimal(n).len() > 0,
        forall|i: int| 0 <= i < decimal(n).len() ==> is_digit(#[trigger] decimal(n)[i]),
        n == 0 ==> decimal(n).len() == 1,
        n > 0 ==> decimal(n)[0] != '0',
        digits_value(decimal(n)) == n,
    decreases n,
{
    if n < 10 {
        lemma_digit_value(n);
        assert(decimal(n).drop_last() =~= Seq::<char>::empty());
        assert(digits_value(decimal(n)) == digits_value(Seq::<char>::empty()) * 10 + (digit(n) as int - 48));
    } else {
        lemma_decimal_digits(n / 10);
        lemma_digit_value(n % 10);
        let d = decimal(n / 10);
        assert(decimal(n).drop_last() =~= d);
        assert(decimal(n)[0] == d[0]);
        assert(decimal(n).last() == digit(n % 10));
        assert(digits_value(decimal(n)) == digits_value(d) * 10 + (digit(n % 10) as int - 48));
        assert((n / 10) * 10 + n % 10 == n);
    }
}

proof fn lemma_no_json_space(t: Seq<char>)
    requires
        forall|i: int| 0 <= i < t.len() ==> is_digit(#[trigger] t[i]),
    ensures
        json_core(t) == t,
{
    if t.len() > 0 {
        assert(is_digit(t[0]));
        assert(is_digit(t[t.len() - 1]));
    }
}

/// The decimal text of a byte reads back as that byte.
pub proof fn lemma_json_u8_decimal(n: u8)
    ensures
        json_u8(decimal(n as nat)) == Some(n),
{
    lemma_decimal_digits(n as nat);
    lemma_no_json_space(decimal(n as nat));
}

/// `true` and `false` read back as the booleans.
pub proof fn lemma_json_bool_literal()
    ensures
        json_bool("true"@) == Some(true),
        json_bool("false"@) == Some(false),
{
    reveal_strlit("true");
    reveal_strlit("false");
    assert(json_core("true"@) == "true"@);
    assert(json_core("false"@) == "false"@);
}

/// The texts `parts` one after the other, with `sep` between each two.
pub open spec fn joined(parts: Seq<Seq<char>>, sep: Seq<char>) -> Seq<char>
    decreases parts.len(),
{
    if parts.len() == 0 {
        Seq::empty()
    } else if parts.len() == 1 {
        parts[0]
    } else {
        joined(parts.drop_last(), sep) + sep + parts.last()
    }
}

/// `[&str]::join`: the texts with `sep` between each two.
#[verifier::external_body]
pub(crate) fn join_texts(parts: &Vec<&'static str>, sep: &str) -> (s: String)
    ensures
        s@ == joined(parts@.map_values(|p: &'static str| p@), sep@),
{
    parts.join(sep)
}

/// A text and the decimal number `n` after it, by `format!`.
#[verifier::external_body]
pub(crate) fn text_and_number(text: &str, n: u8) -> (s: String)
    ensures
        s@ == text@ + decimal(n as nat),
{
    format!("{}{}", text, n)
}

/// Unicode white space (the White_Space property), as `char::is_whitespace`
/// documents it.
pub open spec fn is_white_space(c: char) -> bool {
    let u = c as u32;
    ||| 0x09 <= u <= 0x0d
    ||| u == 0x20
    ||| u == 0x85
    ||| u == 0xa0
    ||| u == 0x1680
    ||| 0x2000 <= u <= 0x200a
    ||| u == 0x2028
    ||| u == 0x2029
    ||| u == 0x202f
    ||| u == 0x205f
    ||| u == 0x3000
}

/// `t` is `s` without its leading and trailing white space.
pub open spec fn is_trimmed(s: Seq<char>, t: Seq<char>) -> bool {
    exists|i: int, j: int|
        0 <= i <= j <= s.len() && t == s.subrange(i, j) && (forall|k: int|
            0 <= k < i ==> is_white_space(#[trigger] s[k])) && (forall|k: int|
            j <= k < s.len() ==> is_white_space(#[trigger] s[k])) && (t.len() > 0 ==> !is_white_space(
            t[0],
        ) && !is_white_space(t.last()))
}

/// `str::trim`: the text without leading and trailing white space.
#[verifier::external_body]
pub(crate) fn trim(s: &str) -> (t: &str)
    ensures
        is_trimmed(s@, t@),
{
    s.trim()
}

/// `str::split_once` at character `c`: the text before the first `c` and
/// the text after it, or `None` when there is no `c`.
#[verifier::external_body]
pub(crate) fn split_once(s: &str, c: char) -> (r: Option<(&str, &str)>)
    ensures
        match r {
            None => !s@.contains(c),
            Some((a, b)) => s@ == a@ + seq![c] + b@ && !a@.contains(c),
        },
{
    s.split_once(c)
}

/// The pieces of `s` between the characters `c`.
pub open spec fn is_split(s: Seq<char>, c: char, pieces: Seq<Seq<char>>) -> bool {
    &&& pieces.len() >= 1
    &&& joined(pieces, seq![c]) == s
    &&& forall|k: int| 0 <= k < pieces.len() ==> !(#[trigger] pieces[k]).contains(c)
}

/// `str::split` at character `c`, collected: the pieces between the `c`s,
/// as many as there are `c`s and one more.
#[verifier::external_body]
pub(crate) fn split(s: &str, c: char) -> (v: Vec<&str>)
    ensures
        is_split(s@, c, v@.map_values(|p: &str| p@)),
{
    s.split(c).collect()
}

/// The decimal value of the digits `ds`.
pub open spec fn digits_value(ds: Seq<char>) -> int
    decreases ds.len(),
{
    if ds.len() == 0 {
        0
    } else {
        digits_value(ds.drop_last()) * 10 + (ds.last() as int - 48)
    }
}

/// `c` is a decimal digit.
pub open spec fn is_digit(c: char) -> bool {
    '0' <= c <= '9'
}

/// What `u32::from_str` makes of a text, as its documentation says: an
/// optional `+` and then one or more decimal digits, whose value fits 32
/// bits.
pub open spec fn spec_parse_u32(s: Seq<char>) -> Option<u32> {
    let ds = if s.len() > 0 && s[0] == '+' {
        s.drop_first()
    } else {
        s
    };
    if ds.len() > 0 && (forall|i: int| 0 <= i < ds.len() ==> is_digit(#[trigger] ds[i]))
        && digits_value(ds) <= u32::MAX {
        Some(digits_value(ds) as u32)
    } else {
        None
    }
}

/// `u32::from_str`, the error dropped.
#[verifier::external_body]
pub(crate) fn parse_u32(s: &str) -> (r: Option<u32>)
    ensures
        r == spec_parse_u32(s@),
{
    s.parse::<u32>().ok()
}

/// Two texts one after the other.
pub(crate) fn concat(a: &str, b: &str) -> (s: String)
    ensures
        s@ == a@ + b@,
{
    let mut s = a.to_owned();
    s.append(b);
    s
}

/// The hexadecimal digit `d`, lower case.
pub open spec fn hex_digit(d: nat) -> char {
    if d < 10 {
        (48 + d) as char
    } else {
        (87 + d) as char
    }
}

/// A byte as two hexadecimal digits, lower case.
pub open spec fn hex2(n: u8) -> Seq<char> {
    seq![hex_digit((n / 16) as nat), hex_digit((n % 16) as nat)]
}

/// A text and a byte as two hexadecimal digits after it, by `format!` with
/// `{:02x}`.
#[verifier::external_body]
pub(crate) fn text_and_hex(text: &str, n: u8) -> (s: String)
    ensures
        s@ == text@ + hex2(n),
{
    format!("{}{:02x}", text, n)
}

/// A byte in hexadecimal without leading zeros, lower case.
pub open spec fn hex_short(n: u8) -> Seq<char> {
    if n < 16 {
        seq![hex_digit(n as nat)]
    } else {
        hex2(n)
    }
}

/// A text and a byte in hexadecimal after it, without leading zeros, by
/// `format!` with `{:x}`.
#[verifier::external_body]
pub(crate) fn text_and_short_hex(text: &str, n: u8) -> (s: String)
    ensures
        s@ == text@ + hex_short(n),
{
    format!("{}{:x}", text, n)
}

} // verus!
