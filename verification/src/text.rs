//! Text helpers: Unicode whitespace and trimming, upper-casing, hexadecimal
//! encoding and decoding, digits, the clock and random identifiers.
use vstd::prelude::*;
use vstd::string::StrSliceExecFns;

verus! {

/// Unicode's `White_Space` property, which `char::is_whitespace` tests.
pub open spec fn is_unicode_whitespace(c: char) -> bool {
    let u = c as u32;
    ||| 0x09 <= u <= 0x0d
    ||| u == 0x20
    ||| u == 0x85
    ||| u == 0xa0
    ||| u == 0x1680
    ||| 0x2000 <= u <= 0x200a
    ||| u == 0x2028
    ||| u == 0x2029
    ||| u == 0x202f
    ||| u == 0x205f
    ||| u == 0x3000
}

/// Whether `c` has Unicode's `White_Space` property (what
/// `char::is_whitespace` tests).
pub(crate) fn char_is_whitespace(c: char) -> (res: bool)
    ensures
        res == is_unicode_whitespace(c),
{
    let u = c as u32;
    (0x09 <= u && u <= 0x0d) || u == 0x20 || u == 0x85 || u == 0xa0 || u == 0x1680 || (0x2000 <= u && u <= 0x200a)
        || u == 0x2028 || u == 0x2029 || u == 0x202f || u == 0x205f || u == 0x3000
}

/// `s` without its leading whitespace.
pub open spec fn trim_start_spec(s: Seq<char>) -> Seq<char>
    decreases s.len(),
{
    if s.len() > 0 && is_unicode_whitespace(s[0]) {
        trim_start_spec(s.drop_first())
    } else {
        s
    }
}

/// `s` without its trailing whitespace.
pub open spec fn trim_end_spec(s: Seq<char>) -> Seq<char>
    decreases s.len(),
{
    if s.len() > 0 && is_unicode_whitespace(s.last()) {
        trim_end_spec(s.drop_last())
    } else {
        s
    }
}

/// `s` without leading and trailing whitespace.
pub open spec fn trim_spec(s: Seq<char>) -> Seq<char> {
    trim_end_spec(trim_start_spec(s))
}

/// Calls `str::trim`, which the standard library documents as removing
/// leading and trailing characters with Unicode's `White_Space` property.
#[verifier::external_body]
pub(crate) fn str_trim(s: &str) -> (res: &str)
    ensures
        res@ == trim_spec(s@),
{
    s.trim()
}

/// The characters that Unicode upper-casing maps `c` to.
pub uninterp spec fn unicode_uppercase(c: char) -> Seq<char>;

/// Calls `char::to_uppercase` and collects its characters, as named by
/// `unicode_uppercase`. On ASCII the mapping is the plain one that the
/// standard library documents: `a` to `z` become `A` to `Z`, every other
/// ASCII character stays as it is.
#[verifier::external_body]
pub(crate) fn char_to_uppercase(c: char) -> (res: String)
    ensures
        res@ == unicode_uppercase(c),
        'a' <= c <= 'z' ==> res@ == seq![((c as u32) - 32) as char],
        (c as u32) < 128 && !('a' <= c <= 'z') ==> res@ == seq![c],
{
    c.to_uppercase().collect()
}

/// Calls `String::push`: appends one character.
#[verifier::external_body]
pub(crate) fn string_push(s: &mut String, c: char)
    ensures
        final(s)@ == old(s)@.push(c),
{
    s.push(c)
}

#[verifier::external_type_specification]
#[verifier::external_body]
pub struct ExSystemTime(std::time::SystemTime);

/// Calls `SystemTime::now()`: the current time, of which nothing is said.
#[verifier::external_body]
pub(crate) fn system_time_now() -> (res: std::time::SystemTime) {
    std::time::SystemTime::now()
}

/// Calls `SystemTime::duration_since(UNIX_EPOCH)` and converts the duration
/// to whole seconds, or `None` where `t` stands before the epoch. The time
/// is not a plain value here, so nothing more is said.
#[verifier::external_body]
pub(crate) fn secs_since_epoch(t: &std::time::SystemTime) -> (res: Option<u64>) {
    match t.duration_since(std::time::UNIX_EPOCH) {
        Ok(d) => Some(d.as_secs()),
        Err(_) => None,
    }
}

/// Whole seconds since the Unix epoch, or `None` where the clock stands
/// before it.
pub(crate) fn unix_time_secs() -> (res: Option<u64>) {
    let now = system_time_now();
    secs_since_epoch(&now)
}

/// Whether `c` is a lower-case hexadecimal digit.
pub open spec fn is_lower_hex_char(c: char) -> bool {
    ('0' <= c && c <= '9') || ('a' <= c && c <= 'f')
}

/// The hyphenated form of a UUID: 36 characters with hyphens at 8, 13, 18
/// and 23 and lower-case hexadecimal digits elsewhere.
pub open spec fn is_uuid_text(s: Seq<char>) -> bool {
    &&& s.len() == 36
    &&& forall|i: int|
        0 <= i < 36 ==> if i == 8 || i == 13 || i == 18 || i == 23 {
            s[i] == '-'
        } else {
            is_lower_hex_char(#[trigger] s[i])
        }
}

/// Calls `uuid::Uuid::new_v4().to_string()`: a random UUID, which the crate
/// writes in its hyphenated form.
#[verifier::external_body]
pub(crate) fn uuid_v4_string() -> (res: String)
    ensures
        is_uuid_text(res@),
{
    uuid::Uuid::new_v4().to_string()
}

/// The 128-bit value of the UUID that `s` spells, in any of the textual forms
/// the `uuid` crate reads, or `None` where it spells none.
pub uninterp spec fn uuid_parsed(s: Seq<char>) -> Option<u128>;

/// Calls `s.parse::<uuid::Uuid>()` and takes the value with `as_u128`, as
/// named by `uuid_parsed`.
#[verifier::external_body]
pub(crate) fn uuid_parse(s: &str) -> (res: Option<u128>)
    ensures
        res == uuid_parsed(s@),
{
    match s.parse::<uuid::Uuid>() {
        Ok(u) => Some(u.as_u128()),
        Err(_) => None,
    }
}

/// The 16 bytes of a 128-bit value, most significant first.
pub open spec fn u128_be_bytes(v: u128) -> Seq<u8> {
    Seq::new(16, |i: int| (((v as nat) / pow256(15 - i)) % 256) as u8)
}

/// 256 to the power `k`.
pub open spec fn pow256(k: int) -> nat
    decreases k,
{
    if k <= 0 {
        1
    } else {
        256 * pow256(k - 1)
    }
}

/// The hyphenated text of a UUID's value: its 32 lower-case hexadecimal
/// digits in groups of 8, 4, 4, 4 and 12.
pub open spec fn uuid_text(v: u128) -> Seq<char> {
    let h = hex_lower(u128_be_bytes(v));
    h.subrange(0, 8) + seq!['-'] + h.subrange(8, 12) + seq!['-'] + h.subrange(12, 16) + seq!['-']
        + h.subrange(16, 20) + seq!['-'] + h.subrange(20, 32)
}

/// Calls `Uuid::from_u128(v).to_string()`, which the crate writes as the
/// hyphenated lower-case form of the value's bytes, most significant first.
#[verifier::external_body]
pub(crate) fn uuid_to_text(v: u128) -> (res: String)
    ensures
        res@ == uuid_text(v),
{
    uuid::Uuid::from_u128(v).to_string()
}

/// The Unicode upper-casing of a text, character by character (what
/// `str::to_uppercase` does).
pub open spec fn upper_spec(s: Seq<char>) -> Seq<char>
    decreases s.len(),
{
    if s.len() == 0 {
        seq![]
    } else {
        upper_spec(s.drop_last()) + unicode_uppercase(s.last())
    }
}

/// The text upper-cased.
pub fn str_upper(s: &str) -> (res: String)
    ensures
        res@ == upper_spec(s@),
{
    let n = s.unicode_len();
    let mut out = String::new();
    let mut i: usize = 0;
    while i < n
        invariant
            n == s@.len(),
            i <= n,
            out@ == upper_spec(s@.subrange(0, i as int)),
        decreases n - i,
    {
        let c = s.get_char(i);
        let up = char_to_uppercase(c);
        out.append(up.as_str());
        assert(s@.subrange(0, i + 1).drop_last() =~= s@.subrange(0, i as int));
        i = i + 1;
    }
    assert(s@.subrange(0, n as int) =~= s@);
    out
}

/// The lower-case hexadecimal digit of a number below 16.
pub open spec fn hex_digit_lower(n: u8) -> char {
    if n < 10 {
        (48 + n) as char
    } else {
        (87 + n) as char
    }
}

/// The lower-case hexadecimal encoding of `data`, two digits per byte.
pub open spec fn hex_lower(data: Seq<u8>) -> Seq<char>
    decreases data.len(),
{
    if data.len() == 0 {
        seq![]
    } else {
        hex_lower(data.drop_last()) + seq![
            hex_digit_lower(data.last() / 16),
            hex_digit_lower(data.last() % 16),
        ]
    }
}

/// Calls `hex::encode`, which the crate documents as lower-case hexadecimal,
/// two digits per byte.
#[verifier::external_body]
pub(crate) fn hex_encode(data: &[u8]) -> (res: String)
    ensures
        res@ == hex_lower(data@),
{
    hex::encode(data)
}

/// The value of a hexadecimal digit byte, either case.
pub open spec fn hex_value(b: u8) -> Option<u8> {
    if 48 <= b <= 57 {
        Some((b - 48) as u8)
    } else if 65 <= b <= 70 {
        Some((b - 55) as u8)
    } else if 97 <= b <= 102 {
        Some((b - 87) as u8)
    } else {
        None
    }
}

/// What hexadecimal decoding of `bytes` gives: `None` for an odd length or
/// a byte that is not a hexadecimal digit, else one byte per two digits.
pub open spec fn hex_decoded(bytes: Seq<u8>) -> Option<Seq<u8>> {
    if bytes.len() % 2 != 0 {
        None
    } else if exists|i: int| 0 <= i < bytes.len() && (#[trigger] hex_value(bytes[i])) is None {
        None
    } else {
        Some(
            Seq::new(
                bytes.len() / 2,
                |i: int|
                    (hex_value(bytes[2 * i])->Some_0 * 16 + hex_value(bytes[2 * i + 1])->Some_0) as u8,
            ),
        )
    }
}

/// Calls `hex::decode` on the bytes of `s`; the crate's source gives the
/// result that `hex_decoded` states.
#[verifier::external_body]
pub(crate) fn hex_decode(s: &str) -> (res: Option<Vec<u8>>)
    ensures
        match res {
            Some(v) => hex_decoded(vstd::utf8::encode_utf8(s@)) == Some(v@),
            None => hex_decoded(vstd::utf8::encode_utf8(s@)) is None,
        },
{
    hex::decode(s).ok()
}

/// Every character of `s` has a one-byte UTF-8 encoding.
pub open spec fn all_ascii(s: Seq<char>) -> bool {
    forall|i: int| 0 <= i < s.len() ==> (#[trigger] s[i] as u32) < 0x80
}

/// The UTF-8 encoding of ASCII text is its characters' codes, one byte each.
pub proof fn lemma_encode_ascii(s: Seq<char>)
    requires
        all_ascii(s),
    ensures
        vstd::utf8::encode_utf8(s) =~= Seq::new(s.len(), |i: int| (s[i] as u32) as u8),
    decreases s.len(),
{
    if s.len() > 0 {
        let t = s.drop_first();
        assert forall|i: int| 0 <= i < t.len() implies (#[trigger] t[i] as u32) < 0x80 by {
            assert(t[i] == s[i + 1]);
        }
        lemma_encode_ascii(t);
        let c = s[0] as u32;
        assert(c < 0x80);
        assert((c & 0x7F) as u8 == c as u8) by (bit_vector)
            requires
                c < 0x80,
        ;
        assert(vstd::utf8::encode_scalar(c) =~= seq![c as u8]);
    }
}

/// Lower-case hexadecimal text.
pub open spec fn is_lower_hex_text(s: Seq<char>) -> bool {
    forall|i: int| 0 <= i < s.len() ==> is_lower_hex_char(#[trigger] s[i])
}

/// Lower-case hexadecimal text is ASCII.
pub proof fn lemma_lower_hex_ascii(s: Seq<char>)
    requires
        is_lower_hex_text(s),
    ensures
        all_ascii(s),
{
    assert forall|i: int| 0 <= i < s.len() implies (#[trigger] s[i] as u32) < 0x80 by {
        assert(is_lower_hex_char(s[i]));
    }
}

/// In ASCII text every position is a character boundary of its UTF-8
/// encoding, and cutting the encoding there cuts the text there.
pub proof fn lemma_ascii_cut(s: Seq<char>, k: int)
    requires
        all_ascii(s),
        0 <= k <= s.len(),
    ensures
        vstd::utf8::encode_utf8(s).len() == s.len(),
        vstd::utf8::is_char_boundary(vstd::utf8::encode_utf8(s), k),
        vstd::utf8::decode_utf8(vstd::utf8::encode_utf8(s).subrange(0, k)) == s.subrange(0, k),
        vstd::utf8::decode_utf8(vstd::utf8::encode_utf8(s).subrange(k, s.len() as int)) == s.subrange(
            k,
            s.len() as int,
        ),
{
    let bytes = vstd::utf8::encode_utf8(s);
    lemma_encode_ascii(s);
    vstd::utf8::encode_utf8_valid_utf8(s);
    if k == s.len() {
        vstd::utf8::is_char_boundary_start_end_of_seq(bytes);
    } else {
        vstd::utf8::is_char_boundary_iff_not_is_continuation_byte(bytes, k);
        assert(bytes[k] == (s[k] as u32) as u8);
    }
    let front = s.subrange(0, k);
    let back = s.subrange(k, s.len() as int);
    assert forall|i: int| 0 <= i < front.len() implies (#[trigger] front[i] as u32) < 0x80 by {
        assert(front[i] == s[i]);
    }
    assert forall|i: int| 0 <= i < back.len() implies (#[trigger] back[i] as u32) < 0x80 by {
        assert(back[i] == s[k + i]);
    }
    lemma_encode_ascii(front);
    lemma_encode_ascii(back);
    assert(bytes.subrange(0, k) =~= vstd::utf8::encode_utf8(front));
    assert(bytes.subrange(k, s.len() as int) =~= vstd::utf8::encode_utf8(back));
    vstd::utf8::encode_utf8_decode_utf8(front);
    vstd::utf8::encode_utf8_decode_utf8(back);
}

/// The length and the digits of a hexadecimal encoding.
pub proof fn lemma_hex_lower_digits(data: Seq<u8>)
    ensures
        hex_lower(data).len() == 2 * data.len(),
        forall|i: int|
            0 <= i < data.len() ==> hex_lower(data)[2 * i] == hex_digit_lower(#[trigger] data[i] / 16)
                && hex_lower(data)[2 * i + 1] == hex_digit_lower(data[i] % 16),
    decreases data.len(),
{
    if data.len() > 0 {
        let init = data.drop_last();
        lemma_hex_lower_digits(init);
        assert forall|i: int|
            0 <= i < data.len() implies hex_lower(data)[2 * i] == hex_digit_lower(
                #[trigger] data[i] / 16,
            ) && hex_lower(data)[2 * i + 1] == hex_digit_lower(data[i] % 16) by {
            if i < init.len() {
                assert(init[i] == data[i]);
            }
        }
    }
}

/// A lower-case hexadecimal digit is ASCII, not whitespace, and has the
/// value it encodes.
pub proof fn lemma_hex_digit(n: u8)
    requires
        n < 16,
    ensures
        (hex_digit_lower(n) as u32) < 0x80,
        !is_unicode_whitespace(hex_digit_lower(n)),
        hex_value((hex_digit_lower(n) as u32) as u8) == Some(n),
        is_lower_hex_char(hex_digit_lower(n)),
{
}

/// Decoding the hexadecimal encoding of `data` gives `data` back.
pub proof fn law_hex_round_trip(data: Seq<u8>)
    ensures
        hex_decoded(vstd::utf8::encode_utf8(hex_lower(data))) == Some(data),
{
    let h = hex_lower(data);
    lemma_hex_lower_digits(data);
    assert forall|k: int| 0 <= k < h.len() implies (#[trigger] h[k] as u32) < 0x80
        && hex_value((h[k] as u32) as u8) is Some by {
        let i = k / 2;
        assert(0 <= i < data.len());
        lemma_hex_digit(data[i] / 16);
        lemma_hex_digit(data[i] % 16);
        if k % 2 == 0 {
            assert(k == 2 * i);
        } else {
            assert(k == 2 * i + 1);
        }
    }
    lemma_encode_ascii(h);
    let bytes = vstd::utf8::encode_utf8(h);
    assert(bytes.len() == 2 * data.len());
    assert(!(exists|i: int| 0 <= i < bytes.len() && (#[trigger] hex_value(bytes[i])) is None)) by {
        assert forall|i: int| 0 <= i < bytes.len() implies (#[trigger] hex_value(bytes[i])) is Some by {
            assert(bytes[i] == (h[i] as u32) as u8);
        }
    }
    let decoded = Seq::new(
        bytes.len() / 2,
        |i: int| (hex_value(bytes[2 * i])->Some_0 * 16 + hex_value(bytes[2 * i + 1])->Some_0) as u8,
    );
    assert forall|i: int| 0 <= i < data.len() implies decoded[i] == #[trigger] data[i] by {
        lemma_hex_digit(data[i] / 16);
        lemma_hex_digit(data[i] % 16);
        assert(bytes[2 * i] == (h[2 * i] as u32) as u8);
        assert(bytes[2 * i + 1] == (h[2 * i + 1] as u32) as u8);
    }
    assert(decoded =~= data);
}

/// Text with no whitespace at either end is its own trimming.
pub proof fn lemma_trim_unchanged(s: Seq<char>)
    requires
        s.len() > 0 ==> !is_unicode_whitespace(s[0]) && !is_unicode_whitespace(s.last()),
    ensures
        trim_spec(s) == s,
{
    assert(trim_start_spec(s) == s);
    assert(trim_end_spec(s) == s);
}

/// The decimal digit character of a number below 10.
pub open spec fn decimal_digit(n: u64) -> char {
    (48 + n) as char
}

/// The two decimal digits of a number below 100.
pub open spec fn two_digits(n: u64) -> Seq<char> {
    seq![decimal_digit(n / 10), decimal_digit(n % 10)]
}

/// The decimal digit character of a number below 10.
pub fn digit_char(n: u64) -> (res: char)
    requires
        n < 10,
    ensures
        res == decimal_digit(n),
{
    let c = match n {
        0 => '0',
        1 => '1',
        2 => '2',
        3 => '3',
        4 => '4',
        5 => '5',
        6 => '6',
        7 => '7',
        8 => '8',
        _ => '9',
    };
    assert(c == decimal_digit(n));
    c
}

/// Appends the two decimal digits of `n` (zero-padded).
pub fn push_two_digits(s: &mut String, n: u64)
    requires
        n < 100,
    ensures
        final(s)@ == old(s)@ + two_digits(n),
{
    string_push(s, digit_char(n / 10));
    string_push(s, digit_char(n % 10));
    assert(final(s)@ =~= old(s)@ + two_digits(n));
}

} // verus!
