//! The 128-bit internal key of a record and its textual forms.
//!
//! The backing store keeps the key as 32 hexadecimal digits without
//! separators; everywhere else it travels in canonical form: lower-case
//! hexadecimal digits in groups of 8, 4, 4, 4 and 12, separated by hyphens.

use vstd::arithmetic::div_mod::lemma_breakdown;
use vstd::prelude::*;

use crate::text::digit_char;

verus! {

/// The lower-case hexadecimal digit for `d`.
pub open spec fn lower_hex_char(d: nat) -> char {
    if d < 10 {
        digit_char(d)
    } else if d == 10 {
        'a'
    } else if d == 11 {
        'b'
    } else if d == 12 {
        'c'
    } else if d == 13 {
        'd'
    } else if d == 14 {
        'e'
    } else {
        'f'
    }
}

/// The value of a hexadecimal digit of either case; `None` for any other character.
pub open spec fn hex_digit_value(c: char) -> Option<nat> {
    if c == '0' {
        Some(0)
    } else if c == '1' {
        Some(1)
    } else if c == '2' {
        Some(2)
    } else if c == '3' {
        Some(3)
    } else if c == '4' {
        Some(4)
    } else if c == '5' {
        Some(5)
    } else if c == '6' {
        Some(6)
    } else if c == '7' {
        Some(7)
    } else if c == '8' {
        Some(8)
    } else if c == '9' {
        Some(9)
    } else if c == 'a' || c == 'A' {
        Some(10)
    } else if c == 'b' || c == 'B' {
        Some(11)
    } else if c == 'c' || c == 'C' {
        Some(12)
    } else if c == 'd' || c == 'D' {
        Some(13)
    } else if c == 'e' || c == 'E' {
        Some(14)
    } else if c == 'f' || c == 'F' {
        Some(15)
    } else {
        None
    }
}

/// Every character of `s` is a hexadecimal digit.
pub open spec fn all_hex(s: Seq<char>) -> bool {
    forall|i: int| 0 <= i < s.len() ==> (#[trigger] hex_digit_value(s[i])) is Some
}

/// The number that the hexadecimal digits of `s` spell, most significant first.
pub open spec fn hex_value(s: Seq<char>) -> nat
    decreases s.len(),
{
    if s.len() == 0 {
        0
    } else {
        16 * hex_value(s.drop_last()) + match hex_digit_value(s.last()) {
            Some(d) => d,
            None => 0,
        }
    }
}

/// The `width` least significant hexadecimal digits of `n`, in lower case.
pub open spec fn hex_digits(n: nat, width: nat) -> Seq<char>
    decreases width,
{
    if width == 0 {
        Seq::empty()
    } else {
        hex_digits(n / 16, (width - 1) as nat).push(lower_hex_char(n % 16))
    }
}

/// Thirty-two digits cut into the groups of the canonical form.
pub open spec fn hyphenate(digits: Seq<char>) -> Seq<char> {
    digits.subrange(0, 8) + seq!['-'] + digits.subrange(8, 12) + seq!['-'] + digits.subrange(
        12,
        16,
    ) + seq!['-'] + digits.subrange(16, 20) + seq!['-'] + digits.subrange(20, 32)
}

/// The digits of a 36-character grouped form, separators left out.
pub open spec fn strip_hyphens(s: Seq<char>) -> Seq<char> {
    s.subrange(0, 8) + s.subrange(9, 13) + s.subrange(14, 18) + s.subrange(19, 23) + s.subrange(
        24,
        36,
    )
}

/// The form the backing store keeps: 32 lower-case digits.
pub open spec fn simple_form(value: u128) -> Seq<char> {
    hex_digits(value as nat, 32)
}

/// The canonical form: 36 characters, lower case, hyphenated.
pub open spec fn canonical_form(value: u128) -> Seq<char> {
    hyphenate(simple_form(value))
}

/// Thirty-two hexadecimal digits and nothing else.
pub open spec fn is_simple(s: Seq<char>) -> bool {
    s.len() == 32 && all_hex(s)
}

/// Hexadecimal digits in groups of 8, 4, 4, 4 and 12 with hyphens between.
pub open spec fn is_hyphenated(s: Seq<char>) -> bool {
    &&& s.len() == 36
    &&& s[8] == '-'
    &&& s[13] == '-'
    &&& s[18] == '-'
    &&& s[23] == '-'
    &&& all_hex(strip_hyphens(s))
}

/// A hyphenated form between braces.
pub open spec fn is_braced(s: Seq<char>) -> bool {
    &&& s.len() == 38
    &&& s[0] == '{'
    &&& s[37] == '}'
    &&& is_hyphenated(s.subrange(1, 37))
}

/// The nine characters `urn:uuid:`, each letter in either case.
pub open spec fn is_urn_prefix(p: Seq<char>) -> bool {
    &&& p.len() == 9
    &&& (p[0] == 'u' || p[0] == 'U')
    &&& (p[1] == 'r' || p[1] == 'R')
    &&& (p[2] == 'n' || p[2] == 'N')
    &&& p[3] == ':'
    &&& (p[4] == 'u' || p[4] == 'U')
    &&& (p[5] == 'u' || p[5] == 'U')
    &&& (p[6] == 'i' || p[6] == 'I')
    &&& (p[7] == 'd' || p[7] == 'D')
    &&& p[8] == ':'
}

/// A hyphenated form behind the prefix `urn:uuid:`.
pub open spec fn is_urn(s: Seq<char>) -> bool {
    &&& s.len() == 45
    &&& is_urn_prefix(s.subrange(0, 9))
    &&& is_hyphenated(s.subrange(9, 45))
}

/// The key that `s` denotes, if `s` is a well-formed identifier.
///
/// Four shapes are well formed: 32 bare digits, the hyphenated form, the
/// hyphenated form in braces, and the hyphenated form as a URN. Digits may
/// be of either case.
pub open spec fn identifier_value(s: Seq<char>) -> Option<u128> {
    if is_simple(s) {
        Some(hex_value(s) as u128)
    } else if is_hyphenated(s) {
        Some(hex_value(strip_hyphens(s)) as u128)
    } else if is_braced(s) {
        Some(hex_value(strip_hyphens(s.subrange(1, 37))) as u128)
    } else if is_urn(s) {
        Some(hex_value(strip_hyphens(s.subrange(9, 45))) as u128)
    } else {
        None
    }
}

/// A key with the version and variant marks of a randomly drawn identifier.
pub open spec fn is_random_key(value: u128) -> bool {
    (value >> 76u128) & 0xfu128 == 4u128 && (value >> 62u128) & 0x3u128 == 2u128
}

/// Sixteen to the power `e`.
pub open spec fn pow16(e: nat) -> nat
    decreases e,
{
    if e == 0 {
        1
    } else {
        16 * pow16((e - 1) as nat)
    }
}

/// `hex_digits` gives `width` hexadecimal digits that spell `n` modulo `16^width`.
pub proof fn lemma_hex_digits(n: nat, width: nat)
    ensures
        hex_digits(n, width).len() == width,
        all_hex(hex_digits(n, width)),
        pow16(width) > 0,
        hex_value(hex_digits(n, width)) == n % pow16(width),
    decreases width,
{
    if width > 0 {
        let shorter = (width - 1) as nat;
        lemma_hex_digits(n / 16, shorter);
        let head = hex_digits(n / 16, shorter);
        let whole = hex_digits(n, width);
        assert(whole == head.push(lower_hex_char(n % 16)));
        assert(whole.drop_last() =~= head);
        assert(hex_digit_value(lower_hex_char(n % 16)) == Some(n % 16));
        assert forall|i: int| 0 <= i < whole.len() implies (#[trigger] hex_digit_value(
            whole[i],
        )) is Some by {
            if i < head.len() {
                assert(whole[i] == head[i]);
            }
        }
        lemma_breakdown(n as int, 16, pow16(shorter) as int);
        assert(16 * pow16(shorter) == pow16(width));
    }
}

/// Thirty-two hexadecimal digits hold exactly the numbers of 128 bits.
pub proof fn lemma_pow16_32()
    ensures
        pow16(32) == 0x1_0000_0000_0000_0000_0000_0000_0000_0000,
{
    reveal_with_fuel(pow16, 33);
}

/// The store's form of a key reads back as that key.
pub proof fn lemma_simple_form_reads_back(value: u128)
    ensures
        is_simple(simple_form(value)),
        identifier_value(simple_form(value)) == Some(value),
{
    lemma_hex_digits(value as nat, 32);
    lemma_pow16_32();
}

/// The canonical form of a key reads back as that key.
pub proof fn lemma_canonical_form_reads_back(value: u128)
    ensures
        is_hyphenated(canonical_form(value)),
        !is_simple(canonical_form(value)),
        identifier_value(canonical_form(value)) == Some(value),
{
    lemma_hex_digits(value as nat, 32);
    lemma_pow16_32();
    let digits = simple_form(value);
    let text = canonical_form(value);
    assert(text.len() == 36);
    assert(text[8] == '-' && text[13] == '-' && text[18] == '-' && text[23] == '-');
    assert(strip_hyphens(text) =~= digits);
}

/// The 128-bit key that identifies one record.
#[derive(Clone, Copy, Debug, PartialEq, Eq, Structural)]
pub struct InternalKey {
    pub value: u128,
}

/// `uuid::Uuid::parse_str`, its result taken as a number by `Uuid::as_u128`.
///
/// The parser decides by the length of the input in bytes: 32 for bare
/// digits, 36 for the hyphenated form, 38 for braces around it, 45 for the
/// URN prefix before it, the prefix compared without regard to ASCII case.
/// Every accepted input is ASCII, so byte and character positions agree.
#[verifier::external_body]
fn uuid_parse(text: &str) -> (r: Option<u128>)
    ensures
        r == identifier_value(text@),
{
    match uuid::Uuid::parse_str(text) {
        Ok(parsed) => Some(parsed.as_u128()),
        Err(_) => None,
    }
}

/// `uuid::Uuid::hyphenated` shown through `Display`: the canonical form.
#[verifier::external_body]
fn uuid_hyphenated(value: u128) -> (r: String)
    ensures
        r@ == canonical_form(value),
{
    uuid::Uuid::from_u128(value).hyphenated().to_string()
}

/// `uuid::Uuid::simple` shown through `Display`: 32 lower-case digits.
#[verifier::external_body]
fn uuid_simple(value: u128) -> (r: String)
    ensures
        r@ == simple_form(value),
{
    uuid::Uuid::from_u128(value).simple().to_string()
}

/// `uuid::Uuid::new_v4`: random bits under the marks of version 4.
#[verifier::external_body]
fn uuid_new_v4() -> (r: u128)
    ensures
        is_random_key(r),
{
    uuid::Uuid::new_v4().as_u128()
}

impl InternalKey {
    /// Reads an identifier in any of its well-formed shapes.
    pub fn parse(text: &str) -> (r: Option<InternalKey>)
        ensures
            r == match identifier_value(text@) {
                Some(value) => Some(InternalKey { value }),
                None => None,
            },
    {
        match uuid_parse(text) {
            Some(value) => Some(InternalKey { value }),
            None => None,
        }
    }

    /// The canonical form of the key.
    pub fn canonical(&self) -> (r: String)
        ensures
            r@ == canonical_form(self.value),
    {
        uuid_hyphenated(self.value)
    }

    /// The form in which the key is bound into statements for the backing store.
    pub fn storage_form(&self) -> (r: String)
        ensures
            r@ == simple_form(self.value),
    {
        uuid_simple(self.value)
    }

    /// Draws a fresh key at random.
    pub fn mint() -> (r: InternalKey)
        ensures
            is_random_key(r.value),
    {
        InternalKey { value: uuid_new_v4() }
    }
}

} // verus!
