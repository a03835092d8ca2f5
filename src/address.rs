//! Account addresses: parsing a caller-supplied text into the canonical
//! hex literal that the allowlist stores.

use move_core_types::account_address::{AccountAddress, AccountAddressParseError};
use vstd::arithmetic::power::pow;
use vstd::prelude::*;

verus! {

/// The number of bytes in an account address.
pub const ADDRESS_BYTES: usize = 16;

/// The most hex digits that an address literal may carry.
pub const MAX_HEX_DIGITS: usize = 32;

#[verifier::external_type_specification]
#[verifier::external_body]
pub struct ExAccountAddressParseError(AccountAddressParseError);

/// A hex digit in either case.
pub open spec fn is_hex_digit(c: char) -> bool {
    ('0' <= c && c <= '9') || ('a' <= c && c <= 'f') || ('A' <= c && c <= 'F')
}

/// The value of a hex digit.
pub open spec fn digit_value(c: char) -> nat {
    if '0' <= c && c <= '9' {
        (c as nat - '0' as nat) as nat
    } else if 'a' <= c && c <= 'f' {
        (c as nat - 'a' as nat + 10) as nat
    } else if 'A' <= c && c <= 'F' {
        (c as nat - 'A' as nat + 10) as nat
    } else {
        0
    }
}

pub open spec fn all_hex_digits(s: Seq<char>) -> bool {
    forall|i: int| 0 <= i < s.len() ==> #[trigger] is_hex_digit(s[i])
}

/// The number that a run of hex digits denotes, most significant first.
pub open spec fn hex_value(s: Seq<char>) -> nat
    decreases s.len(),
{
    if s.len() == 0 {
        0
    } else {
        (digit_value(s[0]) * pow(16, (s.len() - 1) as nat) + hex_value(s.skip(1))) as nat
    }
}

/// The number that a byte string denotes, most significant byte first.
pub open spec fn bytes_value(b: Seq<u8>) -> nat
    decreases b.len(),
{
    if b.len() == 0 {
        0
    } else {
        bytes_value(b.drop_last()) * 256 + b.last() as nat
    }
}

/// The lowercase character of a digit below sixteen.
pub open spec fn digit_char(d: nat) -> char {
    if d < 10 {
        (('0' as nat) + d) as char
    } else {
        (('a' as nat) + d - 10) as char
    }
}

/// The lowercase hex digits of `n`, without leading zeros; `0` for zero.
pub open spec fn hex_of(n: nat) -> Seq<char>
    decreases n,
{
    if n < 16 {
        seq![digit_char(n)]
    } else {
        hex_of(n / 16).push(digit_char(n % 16))
    }
}

/// `0x` followed by at most 32 hex digits (none at all denotes zero).
pub open spec fn is_hex_literal(s: Seq<char>) -> bool {
    &&& s.len() >= 2
    &&& s[0] == '0'
    &&& s[1] == 'x'
    &&& s.len() - 2 <= MAX_HEX_DIGITS
    &&& all_hex_digits(s.skip(2))
}

/// Exactly 32 hex digits, without a prefix.
pub open spec fn is_full_hex(s: Seq<char>) -> bool {
    s.len() == MAX_HEX_DIGITS && all_hex_digits(s)
}

/// The texts accepted as an account address.
pub open spec fn is_address_text(s: Seq<char>) -> bool {
    is_hex_literal(s) || is_full_hex(s)
}

/// The digits of an address text, without its `0x` prefix.
pub open spec fn address_digits(s: Seq<char>) -> Seq<char> {
    if is_hex_literal(s) {
        s.skip(2)
    } else {
        s
    }
}

/// The canonical literal of an address value: `0x` and its lowercase digits
/// without leading zeros.
pub open spec fn canonical_literal(n: nat) -> Seq<char> {
    seq!['0', 'x'] + hex_of(n)
}

/// The canonical form of an accepted address text.
pub open spec fn normalized(s: Seq<char>) -> Seq<char> {
    canonical_literal(hex_value(address_digits(s)))
}

/// A hex letter in lower case; any other character unchanged.
pub open spec fn to_lower_hex(c: char) -> char {
    if 'A' <= c && c <= 'F' {
        ((c as nat) + 32) as char
    } else {
        c
    }
}

/// Two texts that differ at most in the case of hex letters.
pub open spec fn same_up_to_case(x: Seq<char>, y: Seq<char>) -> bool {
    &&& x.len() == y.len()
    &&& forall|i: int| 0 <= i < x.len() ==> to_lower_hex(#[trigger] x[i]) == to_lower_hex(y[i])
}

/// A run of `k` zero digits.
pub open spec fn zero_run(k: nat) -> Seq<char> {
    Seq::new(k, |i: int| '0')
}

proof fn lemma_hex_value_up_to_case(x: Seq<char>, y: Seq<char>)
    requires
        same_up_to_case(x, y),
    ensures
        hex_value(x) == hex_value(y),
    decreases x.len(),
{
    if x.len() > 0 {
        assert(to_lower_hex(x[0]) == to_lower_hex(y[0]));
        assert(digit_value(x[0]) == digit_value(y[0]));
        assert(same_up_to_case(x.skip(1), y.skip(1))) by {
            assert forall|i: int| 0 <= i < x.skip(1).len() implies to_lower_hex(
                #[trigger] x.skip(1)[i],
            ) == to_lower_hex(y.skip(1)[i]) by {
                assert(x.skip(1)[i] == x[i + 1]);
                assert(y.skip(1)[i] == y[i + 1]);
            }
        }
        lemma_hex_value_up_to_case(x.skip(1), y.skip(1));
    }
}

proof fn lemma_hex_value_zero_run(k: nat, y: Seq<char>)
    ensures
        hex_value(zero_run(k) + y) == hex_value(y),
    decreases k,
{
    if k > 0 {
        let x = zero_run(k) + y;
        assert(x[0] == '0');
        assert(x.skip(1) =~= zero_run((k - 1) as nat) + y);
        assert(digit_value(x[0]) == 0);
        lemma_hex_value_zero_run((k - 1) as nat, y);
    } else {
        assert(zero_run(k) + y =~= y);
    }
}

/// Normalization depends on the denoted address alone: two accepted texts
/// whose digits differ only by leading zeros and by the case of hex letters
/// normalize to the same literal.
pub proof fn normalize_ignores_padding_and_case(a: Seq<char>, b: Seq<char>, k: nat)
    requires
        is_address_text(a),
        is_address_text(b),
        same_up_to_case(address_digits(a), zero_run(k) + address_digits(b)),
    ensures
        normalized(a) == normalized(b),
{
    lemma_hex_value_up_to_case(address_digits(a), zero_run(k) + address_digits(b));
    lemma_hex_value_zero_run(k, address_digits(b));
}

/// The description of an address that could not be parsed.
pub struct AddressParseError {
    pub description: String,
}

/// Relies on `AccountAddress::from_hex_literal`: `0x` and at most 32 hex
/// digits, left-padded with zeros and decoded most significant byte first.
#[verifier::external_body]
fn decode_hex_literal(s: &str) -> (r: Result<[u8; ADDRESS_BYTES], AccountAddressParseError>)
    ensures
        r is Ok <==> is_hex_literal(s@),
        r matches Ok(b) ==> bytes_value(b@) == hex_value(s@.skip(2)),
{
    AccountAddress::from_hex_literal(s).map(|a| a.into_bytes())
}

/// Relies on `AccountAddress::from_hex`: exactly 32 hex digits, decoded most
/// significant byte first.
#[verifier::external_body]
fn decode_full_hex(s: &str) -> (r: Result<[u8; ADDRESS_BYTES], AccountAddressParseError>)
    ensures
        r is Ok <==> is_full_hex(s@),
        r matches Ok(b) ==> bytes_value(b@) == hex_value(s@),
{
    AccountAddress::from_hex(s).map(|a| a.into_bytes())
}

/// Relies on `AccountAddress::to_hex_literal`: `0x` and the lowercase hex
/// encoding of the bytes with leading zeros trimmed, `0` when nothing is left.
#[verifier::external_body]
fn encode_hex_literal(b: &[u8; ADDRESS_BYTES]) -> (r: String)
    ensures
        r@ == canonical_literal(bytes_value(b@)),
{
    AccountAddress::new(*b).to_hex_literal()
}

/// Relies on the `Display` of `AccountAddressParseError`, a fixed sentence.
#[verifier::external_body]
fn describe_parse_error(e: &AccountAddressParseError) -> (r: String)
    ensures
        r@ == "unable to parse AccoutAddress"@,
{
    e.to_string()
}

/// Parses an account address, either as a `0x` literal of up to 32 digits or
/// as exactly 32 digits, and renders it as its canonical hex literal.
pub fn normalize(raw: &str) -> (r: Result<String, AddressParseError>)
    ensures
        r is Ok <==> is_address_text(raw@),
        r matches Ok(t) ==> t@ == normalized(raw@),
        r matches Err(e) ==> e.description@ == "unable to parse AccoutAddress"@,
{
    match decode_hex_literal(raw) {
        Ok(bytes) => Ok(encode_hex_literal(&bytes)),
        Err(_) => match decode_full_hex(raw) {
            Ok(bytes) => Ok(encode_hex_literal(&bytes)),
            Err(e) => Err(AddressParseError { description: describe_parse_error(&e) }),
        },
    }
}

} // verus!
