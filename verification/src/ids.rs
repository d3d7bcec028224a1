//! Identifiers of sessions and checkpoints: 128-bit numbers, written and read
//! by the `uuid` crate.
use vstd::prelude::*;
use vstd::string::*;

verus! {

/// The hexadecimal digit `d`, in lower case.
pub open spec fn hex_digit(d: nat) -> char {
    seq!['0', '1', '2', '3', '4', '5', '6', '7', '8', '9', 'a', 'b', 'c', 'd', 'e', 'f'][d as int]
}

/// The last `count` hexadecimal digits of `n`.
pub open spec fn hex_digits(n: nat, count: nat) -> Seq<char>
    decreases count,
{
    if count == 0 {
        Seq::empty()
    } else {
        hex_digits(n / 16, (count - 1) as nat).push(hex_digit(n % 16))
    }
}

/// The text of an identifier: its 32 hexadecimal digits, with hyphens behind the first 8
/// of them and then behind each 4 of the next 12.
pub open spec fn uuid_text(id: u128) -> Seq<char> {
    let digits = hex_digits(id as nat, 32);
    digits.subrange(0, 8) + seq!['-'] + digits.subrange(8, 12) + seq!['-'] + digits.subrange(12, 16)
        + seq!['-'] + digits.subrange(16, 20) + seq!['-'] + digits.subrange(20, 32)
}

/// The identifier that a text names, as `Uuid::parse_str` reads it.
pub uninterp spec fn uuid_of_text(text: Seq<char>) -> Option<u128>;

/// `Uuid::to_string`: the hyphenated form in lower case, which `Uuid::parse_str` reads
/// back.
#[verifier::external_body]
pub(crate) fn format_uuid(id: u128) -> (res: String)
    ensures
        res@ == uuid_text(id),
        uuid_of_text(res@) == Some(id),
{
    uuid::Uuid::from_u128(id).to_string()
}

/// `Uuid::parse_str`: whether a text names an identifier, and which, depends on
/// its characters alone.
#[verifier::external_body]
pub(crate) fn parse_uuid(text: &str) -> (res: Option<u128>)
    ensures
        res == uuid_of_text(text@),
{
    uuid::Uuid::parse_str(text).ok().map(|id| id.as_u128())
}

/// A hexadecimal digit in lower case.
pub open spec fn is_hex_digit(c: char) -> bool {
    '0' <= c <= '9' || 'a' <= c <= 'f'
}

/// As many digits are written as asked for, and nothing but digits.
proof fn lemma_hex_digits(n: nat, count: nat)
    ensures
        hex_digits(n, count).len() == count,
        forall|i: int| 0 <= i < count ==> is_hex_digit(#[trigger] hex_digits(n, count)[i]),
    decreases count,
{
    if count > 0 {
        lemma_hex_digits(n / 16, (count - 1) as nat);
    }
}

/// The text of an identifier has 36 characters: hyphens at four places, and hexadecimal
/// digits at all others.
pub proof fn law_uuid_text(id: u128)
    ensures
        uuid_text(id).len() == 36,
        forall|i: int|
            0 <= i < 36 ==> if i == 8 || i == 13 || i == 18 || i == 23 {
                #[trigger] uuid_text(id)[i] == '-'
            } else {
                is_hex_digit(uuid_text(id)[i])
            },
{
    lemma_hex_digits(id as nat, 32);
}

/// The number of a checkpoint named on the command line, or the complaint that
/// the name is no identifier.
pub fn checkpoint_number(text: &str) -> (res: Result<u128, String>)
    ensures
        match res {
            Ok(id) => uuid_of_text(text@) == Some(id),
            Err(complaint) => uuid_of_text(text@) is None && complaint@
                == "Invalid checkpoint ID '"@ + text@ + "' - must be a valid UUID"@,
        },
{
    match parse_uuid(text) {
        Some(id) => Ok(id),
        None => Err(invalid_checkpoint(text)),
    }
}

/// The complaint about a checkpoint name that is no identifier.
pub fn invalid_checkpoint(text: &str) -> (res: String)
    ensures
        res@ == "Invalid checkpoint ID '"@ + text@ + "' - must be a valid UUID"@,
{
    crate::text::concat3("Invalid checkpoint ID '", text, "' - must be a valid UUID")
}

} // verus!
