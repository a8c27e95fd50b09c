//! Machine identities and the name of the done marker kept for each.
use vstd::prelude::*;
use vstd::string::StringExecFns;

verus! {

/// The lower-case hexadecimal digit of `n < 16`.
pub open spec fn hex_digit(n: u128) -> char {
    seq!['0', '1', '2', '3', '4', '5', '6', '7', '8', '9', 'a', 'b', 'c', 'd', 'e', 'f'][n as int]
}

/// The `j`-th of the 32 nibbles of `id`, most significant first.
pub open spec fn nibble(id: u128, j: int) -> u128 {
    (id >> ((4 * (31 - j)) as u128)) & 0xf
}

/// The hyphenated text of a UUID: 36 characters, `-` at 8, 13, 18 and 23,
/// and elsewhere the nibbles in lower-case hexadecimal, most significant
/// first.
pub open spec fn hyphenated_of(id: u128) -> Seq<char> {
    Seq::new(
        36,
        |i: int|
            if i == 8 || i == 13 || i == 18 || i == 23 {
                '-'
            } else {
                let j = if i < 8 {
                    i
                } else if i < 13 {
                    i - 1
                } else if i < 18 {
                    i - 2
                } else if i < 23 {
                    i - 3
                } else {
                    i - 4
                };
                hex_digit(nibble(id, j))
            },
    )
}

/// Relies on uuid::Uuid::new_v4: a random UUID whose version field is 4
/// and whose variant bits are `10`.
#[verifier::external_body]
pub(crate) fn new_v4() -> (r: u128)
    ensures
        r & 0xf000_0000_0000_0000_0000u128 == 0x4000_0000_0000_0000_0000u128,
        r & 0xc000_0000_0000_0000u128 == 0x8000_0000_0000_0000u128,
{
    uuid::Uuid::new_v4().as_u128()
}

/// Relies on uuid::Uuid::from_u128, Uuid::hyphenated and its Display: the
/// id's 32 nibbles in lower-case hexadecimal, grouped 8-4-4-4-12 by `-`.
#[verifier::external_body]
fn hyphenated(id: u128) -> (r: String)
    ensures
        r@ == hyphenated_of(id),
        r@.len() == 36,
{
    uuid::Uuid::from_u128(id).hyphenated().to_string()
}

pub open spec fn done_file_name_spec(machine_id: u128) -> Seq<char> {
    seq!['d', 'o', 'n', 'e', '-'] + hyphenated_of(machine_id)
}

/// The file name of the done marker of a machine: `done-<machine id>`.
pub fn done_file_name(machine_id: u128) -> (r: String)
    ensures
        r@ == done_file_name_spec(machine_id),
        r@.len() == 41,
{
    let mut name = "done-".to_owned();
    let id = hyphenated(machine_id);
    name.append(id.as_str());
    proof {
        reveal_strlit("done-");
        assert(name@ =~= done_file_name_spec(machine_id));
    }
    name
}

} // verus!
