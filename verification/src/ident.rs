//! Key identifiers: their octets and their text form.

use vstd::prelude::*;
use vstd::slice::slice_to_vec;
use uuid::Uuid;

verus! {

/// The identifier type of the `uuid` crate, carried through as it is.
#[verifier::external_type_specification]
#[verifier::external_body]
pub struct ExUuid(Uuid);

/// The sixteen octets that an identifier holds, first to last.
pub uninterp spec fn uuid_octets(id: Uuid) -> Seq<u8>;

/// The lower-case hex digit of a value below sixteen.
pub open spec fn hex_digit(nibble: u8) -> char {
    if nibble > 9 {
        ((nibble + 87) as u8) as char
    } else {
        ((nibble + 48) as u8) as char
    }
}

/// The number of hyphens that stand before `position` in the hyphenated form.
pub open spec fn hyphens_before(position: int) -> int {
    if position > 23 {
        4
    } else if position > 18 {
        3
    } else if position > 13 {
        2
    } else if position > 8 {
        1
    } else {
        0
    }
}

/// The character at `position` of the hyphenated form of `octets`.
pub open spec fn hyphenated_char(octets: Seq<u8>, position: int) -> char {
    if position == 8 || position == 13 || position == 18 || position == 23 {
        '-'
    } else {
        let digit: int = position - hyphens_before(position);
        let octet: u8 = octets[digit / 2];
        if digit % 2 == 0 {
            hex_digit(octet / 16)
        } else {
            hex_digit(octet % 16)
        }
    }
}

/// The hyphenated form of sixteen octets: thirty-two lower-case hex digits,
/// two for each octet with the high half first, in groups of 8, 4, 4, 4 and
/// 12 digits with a hyphen between the groups.
pub open spec fn hyphenated(octets: Seq<u8>) -> Seq<char> {
    Seq::new(36, |position: int| hyphenated_char(octets, position))
}

/// Whether `text` is the hyphenated form of some sixteen octets.
pub open spec fn is_hyphenated(text: Seq<char>) -> bool {
    exists|octets: Seq<u8>| octets.len() == 16 && text == #[trigger] hyphenated(octets)
}

/// The octets whose hyphenated form `text` is. There is at most one such
/// sequence of octets; if there is none the result means nothing.
pub open spec fn unhyphenated(text: Seq<char>) -> Seq<u8> {
    choose|octets: Seq<u8>| octets.len() == 16 && text == #[trigger] hyphenated(octets)
}

/// The place of the first digit of the octet at `index` in the hyphenated form.
pub open spec fn digit_position(index: int) -> int {
    if index < 4 {
        2 * index
    } else if index < 6 {
        2 * index + 1
    } else if index < 8 {
        2 * index + 2
    } else if index < 10 {
        2 * index + 3
    } else {
        2 * index + 4
    }
}

/// Different identifiers have different hyphenated forms.
pub proof fn law_hyphenated_is_injective(first: Seq<u8>, second: Seq<u8>)
    requires
        first.len() == 16,
        second.len() == 16,
        hyphenated(first) == hyphenated(second),
    ensures
        first == second,
{
    assert forall|index: int| 0 <= index < 16 implies first[index] == second[index] by {
        let place: int = digit_position(index);
        assert(hyphenated(first)[place] == hyphenated(second)[place]);
        assert(hyphenated(first)[place + 1] == hyphenated(second)[place + 1]);
        assert(hyphenated(first)[place] == hex_digit(first[index] / 16));
        assert(hyphenated(first)[place + 1] == hex_digit(first[index] % 16));
        assert(hyphenated(second)[place] == hex_digit(second[index] / 16));
        assert(hyphenated(second)[place + 1] == hex_digit(second[index] % 16));
    }
    assert(first =~= second);
}

/// Reading the hyphenated form of sixteen octets back gives those octets.
pub proof fn law_hyphenated_reads_back(octets: Seq<u8>)
    requires
        octets.len() == 16,
    ensures
        is_hyphenated(hyphenated(octets)),
        unhyphenated(hyphenated(octets)) == octets,
{
    law_hyphenated_is_injective(unhyphenated(hyphenated(octets)), octets);
}

/// `Uuid::as_bytes`: the octets that the identifier holds.
#[verifier::external_body]
fn octets(id: &Uuid) -> (bytes: [u8; 16])
    ensures
        bytes@ == uuid_octets(*id),
{
    *id.as_bytes()
}

/// `Uuid::to_string`, the identifier's `Display` form: the hyphenated
/// lower-case hex of its octets.
#[verifier::external_body]
pub(crate) fn hyphenated_text(id: &Uuid) -> (text: String)
    ensures
        text@ == hyphenated(uuid_octets(*id)),
{
    id.to_string()
}

/// `Uuid::try_parse`, with its error dropped. All that is claimed is that it
/// reads the hyphenated form back: given the hyphenated form of sixteen
/// octets, it yields an identifier that holds those octets.
#[verifier::external_body]
fn parse(text: &str) -> (parsed: Option<Uuid>)
    ensures
        parsed is None ==> !is_hyphenated(text@),
        parsed matches Some(found) ==> forall|octets: Seq<u8>|
            octets.len() == 16 && text@ == #[trigger] hyphenated(octets) ==> uuid_octets(found)
                == octets,
{
    Uuid::try_parse(text).ok()
}

/// The sixteen octets of `uuid`, in order.
pub fn uuid_to_bytes(uuid: Uuid) -> (bytes: Vec<u8>)
    ensures
        bytes@ == uuid_octets(uuid),
        bytes@.len() == 16,
{
    let held = octets(&uuid);
    slice_to_vec(held.as_slice())
}

/// Reads an identifier back from its stored text. Only the hyphenated form is
/// taken: any other text, also one that names an identifier in another
/// notation, gives `None`.
pub fn uuid_from_text(text: &str) -> (id: Option<Uuid>)
    ensures
        id is Some <==> is_hyphenated(text@),
        id matches Some(found) ==> uuid_octets(found) == unhyphenated(text@),
{
    match parse(text) {
        Some(found) => {
            let held = octets(&found);
            if hyphenated_text(&found) == text.to_owned() {
                proof {
                    assert(held@.len() == 16);
                    law_hyphenated_reads_back(held@);
                }
                Some(found)
            } else {
                None
            }
        },
        None => None,
    }
}

} // verus!
