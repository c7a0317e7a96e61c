//! Random identifiers.

use vstd::prelude::*;
use uuid::Uuid;

verus! {

/// `uuid::Uuid`: a 128-bit identifier. Nothing is known of a value of this
/// type; it is stored, copied and printed.
#[verifier::external_type_specification]
#[verifier::external_body]
pub struct ExUuid(uuid::Uuid);

/// `Uuid::new_v4` draws a random version-4 identifier. Which one is a matter
/// of chance, so nothing is claimed of it. (It gives up where the system has
/// no random numbers to give.)
pub assume_specification[ uuid::Uuid::new_v4 ]() -> (id: uuid::Uuid);

/// Whether `c` is a digit of base sixteen, with small letters for ten to
/// fifteen.
pub open spec fn is_lower_hex(c: char) -> bool {
    ('0' <= c <= '9') || ('a' <= c <= 'f')
}

/// Whether `text` has the printed form of an identifier: thirty-two digits
/// of base sixteen in groups of eight, four, four, four and twelve, with a
/// hyphen between each two groups.
pub open spec fn is_hyphenated(text: Seq<char>) -> bool {
    &&& text.len() == 36
    &&& forall|i: int|
        0 <= i < 36 ==> if i == 8 || i == 13 || i == 18 || i == 23 {
            #[trigger] text[i] == '-'
        } else {
            is_lower_hex(#[trigger] text[i])
        }
}

/// The printed form of `id`, by `Uuid`'s `Display`, which writes the
/// hyphenated form in small letters: the two digits of each of the sixteen
/// bytes in order, and a hyphen after the fourth, sixth, eighth and tenth
/// byte. Which digits they are is not claimed.
#[verifier::external_body]
pub(crate) fn uuid_text(id: &Uuid) -> (text: String)
    ensures
        is_hyphenated(text@),
{
    id.to_string()
}

/// A fresh random identifier in its printed form.
pub fn fresh_id_text() -> (text: String)
    ensures
        is_hyphenated(text@),
{
    let id: Uuid = Uuid::new_v4();
    uuid_text(&id)
}

} // verus!
