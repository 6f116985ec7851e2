//! New identifiers.
use vstd::prelude::*;

verus! {

/// Whether a character is a digit of a lower-case hexadecimal number.
pub open spec fn hex_digit(c: char) -> bool {
    '0' <= c <= '9' || 'a' <= c <= 'f'
}

/// Whether a text is a UUID of version 7 in its usual form: hexadecimal digits in five groups,
/// with the version before the third group and the variant before the fourth.
pub open spec fn uuid_text(text: Seq<char>) -> bool {
    &&& text.len() == 36
    &&& forall|i: int|
        0 <= i < 36 ==> if i == 8 || i == 13 || i == 18 || i == 23 {
            #[trigger] text[i] == '-'
        } else {
            hex_digit(text[i])
        }
    &&& text[14] == '7'
    &&& text[19] == '8' || text[19] == '9' || text[19] == 'a' || text[19] == 'b'
}

/// A new UUID, by `uuid::Uuid::now_v7` and its `Display`: it is of version 7 and in the
/// hyphenated lower-case form. That it differs from all others rests on the clock and on
/// chance, and is not stated.
#[verifier::external_body]
fn fresh_uuid() -> (r: String)
    ensures
        uuid_text(r@),
{
    uuid::Uuid::now_v7().to_string()
}

/// Whether a text is a prefix and a UUID.
pub open spec fn identifies(prefix: Seq<char>, text: Seq<char>) -> bool {
    exists|uuid: Seq<char>| #[trigger] uuid_text(uuid) && text == prefix + uuid
}

/// The identifier of a request that is made of a UUID.
pub fn request_id_of(uuid: &str) -> (r: String)
    ensures
        r@ == "request-"@ + uuid@,
{
    let mut id = "request-".to_owned();
    id.append(uuid);
    id
}

/// The identifier of a lease that is made of a UUID.
pub fn lease_id_of(uuid: &str) -> (r: String)
    ensures
        r@ == "lease-"@ + uuid@,
{
    let mut id = "lease-".to_owned();
    id.append(uuid);
    id
}

/// A new identifier of a request.
pub fn new_request_id() -> (r: String)
    ensures
        identifies("request-"@, r@),
{
    let uuid = fresh_uuid();
    request_id_of(uuid.as_str())
}

/// A new identifier of a lease.
pub fn new_lease_id() -> (r: String)
    ensures
        identifies("lease-"@, r@),
{
    let uuid = fresh_uuid();
    lease_id_of(uuid.as_str())
}

} // verus!
