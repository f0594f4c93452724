use vstd::prelude::*;

verus! {

/// The canonical reason phrase that the HTTP status catalogue assigns to a
/// code, if it assigns one; a fixed function of the code alone.
pub uninterp spec fn canonical_phrase_of(code: u16) -> Option<Seq<char>>;

/// Relies on reqwest::StatusCode::from_u16 and StatusCode::canonical_reason:
/// from_u16 accepts exactly the codes 100..=999, the table of canonical
/// reason phrases ends at 511, so no code outside 100..=599 has a phrase, and
/// the phrase depends on the code alone.
#[verifier::external_body]
fn canonical_reason_lookup(code: u16) -> (r: Option<String>)
    ensures
        r is Some <==> canonical_phrase_of(code) is Some,
        r matches Some(p) ==> p@ == canonical_phrase_of(code)->0,
        code < 100 || 599 < code ==> r is None,
{
    match reqwest::StatusCode::from_u16(code) {
        Ok(status) => status.canonical_reason().map(String::from),
        Err(_) => None,
    }
}

/// The message shown for an HTTP status code: its canonical reason phrase
/// where the catalogue has one, and a fixed fallback everywhere else, so the
/// mapping is total over all of u16.
pub fn map_response_codes_to_error_message(status_code: u16) -> (r: String)
    ensures
        canonical_phrase_of(status_code) matches Some(p) ==> r@ == p,
        canonical_phrase_of(status_code) is None ==> r@ == "Unknown status code received"@,
        status_code < 100 || 599 < status_code ==> r@ == "Unknown status code received"@,
{
    match canonical_reason_lookup(status_code) {
        Some(phrase) => phrase,
        None => "Unknown status code received".to_owned(),
    }
}

} // verus!
