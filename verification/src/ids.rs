//! Ids of calls and observations.

use vstd::prelude::*;

verus! {

/// What `Uuid::parse_str` of `uuid` makes of a text: the id in its usual
/// lowercase form with hyphens, or the text of the refusal.
pub uninterp spec fn parsed_uuid(s: Seq<char>) -> Result<Seq<char>, Seq<char>>;

/// A parsed id, as contracts see it.
pub open spec fn parsed_view(r: Result<String, String>) -> Result<Seq<char>, Seq<char>> {
    match r {
        Ok(id) => Ok(id@),
        Err(refusal) => Err(refusal@),
    }
}

/// Whether a text is an id in its usual form, which reads back as itself.
pub open spec fn is_written_id(s: Seq<char>) -> bool {
    parsed_uuid(s) matches Ok(id) && id == s
}

/// `Uuid::parse_str` of `uuid`, with the id and the error written out. Which
/// texts are ids takes a grammar of several forms to say, so the result is
/// only named: it depends on the text alone. An id that is written out reads
/// back as itself.
#[verifier::external_body]
pub(crate) fn parse_uuid(s: &str) -> (r: Result<String, String>)
    ensures
        parsed_view(r) == parsed_uuid(s@),
        r matches Ok(id) ==> is_written_id(id@),
{
    match uuid::Uuid::parse_str(s) {
        Ok(id) => Ok(id.to_string()),
        Err(error) => Err(error.to_string()),
    }
}

/// `Uuid::new_v4` of `uuid`, written out: an id for a call. Which id comes is
/// random, so no more is said than that it is one in its usual form.
#[verifier::external_body]
pub(crate) fn new_call_id() -> (r: String)
    ensures
        is_written_id(r@),
{
    uuid::Uuid::new_v4().to_string()
}

} // verus!
