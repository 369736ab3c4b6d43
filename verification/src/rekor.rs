use vstd::prelude::*;

verus! {

use vstd::string::StrSliceExecFns;
use vstd::string::StringExecFns;

/// The rewritten transparency-log response: the log entry's identifier,
/// which the service returns as a dynamic top-level key, is lifted into a
/// named `uuid` field, and the entry's body follows unchanged.
pub open spec fn parse_response_spec(content: Seq<char>) -> Seq<char> {
    "{\"uuid\":"@ + content.subrange(1, 82) + "\","@ + content.subrange(
        85,
        content.len() as int - 2,
    )
}

/// Reshapes a raw log-entry response so that it can be read into a struct:
/// the identifier found at bytes 1..82 becomes the value of a `uuid` field
/// and the remainder of the body is kept as it stands.
pub fn parse_response(local_var_content: String) -> (r: String)
    requires
        local_var_content@.len() >= 87,
        local_var_content.is_ascii(),
    ensures
        r@ == parse_response_spec(local_var_content@),
{
    let n = local_var_content.as_str().unicode_len();
    let uuid = local_var_content.as_str().substring_ascii(1, 82);
    let rest = local_var_content.as_str().substring_ascii(85, n - 2);
    let mut r = String::from_str("{\"uuid\":");
    r.append(uuid);
    r.append("\",");
    r.append(rest);
    proof {
        assert(r@ =~= parse_response_spec(local_var_content@));
    }
    r
}

} // verus!
