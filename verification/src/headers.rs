//! The extra headers of a request to the model provider.
use vstd::prelude::*;

verus! {

/// The header map of the `http` crate, which `reqwest` hands on.
#[verifier::external_type_specification]
#[verifier::external_body]
#[verifier::reject_recursive_types(T)]
pub struct ExHeaderMap<T>(reqwest::header::HeaderMap<T>);

/// The values of each header in the map, by the header's lower-case name.
pub uninterp spec fn header_entries(
    headers: reqwest::header::HeaderMap<reqwest::header::HeaderValue>,
) -> Map<Seq<char>, Seq<Seq<char>>>;

/// A header value of the `http` crate.
#[verifier::external_type_specification]
#[verifier::external_body]
pub struct ExHeaderValue(reqwest::header::HeaderValue);

/// A header name written in lower-case letters, digits and hyphens.
pub open spec fn plain_header_name(name: Seq<char>) -> bool {
    &&& 0 < name.len() <= 64
    &&& forall|i: int|
        0 <= i < name.len() ==> ('a' <= #[trigger] name[i] <= 'z' || '0' <= name[i] <= '9'
            || name[i] == '-')
}

/// A header value of printable ASCII characters.
pub open spec fn plain_header_value(value: Seq<char>) -> bool {
    forall|i: int| 0 <= i < value.len() ==> ' ' <= #[trigger] value[i] <= '~'
}

/// The entries of a map that holds no header.
pub open spec fn no_entries() -> Map<Seq<char>, Seq<Seq<char>>> {
    Map::empty()
}

/// `HeaderMap::new`: a map that holds no header.
#[verifier::external_body]
pub(crate) fn no_headers() -> (res: reqwest::header::HeaderMap<reqwest::header::HeaderValue>)
    ensures
        header_entries(res) == no_entries(),
{
    reqwest::header::HeaderMap::new()
}

/// `HeaderMap::insert` under a fixed name: the header has the one value
/// afterwards, whatever it had before, and the other headers stay. A malformed
/// name or value, or a full map, would panic.
#[verifier::external_body]
pub(crate) fn insert_header(
    headers: &mut reqwest::header::HeaderMap<reqwest::header::HeaderValue>,
    name: &'static str,
    value: &str,
)
    requires
        plain_header_name(name@),
        plain_header_value(value@),
        header_entries(*old(headers)).dom().finite(),
        header_entries(*old(headers)).dom().len() < 16,
    ensures
        header_entries(*final(headers)) == header_entries(*old(headers)).insert(
            name@,
            seq![value@],
        ),
{
    headers.insert(name, value.parse().unwrap());
}

/// The headers that ask the provider for the study-mode system prompt; none
/// outside study mode.
pub fn request_headers(study_mode: bool) -> (res: Option<
    reqwest::header::HeaderMap<reqwest::header::HeaderValue>,
>)
    ensures
        match res {
            Some(headers) => study_mode && header_entries(headers) == map![
                "x-system-prompt-key"@ => seq!["agent_study_mode"@],
            ],
            None => !study_mode,
        },
{
    if !study_mode {
        return None;
    }
    let mut headers = no_headers();
    proof {
        reveal_strlit("x-system-prompt-key");
        reveal_strlit("agent_study_mode");
    }
    insert_header(&mut headers, "x-system-prompt-key", "agent_study_mode");
    Some(headers)
}

} // verus!
