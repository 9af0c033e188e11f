use vstd::prelude::*;

verus! {

/// hyper's URI type (defined in the `http` crate), carried through opaque.
#[verifier::external_type_specification]
#[verifier::external_body]
pub struct ExUri(hyper::Uri);

/// The path-and-query used when the inbound request carries none.
pub open spec fn default_path() -> Seq<char> {
    seq!['/']
}

/// The text of an optional string.
pub open spec fn text_opt<T: View<V = Seq<char>>>(o: Option<T>) -> Option<Seq<char>> {
    match o {
        Some(t) => Some(t@),
        None => None,
    }
}

/// What the inbound request contributes to the outbound target: its
/// path-and-query, or `/` where it has none (absent or empty).
pub open spec fn path_or_default(path_and_query: Option<Seq<char>>) -> Seq<char> {
    match path_and_query {
        Some(p) => if p.len() > 0 { p } else { default_path() },
        None => default_path(),
    }
}

/// The outbound target: the backend's base address followed by the inbound
/// path-and-query, unchanged.
pub open spec fn target_text(server: Seq<char>, path_and_query: Option<Seq<char>>) -> Seq<char> {
    server + path_or_default(path_and_query)
}

/// Whether hyper's URI parser accepts the given text.
pub uninterp spec fn uri_parses(s: Seq<char>) -> bool;

/// Relies on `<hyper::Uri as FromStr>::from_str` (from the `http` crate):
/// whether it succeeds depends on the text alone.
#[verifier::external_body]
fn parse_uri(s: &str) -> (r: Option<hyper::Uri>)
    ensures
        r.is_some() == uri_parses(s@),
{
    s.parse::<hyper::Uri>().ok()
}

/// Builds the text of the outbound target from the backend's base address
/// and the inbound path-and-query.
pub fn outbound_target(server: &str, path_and_query: Option<&str>) -> (r: String)
    ensures
        r@ == target_text(server@, text_opt(path_and_query)),
{
    let path: &str = match path_and_query {
        Some(p) => if p.is_empty() { "/" } else { p },
        None => "/",
    };
    proof {
        reveal_strlit("/");
    }
    String::from_str(server).concat(path)
}

/// The outbound URI for a backend and an inbound path-and-query, or `None`
/// where the combined text is not a URI.
pub fn backend_uri(server: &str, path_and_query: Option<&str>) -> (r: Option<hyper::Uri>)
    ensures
        r.is_some() == uri_parses(target_text(server@, text_opt(path_and_query))),
{
    let text = outbound_target(server, path_and_query);
    parse_uri(text.as_str())
}

} // verus!
