use vstd::prelude::*;
use vstd::string::StringExecFns;
use crate::decimal::{decimal, int_text};
use crate::time::Timestamp;

verus! {

/// The base of the service's main API.
pub const API_URL: &'static str = "https://api.track.toggl.com/api/v8";

/// The detailed reports endpoint.
pub const REPORTS_API_URL: &'static str = "https://api.track.toggl.com/reports/api/v2/details";

/// Whether a text is a valid absolute URL.
pub uninterp spec fn url_parses(text: Seq<char>) -> bool;

/// The serialization of the URL that a text parses to.
pub uninterp spec fn url_text(text: Seq<char>) -> Seq<char>;

/// The serialization of the URL that a base text parses to, with the pairs
/// appended to its query, form-encoded.
pub uninterp spec fn params_url_text(
    base: Seq<char>,
    pairs: Seq<(Seq<char>, Seq<char>)>,
) -> Seq<char>;

/// Relies on url's `Url::parse` (re-exported by reqwest): whether the text is
/// accepted, and the serialization of the URL it gives, depend on the text
/// alone.
#[verifier::external_body]
fn parse_url(text: &str) -> (r: Option<String>)
    ensures
        r is Some <==> url_parses(text@),
        r matches Some(t) ==> t@ == url_text(text@),
{
    match reqwest::Url::parse(text) {
        Ok(u) => Some(String::from(u)),
        Err(_) => None,
    }
}

/// Relies on url's `Url::parse_with_params`, which parses the base as
/// `Url::parse` does and, where that succeeds, appends each pair to the query,
/// form-encoded; it fails only where the base does not parse, and the
/// serialization of the URL it gives depends on the base and the pairs alone.
#[verifier::external_body]
pub(crate) fn parse_url_with_params(
    base: &str,
    pairs: &Vec<(String, String)>,
) -> (r: Option<String>)
    ensures
        r is Some <==> url_parses(base@),
        r matches Some(t) ==> t@ == params_url_text(base@, pair_texts(pairs@)),
{
    match reqwest::Url::parse_with_params(base, pairs.iter()) {
        Ok(u) => Some(String::from(u)),
        Err(_) => None,
    }
}

/// The user name and password of the HTTP Basic authentication that carries
/// an API key: a fixed marker as user name, the key as password.
pub fn basic_auth_credentials(api_key: &str) -> (r: (String, String))
    ensures
        r.0@ == "api_token"@,
        r.1@ == api_key@,
{
    (String::from_str("api_token"), String::from_str(api_key))
}

/// The endpoint that creates time entries.
pub fn time_entries_url() -> (r: String)
    ensures
        r@ == API_URL@ + "/time_entries"@,
{
    String::from_str(API_URL).concat("/time_entries")
}

/// The endpoint that lists the user's workspaces.
pub fn workspaces_url() -> (r: String)
    ensures
        r@ == API_URL@ + "/workspaces"@,
{
    String::from_str(API_URL).concat("/workspaces")
}

/// The endpoint that lists the tags of workspace `wid`.
pub fn workspace_tags_url(wid: i64) -> (r: String)
    ensures
        r@ == API_URL@ + "/workspaces/"@ + decimal(wid as int) + "/tags"@,
{
    let id = int_text(wid);
    String::from_str(API_URL).concat("/workspaces/").concat(id.as_str()).concat("/tags")
}

/// The endpoint that lists the projects of workspace `wid`.
pub fn workspace_projects_url(wid: i64) -> (r: String)
    ensures
        r@ == API_URL@ + "/workspaces/"@ + decimal(wid as int) + "/projects"@,
{
    let id = int_text(wid);
    String::from_str(API_URL).concat("/workspaces/").concat(id.as_str()).concat("/projects")
}

/// The endpoint of the current user, without query.
pub open spec fn current_user_base() -> Seq<char> {
    API_URL@ + "/me"@
}

/// The query of a request for the current user: with a `since` instant, the
/// related data changed since then, named by its Unix seconds; without one,
/// nothing.
pub open spec fn current_user_params(since: Option<Timestamp>) -> Seq<(Seq<char>, Seq<char>)> {
    match since {
        Some(t) => seq![("with_related_data"@, "true"@), ("since"@, decimal(t.secs_spec()))],
        None => Seq::empty(),
    }
}

/// Each pair's two texts.
pub open spec fn pair_texts(pairs: Seq<(String, String)>) -> Seq<(Seq<char>, Seq<char>)> {
    pairs.map_values(|p: (String, String)| (p.0@, p.1@))
}

/// The query pairs of a request for the current user.
pub fn current_user_query(since: Option<Timestamp>) -> (r: Vec<(String, String)>)
    ensures
        pair_texts(r@) == current_user_params(since),
{
    let mut r: Vec<(String, String)> = Vec::new();
    match since {
        Some(t) => {
            r.push((String::from_str("with_related_data"), String::from_str("true")));
            r.push((String::from_str("since"), int_text(t.seconds())));
            assert(pair_texts(r@) =~= current_user_params(since));
        },
        None => {
            assert(pair_texts(r@) =~= current_user_params(since));
        },
    }
    r
}

/// The text of the URL of a request for the current user: with a `since`
/// instant, the endpoint with the query of `current_user_params`; without
/// one, the endpoint alone, with no query.
pub open spec fn current_user_url_text(since: Option<Timestamp>) -> Seq<char> {
    match since {
        Some(_) => params_url_text(current_user_base(), current_user_params(since)),
        None => url_text(current_user_base()),
    }
}

/// The URL of a request for the current user, as `current_user_url_text`
/// gives it; `None` only where the endpoint is not a valid URL.
pub fn current_user_url(since: Option<Timestamp>) -> (r: Option<String>)
    ensures
        r is Some <==> url_parses(current_user_base()),
        r matches Some(t) ==> t@ == current_user_url_text(since),
{
    let base = String::from_str(API_URL).concat("/me");
    match since {
        Some(_) => {
            let pairs = current_user_query(since);
            parse_url_with_params(base.as_str(), &pairs)
        },
        None => parse_url(base.as_str()),
    }
}

} // verus!
