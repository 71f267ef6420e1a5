//! What is sent to the wiki's endpoint and how its answer is judged.
//!
//! A request is a list of key and value pairs. The listing request carries
//! the continuation of the listing before it, the content request the titles
//! of one batch, joined by `|`. An answer is taken only when its status is one
//! of success.

use crate::structs::Continuation;
use crate::structs::ContinuationView;
use vstd::prelude::*;

verus! {

/// Why a call of the endpoint gave no value.
#[derive(Debug, PartialEq, Eq)]
pub enum ApiError {
    /// The request could not be sent, or the answer could not be read.
    Transport,
    /// The endpoint answered with a status that is not one of success.
    Status { code: u16, body: String },
    /// The body of the answer does not have the expected shape.
    Decode { body: String },
}

/// A request parameter in the model: key and value.
pub type ParamView = (Seq<char>, Seq<char>);

/// The first `count` of `titles`, joined by `|`.
pub open spec fn joined_prefix(titles: Seq<Seq<char>>, count: nat) -> Seq<char>
    decreases count,
{
    if count == 0 {
        Seq::empty()
    } else if count == 1 {
        titles[0]
    } else {
        joined_prefix(titles, (count - 1) as nat) + seq!['|'] + titles[count - 1]
    }
}

/// All of `titles`, joined by `|`: the titles in their order, with one `|`
/// between two neighbours and none at either end.
pub open spec fn joined(titles: Seq<Seq<char>>) -> Seq<char> {
    joined_prefix(titles, titles.len())
}

/// The parameters that every request carries.
pub open spec fn common_params() -> Seq<ParamView> {
    seq![("action"@, "query"@), ("format"@, "json"@)]
}

/// The parameters that select what the endpoint does: `list` walks the
/// listing of all pages, `scrape` fetches the content of pages and resolves
/// redirects. Any other name selects nothing.
pub open spec fn function_params(function: Seq<char>) -> Seq<ParamView> {
    if function == "list"@ {
        seq![("list"@, "allpages"@), ("aplimit"@, "500"@)]
    } else if function == "scrape"@ {
        seq![
            ("prop"@, "revisions"@),
            ("rvprop"@, "content"@),
            ("rvslots"@, "main"@),
            ("redirects"@, "1"@),
        ]
    } else {
        Seq::empty()
    }
}

/// The two tokens of a continuation, as they were received.
pub open spec fn continuation_params(cont: Option<ContinuationView>) -> Seq<ParamView> {
    match cont {
        Some(c) => seq![("apcontinue"@, c.apcontinue), ("continue"@, c.continuation)],
        None => Seq::empty(),
    }
}

/// The joined titles of a batch.
pub open spec fn titles_params(titles: Option<Seq<char>>) -> Seq<ParamView> {
    match titles {
        Some(t) => seq![("titles"@, t)],
        None => Seq::empty(),
    }
}

/// The whole request: common parameters, then those of the function, then
/// the continuation, then the titles.
pub open spec fn request_params_of(
    function: Seq<char>,
    cont: Option<ContinuationView>,
    titles: Option<Seq<char>>,
) -> Seq<ParamView> {
    common_params() + function_params(function) + continuation_params(cont) + titles_params(
        titles,
    )
}

/// Whether a status code is one of success: 200 to 299.
pub open spec fn status_is_success(code: u16) -> bool {
    200 <= code < 300
}

/// One request parameter.
pub fn param(k: &str, v: &str) -> (pair: (String, String))
    ensures
        pair.0@ == k@,
        pair.1@ == v@,
        pair.deep_view() == (k@, v@),
{
    (k.to_owned(), v.to_owned())
}

/// Joins the titles of a batch into the one value that the content request
/// carries.
pub fn join_titles(titles: &Vec<String>) -> (text: String)
    ensures
        text@ == joined(titles.deep_view()),
{
    let mut text = String::new();
    let mut i: usize = 0;
    proof {
        reveal_strlit("|");
    }
    while i < titles.len()
        invariant
            i <= titles.len(),
            "|"@ == seq!['|'],
            text@ == joined_prefix(titles.deep_view(), i as nat),
        decreases titles.len() - i,
    {
        if i > 0 {
            text.append("|");
        }
        text.append(titles[i].as_str());
        i += 1;
    }
    text
}

/// Whether two texts are the same.
fn same_text(a: &str, b: &str) -> (same: bool)
    ensures
        same == (a@ == b@),
{
    a.to_owned() == b.to_owned()
}

/// Appends the parameter `k`, `v` to `params`.
fn push_param(params: &mut Vec<(String, String)>, k: &str, v: &str)
    ensures
        final(params).deep_view() == old(params).deep_view().push((k@, v@)),
{
    params.push(param(k, v));
}

/// The parameters of one request to the endpoint, in the order in which they
/// are sent. `function` is `list` or `scrape`; `cont` is the continuation
/// that the listing before handed out, if any; `ttls` the joined titles of a
/// batch, if any.
pub fn request_params(function: &str, cont: Option<Continuation>, ttls: Option<String>) -> (params:
    Vec<(String, String)>)
    ensures
        params.deep_view() == request_params_of(function@, cont.deep_view(), ttls.deep_view()),
{
    let mut params: Vec<(String, String)> = Vec::new();
    push_param(&mut params, "action", "query");
    push_param(&mut params, "format", "json");

    if same_text(function, "list") {
        push_param(&mut params, "list", "allpages");
        push_param(&mut params, "aplimit", "500");
    } else if same_text(function, "scrape") {
        push_param(&mut params, "prop", "revisions");
        push_param(&mut params, "rvprop", "content");
        push_param(&mut params, "rvslots", "main");
        push_param(&mut params, "redirects", "1");
    }

    if let Some(continuation) = cont {
        push_param(&mut params, "apcontinue", continuation.apcontinue.as_str());
        push_param(&mut params, "continue", continuation.continuation.as_str());
    }

    if let Some(titles) = ttls {
        push_param(&mut params, "titles", titles.as_str());
    }
    params
}

/// The request for the page of the listing that follows `cont`, or for its
/// first page when there is no continuation yet.
pub fn list_request(cont: Option<Continuation>) -> (params: Vec<(String, String)>)
    ensures
        params.deep_view() == request_params_of("list"@, cont.deep_view(), None),
{
    request_params("list", cont, None)
}

/// The request for the content of the pages that `titles` names.
pub fn scrape_request(titles: &Vec<String>) -> (params: Vec<(String, String)>)
    ensures
        params.deep_view() == request_params_of(
            "scrape"@,
            None,
            Some(joined(titles.deep_view())),
        ),
{
    request_params("scrape", None, Some(join_titles(titles)))
}

/// Judges an answer by its status. An answer with a status of success hands
/// its body on to be decoded; any other is an error that keeps the status and
/// the body.
pub fn check_status(code: u16, body: String) -> (checked: Result<String, ApiError>)
    ensures
        checked is Ok <==> status_is_success(code),
        checked matches Ok(text) ==> text@ == body@,
        checked matches Err(e) ==> (e matches ApiError::Status { code: c, body: b } && c == code
            && b@ == body@),
{
    if 200 <= code && code < 300 {
        Ok(body)
    } else {
        Err(ApiError::Status { code, body })
    }
}

} // verus!
