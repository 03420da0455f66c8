//! The front-end router: a request path is served as the file at that path,
//! or, when there is none, as the file at that path with `.html` appended.
//! Each step names the next file request, or says how to answer.
use vstd::prelude::*;
use crate::uri::{parse_uri, uri_valid};

verus! {

/// Status code of a not-found response.
pub const NOT_FOUND: u16 = 404;

/// Status code of a server error.
pub const INTERNAL_SERVER_ERROR: u16 = 500;

/// What the file service answered to one request.
pub enum FileAnswer {
    /// A response with this status code (404 when no file is there).
    Response { status: u16 },
    /// The service could not produce a response.
    Error { message: String },
}

/// A file request: the URI asked for, and whether it is already the `.html`
/// fallback of the URI first asked for.
pub struct StaticFetch {
    pub uri: String,
    pub fallback: bool,
}

/// What the router does next.
pub enum RouteStep {
    /// Ask the file service for this request.
    Fetch(StaticFetch),
    /// Send the last response, with the fixed front-end headers.
    Respond,
    /// Send an error response with this status code and message.
    Fail { status: u16, message: String },
}

/// The mathematical value of a `FileAnswer`.
pub enum AnswerView {
    Response(u16),
    Error(Seq<char>),
}

/// The mathematical value of a `RouteStep`.
pub enum StepView {
    Fetch(Seq<char>, bool),
    Respond,
    Fail(u16, Seq<char>),
}

impl View for FileAnswer {
    type V = AnswerView;

    open spec fn view(&self) -> AnswerView {
        match self {
            FileAnswer::Response { status } => AnswerView::Response(*status),
            FileAnswer::Error { message } => AnswerView::Error(message@),
        }
    }
}

impl View for RouteStep {
    type V = StepView;

    open spec fn view(&self) -> StepView {
        match self {
            RouteStep::Fetch(f) => StepView::Fetch(f.uri@, f.fallback),
            RouteStep::Respond => StepView::Respond,
            RouteStep::Fail { status, message } => StepView::Fail(*status, message@),
        }
    }
}

/// The URI of the fallback request: the URI with `.html` appended.
pub open spec fn html_fallback(uri: Seq<char>) -> Seq<char> {
    uri + ".html"@
}

/// The step after the file service gave `answer` to the request for `uri`.
/// A not-found answer to the first request leads to one fallback request,
/// or to a server error when the fallback URI does not parse; an error of the
/// service is reported; any other answer is sent as it is.
pub open spec fn step(uri: Seq<char>, fallback: bool, answer: AnswerView) -> StepView {
    match answer {
        AnswerView::Error(m) => StepView::Fail(500, "Something went wrong: "@ + m),
        AnswerView::Response(status) => {
            if status == 404 && !fallback {
                if uri_valid(html_fallback(uri)) {
                    StepView::Fetch(html_fallback(uri), true)
                } else {
                    StepView::Fail(500, "Invalid URI"@)
                }
            } else {
                StepView::Respond
            }
        },
    }
}

/// The first file request for a request URI: the URI itself.
pub fn first_fetch(uri: &str) -> (r: StaticFetch)
    ensures
        r.uri@ == uri@,
        !r.fallback,
{
    StaticFetch { uri: String::from_str(uri), fallback: false }
}

/// The next step after the file service answered `fetch` with `answer`.
pub fn next_step(fetch: &StaticFetch, answer: &FileAnswer) -> (r: RouteStep)
    ensures
        r@ == step(fetch.uri@, fetch.fallback, answer@),
{
    match answer {
        FileAnswer::Error { message } => {
            let mut m = String::from_str("Something went wrong: ");
            m.append(message.as_str());
            RouteStep::Fail { status: INTERNAL_SERVER_ERROR, message: m }
        },
        FileAnswer::Response { status } => {
            if *status == NOT_FOUND && !fetch.fallback {
                let mut candidate = String::from_str(fetch.uri.as_str());
                candidate.append(".html");
                match parse_uri(candidate.as_str()) {
                    Ok(_) => RouteStep::Fetch(StaticFetch { uri: candidate, fallback: true }),
                    Err(_) => RouteStep::Fail {
                        status: INTERNAL_SERVER_ERROR,
                        message: String::from_str("Invalid URI"),
                    },
                }
            } else {
                RouteStep::Respond
            }
        },
    }
}

/// The headers of every front-end response: no caching, and the two
/// cross-origin isolation headers.
pub fn root_headers() -> (r: Vec<(String, String)>)
    ensures
        r@.len() == 3,
        r@[0].0@ == "cache-control"@ && r@[0].1@ == "no-store"@,
        r@[1].0@ == "cross-origin-opener-policy"@ && r@[1].1@ == "same-origin"@,
        r@[2].0@ == "cross-origin-embedder-policy"@ && r@[2].1@ == "require-corp"@,
{
    let mut r: Vec<(String, String)> = Vec::new();
    r.push((String::from_str("cache-control"), String::from_str("no-store")));
    r.push((String::from_str("cross-origin-opener-policy"), String::from_str("same-origin")));
    r.push((String::from_str("cross-origin-embedder-policy"), String::from_str("require-corp")));
    r
}

/// How a request ends: the response of the file service for `uri`, with
/// status `status`, is sent; or an error response with status `status`.
pub enum Outcome {
    Served { uri: Seq<char>, status: u16 },
    Failed { status: u16 },
    Unfinished,
}

/// The file service over a content root that holds the files at `files`:
/// 200 for a file that is there, 404 for one that is not.
pub open spec fn serve_from(files: Set<Seq<char>>, uri: Seq<char>) -> AnswerView {
    AnswerView::Response(if files.contains(uri) { 200 } else { 404 })
}

/// The outcome of a request for `uri`, the router's steps run against a
/// content root that holds `files`, for at most two file requests.
pub open spec fn resolve(files: Set<Seq<char>>, uri: Seq<char>) -> Outcome {
    let a0 = serve_from(files, uri);
    match step(uri, false, a0) {
        StepView::Respond => Outcome::Served { uri, status: a0->Response_0 },
        StepView::Fail(s, _) => Outcome::Failed { status: s },
        StepView::Fetch(u1, f1) => {
            let a1 = serve_from(files, u1);
            match step(u1, f1, a1) {
                StepView::Respond => Outcome::Served { uri: u1, status: a1->Response_0 },
                StepView::Fail(s, _) => Outcome::Failed { status: s },
                StepView::Fetch(_, _) => Outcome::Unfinished,
            }
        },
    }
}

/// A file that is there is served from its own path; else the file at the
/// path with `.html` appended is served when it is there; else the answer is
/// not-found, or a server error when the appended path does not parse. The
/// router never asks for more than these two files.
pub proof fn lemma_static_resolution(files: Set<Seq<char>>, p: Seq<char>)
    ensures
        files.contains(p) ==> resolve(files, p) == (Outcome::Served { uri: p, status: 200 }),
        !files.contains(p) && uri_valid(html_fallback(p)) && files.contains(html_fallback(p))
            ==> resolve(files, p) == (Outcome::Served { uri: html_fallback(p), status: 200 }),
        !files.contains(p) && uri_valid(html_fallback(p)) && !files.contains(html_fallback(p))
            ==> resolve(files, p) == (Outcome::Served { uri: html_fallback(p), status: 404 }),
        !files.contains(p) && !uri_valid(html_fallback(p)) ==> resolve(files, p) == (
        Outcome::Failed { status: 500 }),
        forall|u: Seq<char>, a: AnswerView| !(#[trigger] step(u, true, a) is Fetch),
{
}

} // verus!
