//! The front-end's decisions for one HTTP request: where it goes, what is
//! answered without entering the isolate, what the isolate is handed, and
//! what the host log says about the way a reply ended.

use vstd::prelude::*;
use vstd::string::StringExecFns;
use crate::http::{
    lower, normal, without, Request, RequestModel, Response, RunResult, RunResultModel,
};

verus! {

/// The path that browsers ask for on their own.
pub const FAVICON_URL: &'static str = "/favicon.ico";

/// The header that carries the client's address.
pub const X_FORWARDED_FOR: &'static str = "x-forwarded-for";

/// The header that carries the region that serves the request.
pub const X_LAGON_REGION: &'static str = "x-lagon-region";

/// The region of a development host.
pub const LOCAL_REGION: &'static str = "local";

/// A request path matches an asset when it is a slash followed by the
/// asset's path, which is relative.
pub open spec fn matches_asset(path: Seq<char>, asset: Seq<char>) -> bool {
    path == seq!['/'] + asset
}

/// The place of the first asset that `path` matches, if it matches one.
pub open spec fn first_match(path: Seq<char>, assets: Seq<Seq<char>>, at: int) -> bool {
    &&& 0 <= at < assets.len()
    &&& matches_asset(path, assets[at])
    &&& forall|j: int| 0 <= j < at ==> !matches_asset(path, #[trigger] assets[j])
}

/// Looks a request path up among the paths of the asset manifest. Returns
/// the first asset that the path matches.
pub fn find_asset(path: &str, assets: &Vec<String>) -> (r: Option<String>)
    ensures
        match r {
            Some(name) => exists|at: int|
                first_match(path@, assets@.map_values(|a: String| a@), at) && #[trigger] assets[at]@
                    == name@,
            None => forall|i: int|
                0 <= i < assets.len() ==> !matches_asset(path@, (#[trigger] assets[i])@),
        },
{
    let wanted = path.to_owned();
    let ghost names = assets@.map_values(|a: String| a@);
    let mut i: usize = 0;
    while i < assets.len()
        invariant
            0 <= i <= assets.len(),
            wanted@ == path@,
            names == assets@.map_values(|a: String| a@),
            forall|j: int| 0 <= j < i ==> !matches_asset(path@, (#[trigger] assets[j])@),
        decreases assets.len() - i,
    {
        proof {
            reveal_strlit("/");
        }
        let mut candidate = String::from_str("/");
        candidate.append(assets[i].as_str());
        assert(candidate@ =~= seq!['/'] + assets[i as int]@);
        if candidate == wanted {
            proof {
                assert(names[i as int] == assets[i as int]@);
                assert forall|j: int| 0 <= j < i implies !matches_asset(
                    path@,
                    #[trigger] names[j],
                ) by {
                    assert(names[j] == assets[j]@);
                }
                assert(first_match(path@, names, i as int));
            }
            return Some(assets[i].clone());
        }
        i += 1;
    }
    None
}

/// Where a request goes.
#[derive(Debug, PartialEq, Eq)]
pub enum Route {
    /// The path matched this entry of the asset manifest: the file is served.
    Asset(String),
    /// Nothing matched and the path is the favicon's: answered with 404.
    NotFound,
    /// Everything else is submitted to the isolate.
    Isolate,
}

/// Chooses the route for a request path. `asset` is the entry of the asset
/// manifest that the path matched, if it matched one.
pub fn route(path: &str, asset: Option<String>) -> (r: Route)
    ensures
        match asset {
            Some(name) => r == Route::Asset(name),
            None => if path@ == FAVICON_URL@ {
                r == Route::NotFound
            } else {
                r == Route::Isolate
            },
        },
{
    match asset {
        Some(name) => Route::Asset(name),
        None => {
            if path.to_owned() == String::from_str(FAVICON_URL) {
                Route::NotFound
            } else {
                Route::Isolate
            }
        },
    }
}

/// The text of the error that stands for an asset that could not be read.
pub open spec fn asset_failure(asset: Seq<char>, error: Seq<char>) -> Seq<char> {
    "Could not retrieve asset ("@ + asset + "): "@ + error
}

/// The result for a request that matched `asset`. `outcome` is what reading
/// the asset gave: its response, or the description of the failure.
pub fn asset_result(asset: &str, outcome: Result<Response, String>) -> (r: RunResult)
    ensures
        match outcome {
            Ok(response) => r == RunResult::Response(response),
            Err(error) => r@ == RunResultModel::Error(asset_failure(asset@, error@)),
        },
{
    match outcome {
        Ok(response) => RunResult::Response(response),
        Err(error) => {
            let mut text = String::from_str("Could not retrieve asset (");
            text.append(asset);
            text.append("): ");
            text.append(error.as_str());
            RunResult::Error(text)
        },
    }
}

/// The result for the favicon where no asset matched: status 404, no header,
/// no byte.
pub fn not_found() -> (r: RunResult)
    ensures
        r@ == RunResultModel::Response(Response::bare(404)),
{
    RunResult::Response(Response::with_status(404))
}

/// The headers of `request` after the front-end has stamped it.
pub open spec fn stamped(request: RequestModel, ip: Seq<char>) -> RequestModel {
    let with_ip = without(request.headers, X_FORWARDED_FOR@).push((X_FORWARDED_FOR@, ip));
    RequestModel {
        headers: without(with_ip, X_LAGON_REGION@).push((X_LAGON_REGION@, LOCAL_REGION@)),
        ..request
    }
}

/// Both header names are in lower case already.
pub proof fn lemma_stamp_names_lower()
    ensures
        lower(X_FORWARDED_FOR@) == X_FORWARDED_FOR@,
        lower(X_LAGON_REGION@) == X_LAGON_REGION@,
        X_FORWARDED_FOR@ != X_LAGON_REGION@,
{
    reveal_strlit("x-forwarded-for");
    reveal_strlit("x-lagon-region");
    assert(lower(X_FORWARDED_FOR@) =~= X_FORWARDED_FOR@);
    assert(lower(X_LAGON_REGION@) =~= X_LAGON_REGION@);
    assert(X_FORWARDED_FOR@.len() != X_LAGON_REGION@.len());
}

/// Stamps a request on its way to the isolate: the client's address under
/// `x-forwarded-for`, and the region `local` under `x-lagon-region`. Each
/// replaces whatever the client sent under that name.
pub fn stamp(request: Request, ip: String) -> (r: Request)
    ensures
        r@ == stamped(request@, ip@),
        normal(request@.headers) ==> normal(r@.headers),
{
    proof {
        lemma_stamp_names_lower();
    }
    let mut request = request;
    request.set_header(X_FORWARDED_FOR, ip);
    request.set_header(X_LAGON_REGION, String::from_str(LOCAL_REGION));
    request
}

/// What the front-end does with a request that is bound for the isolate.
#[derive(Debug, PartialEq, Eq)]
pub enum Dispatch {
    /// Submit this request to the isolate.
    Submit(Request),
    /// Answer with `result` at once, and write `notice` to the console.
    Reject { result: RunResult, notice: String },
}

/// The result that stands for a request that could not be read.
pub open spec fn parse_failure() -> Seq<char> {
    "Error while parsing request"@
}

/// The console line for such a request.
pub open spec fn parse_notice(error: Seq<char>) -> Seq<char> {
    "Error while parsing request: "@ + error
}

/// Decides on a request that is bound for the isolate. `parsed` is what
/// reading the request gave: the request, or the description of the failure.
/// A request that was read is stamped and submitted; one that was not is
/// answered with an error result.
pub fn dispatch(parsed: Result<Request, String>, ip: String) -> (r: Dispatch)
    ensures
        match parsed {
            Ok(request) => r matches Dispatch::Submit(sent) && sent@ == stamped(request@, ip@),
            Err(error) => r matches Dispatch::Reject { result, notice } && result@
                == RunResultModel::Error(parse_failure()) && notice@ == parse_notice(error@),
        },
{
    match parsed {
        Ok(request) => Dispatch::Submit(stamp(request, ip)),
        Err(error) => {
            let mut notice = String::from_str("Error while parsing request: ");
            notice.append(error.as_str());
            Dispatch::Reject {
                result: RunResult::Error(String::from_str("Error while parsing request")),
                notice,
            }
        },
    }
}

/// What the front-end learns while it turns a reply into an HTTP response.
#[derive(Debug, PartialEq, Eq)]
pub enum ResponseEvent {
    /// The response was sent; it had this many body bytes.
    Bytes(usize),
    /// The stream ended before a response head or a chunk came.
    StreamDoneNoDataError,
    /// A chunk came after the stream had ended.
    StreamDoneDataError,
    /// Something else than a part of the stream came while streaming.
    UnexpectedStreamResult(RunResult),
    /// The run ended on one of its limits.
    LimitsReached(RunResult),
    /// The run ended on an error with this text.
    Error(String),
}

/// The console line for an event, where it has one.
pub open spec fn event_text(event: ResponseEvent) -> Option<Seq<char>> {
    match event {
        ResponseEvent::Bytes(_) => None,
        ResponseEvent::StreamDoneNoDataError => Some(
            "The stream was done before sending a response/data"@,
        ),
        ResponseEvent::StreamDoneDataError => Some("Got data after stream was done"@),
        ResponseEvent::UnexpectedStreamResult(_) => Some("Unexpected stream result:"@),
        ResponseEvent::LimitsReached(result) => if result@ == RunResultModel::Timeout {
            Some("Function execution timed out"@)
        } else {
            Some("Function execution reached memory limit"@)
        },
        ResponseEvent::Error(message) => Some(message@),
    }
}

/// The console line for an event. The count of bytes sent is no news and
/// has none; for an unexpected result the line is the heading under which
/// the caller prints the result.
pub fn event_message(event: &ResponseEvent) -> (r: Option<String>)
    ensures
        r is Some <==> event_text(*event) is Some,
        r matches Some(text) ==> Some(text@) == event_text(*event),
{
    match event {
        ResponseEvent::Bytes(_) => None,
        ResponseEvent::StreamDoneNoDataError => Some(
            String::from_str("The stream was done before sending a response/data"),
        ),
        ResponseEvent::StreamDoneDataError => Some(
            String::from_str("Got data after stream was done"),
        ),
        ResponseEvent::UnexpectedStreamResult(_) => Some(
            String::from_str("Unexpected stream result:"),
        ),
        ResponseEvent::LimitsReached(result) => match result {
            RunResult::Timeout => Some(String::from_str("Function execution timed out")),
            _ => Some(String::from_str("Function execution reached memory limit")),
        },
        ResponseEvent::Error(message) => Some(message.clone()),
    }
}

} // verus!
