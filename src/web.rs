//! The messages of the in-browser variant of the host, and its answers.
use vstd::prelude::*;

verus! {

/// A request to the in-browser host.
#[derive(Debug)]
pub struct Request {
    pub version: u64,
    pub action: Action,
    pub correlation_id: String,
}

/// What a request to the in-browser host asks for.
#[allow(inconsistent_fields)]
#[derive(Debug)]
pub enum Action {
    SaveRequest { payload: SavePayload },
    SearchRequest { payload: SearchPayload },
}

/// A page to save.
#[derive(Debug)]
pub struct SavePayload {
    pub title: String,
    pub inner_text: String,
}

/// A search.
#[derive(Debug)]
pub struct SearchPayload {
    pub query: String,
}

/// An answer of the in-browser host.
#[derive(Debug)]
pub struct Response {
    pub version: u64,
    pub action: ResponseAction,
    pub correlation_id: String,
}

/// What an answer of the in-browser host says.
#[allow(inconsistent_fields)]
#[derive(Debug)]
pub enum ResponseAction {
    SaveResponse { payload: SaveResponsePayload },
    SearchResponse { payload: SearchResponsePayload },
}

/// The outcome of a save.
#[derive(Debug)]
pub struct SaveResponsePayload {
    pub status: String,
    pub details: String,
}

/// The results of a search.
#[derive(Debug)]
pub struct SearchResponsePayload {
    pub results: Vec<String>,
}

/// Answers a request the way the in-browser host does so far: every save
/// succeeds, and every search returns the same two placeholder items. The
/// answer carries the request's version and correlation id.
pub fn execute(request: Request) -> (r: Response)
    ensures
        r.version == request.version,
        r.correlation_id@ == request.correlation_id@,
        request.action is SaveRequest ==> (r.action matches ResponseAction::SaveResponse { payload }
            && payload.status@ == "Success"@ && payload.details@ == "Item saved"@),
        request.action is SearchRequest ==> (r.action matches ResponseAction::SearchResponse {
            payload,
        } && payload.results@.len() == 2 && payload.results@[0]@ == "Item1"@
            && payload.results@[1]@ == "Item2"@),
{
    let correlation_id = request.correlation_id;
    let action = match request.action {
        Action::SaveRequest { payload: _ } => ResponseAction::SaveResponse {
            payload: SaveResponsePayload {
                status: String::from_str("Success"),
                details: String::from_str("Item saved"),
            },
        },
        Action::SearchRequest { payload: _ } => ResponseAction::SearchResponse {
            payload: SearchResponsePayload {
                results: vec![String::from_str("Item1"), String::from_str("Item2")],
            },
        },
    };
    Response { version: request.version, action, correlation_id }
}

} // verus!
