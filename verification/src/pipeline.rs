//! The request pipeline: authentication around the route handlers, and the
//! dispatch of accepted texts to the embedding model.
//!
//! The pipeline runs in two verified halves.  `handle` takes one request
//! from the authentication gate through routing and content negotiation to a
//! dispatch step: either a finished response, or the text to hand to the
//! embedding model.  The blocking model call itself happens outside; its
//! outcome comes back as an `EncodeOutcome`, and `predict_response` turns
//! that outcome into the final response.  The access logger
//! (`crate::logging`) wraps both halves from outside, so rejected requests
//! are logged like accepted ones.

use vstd::prelude::*;
use vstd::string::StringSliceAdditionalSpecFns;
use crate::auth::{Auth, AuthVerdict, auth_allows, extracted_credential};
use crate::http::{Request, RequestView, Response, ResponseView};
use crate::negotiate::{negotiate, negotiated};

verus! {

/// The process-wide state every request handler reads: the system identifier
/// and the allowed credential, fixed at startup.  The embedding model handle
/// that completes the server's state is an outside resource and lives with
/// the code that performs the blocking call.
pub struct AppState {
    /// The system identifier named in log records.
    pub system_code: Vec<u8>,
    /// The configured allowed credential; empty disables enforcement.
    pub allowed_api_key: Vec<u8>,
}

/// The mathematical shadow of an `AppState`.
pub struct AppStateView {
    pub system_code: Seq<u8>,
    pub allowed_api_key: Seq<u8>,
}

impl View for AppState {
    type V = AppStateView;

    open spec fn view(&self) -> AppStateView {
        AppStateView { system_code: self.system_code@, allowed_api_key: self.allowed_api_key@ }
    }
}

/// What the pipeline decides about one request before any model work: either
/// the response is already settled, or this text must be encoded.
pub enum Step {
    /// The response owed, with no model involvement.
    Respond(Response),
    /// The text to hand to the embedding model.
    Encode(Vec<u8>),
}

/// The mathematical shadow of a `Step`.
pub enum StepView {
    Respond(ResponseView),
    Encode(Seq<u8>),
}

impl View for Step {
    type V = StepView;

    open spec fn view(&self) -> StepView {
        match self {
            Step::Respond(r) => StepView::Respond(r@),
            Step::Encode(t) => StepView::Encode(t@),
        }
    }
}

/// The outcome of the dispatched model call, as the outside worker reports
/// it back to the pipeline.
pub enum EncodeOutcome {
    /// The model produced a vector; this is its serialized JSON-array form.
    Embedding(Vec<u8>),
    /// The dispatched worker failed before the model answered.
    DispatchFailed,
    /// The model itself rejected the input or was unavailable.
    ModelFailed,
}

/// The greeting body of the public route.
pub open spec fn greeting() -> Seq<u8> {
    "Hello from text-vectorizer".spec_bytes()
}

/// The body sent when negotiation yields no text to embed.
pub open spec fn empty_body_message() -> Seq<u8> {
    "empty or malformed request body".spec_bytes()
}

/// The body sent when the dispatched worker fails.
pub open spec fn dispatch_error_message() -> Seq<u8> {
    "error generating embeddings".spec_bytes()
}

/// The body sent when the model call fails.
pub open spec fn model_error_message() -> Seq<u8> {
    "error getting prediction".spec_bytes()
}

/// The public path and the predict path name different routes: their byte
/// forms differ.
proof fn lemma_paths_distinct()
    ensures
        "/".spec_bytes() != "/predict".spec_bytes(),
{
    reveal_strlit("/");
    reveal_strlit("/predict");
    assert(vstd::utf8::is_ascii_chars("/"@));
    assert(vstd::utf8::is_ascii_chars("/predict"@));
    vstd::utf8::is_ascii_chars_encode_utf8("/"@);
    vstd::utf8::is_ascii_chars_encode_utf8("/predict"@);
    assert("/".spec_bytes().len() == 1);
    assert("/predict".spec_bytes().len() == 8);
}

/// What the pipeline decides on one request: forbidden unless the
/// authentication gate allows it; then the greeting on `GET /`; then, on
/// `POST /predict`, either a rejection of empty text or the dispatch of the
/// negotiated text; any other route is not found.
pub open spec fn handled(state: AppStateView, req: RequestView) -> StepView {
    if !auth_allows(req.path, extracted_credential(req.authorization), state.allowed_api_key) {
        StepView::Respond(ResponseView { status: 403, body: Seq::empty() })
    } else if req.method == "GET".spec_bytes() && req.path == "/".spec_bytes() {
        StepView::Respond(ResponseView { status: 200, body: greeting() })
    } else if req.method == "POST".spec_bytes() && req.path == "/predict".spec_bytes() {
        let text = negotiated(req.content_type, req.body);
        if text.len() == 0 {
            StepView::Respond(ResponseView { status: 500, body: empty_body_message() })
        } else {
            StepView::Encode(text)
        }
    } else {
        StepView::Respond(ResponseView { status: 404, body: Seq::empty() })
    }
}

/// The public route: a greeting naming the system.
pub fn index() -> (r: Response)
    ensures
        r@.status == 200,
        r@.body == greeting(),
{
    Response { status: 200, body: vstd::slice::slice_to_vec("Hello from text-vectorizer".as_bytes()) }
}

/// Runs one request through the authentication gate, the routes and the
/// content negotiator, up to the dispatch decision.
///
/// The clauses after the first restate what is owed on notable inputs: the
/// public path always answers 200 whatever the `Authorization` header holds;
/// a wrong credential on `/predict` is turned away with 403 before any model
/// work; an accepted `/predict` request with an empty body never reaches the
/// model either.
pub fn handle(state: &AppState, req: &Request) -> (s: Step)
    ensures
        s@ == handled(state@, req@),
        req@.path == "/".spec_bytes() && req@.method == "GET".spec_bytes() ==> (s@ matches
            StepView::Respond(r) && r.status == 200),
        req@.path == "/predict".spec_bytes() && extracted_credential(req@.authorization)
            != state@.allowed_api_key ==> s@ == StepView::Respond(
            ResponseView { status: 403, body: Seq::empty() },
        ),
        req@.path == "/predict".spec_bytes() && req@.body.len() == 0 ==> (s@ matches
            StepView::Respond(r) && r.status != 200),
{
    proof {
        lemma_paths_distinct();
    }
    let auth = Auth;
    let gate = auth.new_transform();
    match gate.call(req, &state.allowed_api_key) {
        AuthVerdict::Forbidden => Step::Respond(Response { status: 403, body: Vec::new() }),
        AuthVerdict::Allow => {
            let is_get = crate::bytestr::bytes_eq(req.method.as_slice(), "GET".as_bytes());
            let is_post = crate::bytestr::bytes_eq(req.method.as_slice(), "POST".as_bytes());
            let is_root = crate::bytestr::bytes_eq(req.path.as_slice(), "/".as_bytes());
            let is_predict = crate::bytestr::bytes_eq(req.path.as_slice(), "/predict".as_bytes());
            if is_get && is_root {
                Step::Respond(index())
            } else if is_post && is_predict {
                let text = negotiate(req.content_type.as_ref(), &req.body);
                if text.len() == 0 {
                    Step::Respond(
                        Response {
                            status: 500,
                            body: vstd::slice::slice_to_vec("empty or malformed request body".as_bytes()),
                        },
                    )
                } else {
                    Step::Encode(text)
                }
            } else {
                Step::Respond(Response { status: 404, body: Vec::new() })
            }
        },
    }
}

/// The public path bypasses the credential check: a `GET /` request is
/// answered 200 with the greeting whatever the `Authorization` header held,
/// or whether it was there at all.
pub proof fn lemma_public_path_always_allowed(state: AppStateView, req: RequestView)
    requires
        req.path == "/".spec_bytes(),
        req.method == "GET".spec_bytes(),
    ensures
        handled(state, req) == StepView::Respond(
            ResponseView { status: 200, body: greeting() },
        ),
{
}

/// A request to `/predict` whose candidate credential differs from the
/// allowed one is turned away with 403, and nothing is ever dispatched to
/// the model for it.
pub proof fn lemma_wrong_credential_rejected(state: AppStateView, req: RequestView)
    requires
        req.path == "/predict".spec_bytes(),
        extracted_credential(req.authorization) != state.allowed_api_key,
    ensures
        handled(state, req) == StepView::Respond(
            ResponseView { status: 403, body: Seq::empty() },
        ),
{
    lemma_paths_distinct();
}

/// An accepted `POST /predict` request is decided by its negotiated text
/// alone: non-empty text is dispatched to the model exactly as negotiated,
/// and empty text is refused before any model work.
pub proof fn lemma_accepted_predict_dispatches(state: AppStateView, req: RequestView)
    requires
        req.method == "POST".spec_bytes(),
        req.path == "/predict".spec_bytes(),
        extracted_credential(req.authorization) == state.allowed_api_key,
    ensures
        negotiated(req.content_type, req.body).len() > 0 ==> handled(state, req)
            == StepView::Encode(negotiated(req.content_type, req.body)),
        negotiated(req.content_type, req.body).len() == 0 ==> handled(state, req)
            == StepView::Respond(ResponseView { status: 500, body: empty_body_message() }),
{
    lemma_paths_distinct();
}

/// The dispatch decision is a function of the state and the request alone:
/// the same request handled twice is handled the same way, so the same text
/// reaches the model both times.
pub proof fn lemma_handle_deterministic(state: AppStateView, r1: RequestView, r2: RequestView)
    requires
        r1 == r2,
    ensures
        handled(state, r1) == handled(state, r2),
{
}

/// Turns the model outcome of an accepted `/predict` request into its
/// response: the serialized vector with 200, or the error owed for the way
/// the call failed.
pub fn predict_response(outcome: EncodeOutcome) -> (r: Response)
    ensures
        match outcome {
            EncodeOutcome::Embedding(b) => r@.status == 200 && r@.body == b@,
            EncodeOutcome::DispatchFailed => r@.status == 500 && r@.body
                == dispatch_error_message(),
            EncodeOutcome::ModelFailed => r@.status == 500 && r@.body == model_error_message(),
        },
{
    match outcome {
        EncodeOutcome::Embedding(body) => Response { status: 200, body },
        EncodeOutcome::DispatchFailed => Response {
            status: 500,
            body: vstd::slice::slice_to_vec("error generating embeddings".as_bytes()),
        },
        EncodeOutcome::ModelFailed => Response {
            status: 500,
            body: vstd::slice::slice_to_vec("error getting prediction".as_bytes()),
        },
    }
}

} // verus!
