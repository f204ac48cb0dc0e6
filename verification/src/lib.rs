//! A typed client for a small slice of the GitHub REST API: the current
//! user, an organization's repositories, and milestone CRUD plus the
//! title-based convenience operations built on top of it.
//!
//! The crate performs no I/O of its own.  Every operation is split into
//! pure pieces: a request builder on [`Client`] yields the exact
//! [`HttpRequest`] the operation issues (URL, verb, both fixed headers,
//! and the JSON body), and a response function turns the raw
//! [`HttpOutcome`] a transport observed back into typed values or a
//! [`ResponseError`].  The composite operations (find a milestone by
//! title, close it, delete it) expose their decision step as a function
//! from the listing result to the follow-up request, so the short-circuit
//! on a failed first step is part of their contract.  A thin driver
//! around the crate performs the network exchanges and feeds each outcome
//! back in.

use vstd::prelude::*;
use vstd::string::StringExecFns;

pub mod http;
pub mod json;
pub mod milestones;
pub mod repos;
pub mod text;
pub mod users;

use http::{HttpOutcome, HttpRequest, HttpRequestV, Method, spec_is_success};
use json::{JsonV, parse_json, spec_parse_json};
use milestones::{
    Milestone, MilestonePatch, MilestonePatchV, MilestoneProperties, State, find_milestone_by_title,
    is_milestone_json, is_milestone_list_json, milestone_from_json, milestone_matches_json,
    milestones_from_json, spec_find, spec_patch_json, spec_props_json,
};
use repos::{Repo, is_repo_list_json, repo_matches_json, repos_from_json};
use text::{dec_str, u32_text};
use users::{User, is_user_json, user_from_json, user_matches_json};

verus! {

/// Why an operation failed.
#[derive(Debug)]
pub enum ResponseError {
    /// A derived lookup found no matching resource.  Primitive operations
    /// never raise this; a missing resource surfaces there as an
    /// `HTTPError` with the server's status.
    NotFound,
    /// The transport failed below the HTTP level, or the server answered
    /// with a non-success status.
    HTTPError(HttpCause),
    /// The response body could not be decoded into the expected shape.
    SerializationError(String),
}

/// The cause carried by [`ResponseError::HTTPError`].
#[derive(Debug)]
pub enum HttpCause {
    /// A failure below the HTTP level, with the transport's message.
    Transport(String),
    /// A non-success status answered by the server.
    Status(u16),
}

/// The mathematical image of an [`HttpCause`].
pub enum HttpCauseV {
    Transport(Seq<char>),
    Status(u16),
}

impl View for HttpCause {
    type V = HttpCauseV;

    open spec fn view(&self) -> HttpCauseV {
        match self {
            HttpCause::Transport(m) => HttpCauseV::Transport(m@),
            HttpCause::Status(st) => HttpCauseV::Status(*st),
        }
    }
}

/// The mathematical image of a [`ResponseError`].
pub enum ResponseErrorV {
    NotFound,
    HTTPError(HttpCauseV),
    SerializationError(Seq<char>),
}

impl View for ResponseError {
    type V = ResponseErrorV;

    open spec fn view(&self) -> ResponseErrorV {
        match self {
            ResponseError::NotFound => ResponseErrorV::NotFound,
            ResponseError::HTTPError(c) => ResponseErrorV::HTTPError(c@),
            ResponseError::SerializationError(m) => ResponseErrorV::SerializationError(m@),
        }
    }
}

/// An owned copy of an error, for propagating a borrowed one unchanged.
fn clone_error(e: &ResponseError) -> (r: ResponseError)
    ensures
        r@ == e@,
{
    match e {
        ResponseError::NotFound => ResponseError::NotFound,
        ResponseError::HTTPError(c) => ResponseError::HTTPError(
            match c {
                HttpCause::Transport(m) => HttpCause::Transport(m.clone()),
                HttpCause::Status(st) => HttpCause::Status(*st),
            },
        ),
        ResponseError::SerializationError(m) => ResponseError::SerializationError(m.clone()),
    }
}

/// The fixed `User-Agent` the API requires on every request.
pub open spec fn spec_user_agent() -> Seq<char> {
    "github.com/michaelklishin/gh-rs"@
}

/// The fixed base URL prepended to every path.
pub open spec fn spec_api_base() -> Seq<char> {
    "https://api.github.com"@
}

/// The `Authorization` header value for a token.
pub open spec fn spec_auth_header(token: Seq<char>) -> Seq<char> {
    "token "@ + token
}

/// The URL of the current-user resource.
pub open spec fn spec_user_url() -> Seq<char> {
    spec_api_base() + "/user"@
}

/// The URL listing an organization's repositories.
pub open spec fn spec_org_repos_url(org: Seq<char>) -> Seq<char> {
    spec_api_base() + "/orgs/"@ + org + "/repos"@
}

/// The URL of a repository's milestone collection.
pub open spec fn spec_milestones_url(owner: Seq<char>, repo: Seq<char>) -> Seq<char> {
    spec_api_base() + "/repos/"@ + owner + "/"@ + repo + "/milestones"@
}

/// The URL of one milestone, addressed by its repository-scoped number.
pub open spec fn spec_milestone_url(owner: Seq<char>, repo: Seq<char>, number: u32) -> Seq<char> {
    spec_milestones_url(owner, repo) + "/"@ + dec_str(number as int)
}

/// The request a client with configuration `c` sends.
pub open spec fn spec_request(
    c: ClientV,
    method: Method,
    url: Seq<char>,
    body: Option<Seq<char>>,
) -> HttpRequestV {
    HttpRequestV {
        method: method,
        url: url,
        authorization: c.authorization,
        user_agent: c.user_agent,
        body: body,
    }
}

/// The body of the patch that changes only the state of a milestone: no
/// other field is on the wire, so the server leaves them unchanged.
pub open spec fn spec_state_patch_json(st: State) -> Seq<char> {
    spec_patch_json(
        MilestonePatchV { title: None, state: Some(st), description: None, due_on: None },
    )
}

/// A state transition puts exactly one field on the wire: the body of
/// the patch to `st` is the literal text `{"state":"open"}` or
/// `{"state":"closed"}`, so closing or reopening a milestone can never
/// clear its title, description or due date.
pub proof fn lemma_state_patch_body(st: State)
    ensures
        spec_state_patch_json(st) == "{\"state\":\""@ + milestones::state_text(st) + "\"}"@,
{
    reveal_strlit("open");
    reveal_strlit("closed");
    reveal_strlit("{");
    reveal_strlit("}");
    reveal_strlit("\"");
    reveal_strlit("\"state\":");
    reveal_strlit("{\"state\":\"");
    reveal_strlit("\"}");
    assert(milestones::no_escapes(milestones::state_text(st)));
    milestones::lemma_plain_string_escapes_to_itself(milestones::state_text(st));
    assert(spec_state_patch_json(st) =~= "{\"state\":\""@ + milestones::state_text(st) + "\"}"@);
}

/// The immutable configuration every request is built from: the two
/// headers, baked in at construction.
#[derive(Debug)]
pub struct Client {
    pub authorization: String,
    pub user_agent: String,
}

/// The mathematical image of a [`Client`].
pub struct ClientV {
    pub authorization: Seq<char>,
    pub user_agent: Seq<char>,
}

impl View for Client {
    type V = ClientV;

    open spec fn view(&self) -> ClientV {
        ClientV { authorization: self.authorization@, user_agent: self.user_agent@ }
    }
}

/// A client for the given bearer token; the same as [`Client::new`].
pub fn client(token: &str) -> (c: Client)
    ensures
        c@.authorization == spec_auth_header(token@),
        c@.user_agent == spec_user_agent(),
{
    Client::new(token)
}

impl Client {
    /// A client whose requests carry `Authorization: token <token>` and
    /// the fixed `User-Agent`.
    pub fn new(token: &str) -> (c: Client)
        ensures
            c@.authorization == spec_auth_header(token@),
            c@.user_agent == spec_user_agent(),
    {
        let mut authorization = String::from_str("token ");
        authorization.append(token);
        Client {
            authorization: authorization,
            user_agent: String::from_str("github.com/michaelklishin/gh-rs"),
        }
    }

    /// A request with this client's headers.
    fn request(&self, method: Method, url: String, body: Option<String>) -> (r: HttpRequest)
        ensures
            r@ == spec_request(
                self@,
                method,
                url@,
                match body {
                    Some(b) => Some(b@),
                    None => None,
                },
            ),
    {
        HttpRequest {
            method: method,
            url: url,
            authorization: self.authorization.clone(),
            user_agent: self.user_agent.clone(),
            body: body,
        }
    }

    /// The request of the current-user operation: GET `/user`.
    pub fn current_user(&self) -> (r: HttpRequest)
        ensures
            r@ == spec_request(self@, Method::Get, spec_user_url(), None),
    {
        let mut url = String::from_str("https://api.github.com");
        url.append("/user");
        self.request(Method::Get, url, None)
    }

    /// The request listing an organization's repositories: GET
    /// `/orgs/{org}/repos`.
    pub fn list_repos_of_org(&self, org: &str) -> (r: HttpRequest)
        ensures
            r@ == spec_request(self@, Method::Get, spec_org_repos_url(org@), None),
    {
        let mut url = String::from_str("https://api.github.com");
        url.append("/orgs/");
        url.append(org);
        url.append("/repos");
        self.request(Method::Get, url, None)
    }

    /// The request listing a repository's milestones: GET
    /// `/repos/{owner}/{repo}/milestones`.
    pub fn list_milestones(&self, owner: &str, repo: &str) -> (r: HttpRequest)
        ensures
            r@ == spec_request(self@, Method::Get, spec_milestones_url(owner@, repo@), None),
    {
        let url = milestones_url(owner, repo);
        self.request(Method::Get, url, None)
    }

    /// The request reading one milestone: GET
    /// `/repos/{owner}/{repo}/milestones/{number}`.
    pub fn get_milestone(&self, owner: &str, repo: &str, number: u32) -> (r: HttpRequest)
        ensures
            r@ == spec_request(self@, Method::Get, spec_milestone_url(owner@, repo@, number), None),
    {
        let url = milestone_url(owner, repo, number);
        self.request(Method::Get, url, None)
    }

    /// The request creating a milestone: POST
    /// `/repos/{owner}/{repo}/milestones` with the exact body of
    /// [`spec_props_json`] — absent optional fields are left off the wire.
    pub fn create_milestone(&self, owner: &str, repo: &str, props: &MilestoneProperties) -> (r:
        HttpRequest)
        ensures
            r@ == spec_request(
                self@,
                Method::Post,
                spec_milestones_url(owner@, repo@),
                Some(spec_props_json(props@)),
            ),
    {
        let url = milestones_url(owner, repo);
        let body = milestones::encode_milestone_properties(props);
        self.request(Method::Post, url, Some(body))
    }

    /// The request patching a milestone: PATCH
    /// `/repos/{owner}/{repo}/milestones/{number}` with the exact body of
    /// [`spec_patch_json`] — only present fields are on the wire, so the
    /// server leaves the others unchanged.
    pub fn update_milestone(
        &self,
        owner: &str,
        repo: &str,
        number: u32,
        patch: &MilestonePatch,
    ) -> (r: HttpRequest)
        ensures
            r@ == spec_request(
                self@,
                Method::Patch,
                spec_milestone_url(owner@, repo@, number),
                Some(spec_patch_json(patch@)),
            ),
    {
        let url = milestone_url(owner, repo, number);
        let body = milestones::encode_milestone_patch(patch);
        self.request(Method::Patch, url, Some(body))
    }

    /// The patch that carries only a target state.
    fn update_milestone_state(&self, owner: &str, repo: &str, number: u32, state: State) -> (r:
        HttpRequest)
        ensures
            r@ == spec_request(
                self@,
                Method::Patch,
                spec_milestone_url(owner@, repo@, number),
                Some(spec_state_patch_json(state)),
            ),
    {
        let patch = MilestonePatch { title: None, state: Some(state), description: None, due_on: None };
        self.update_milestone(owner, repo, number, &patch)
    }

    /// The request reopening a milestone: a patch whose body carries only
    /// `"state":"open"`, so title, description and due date are untouched.
    pub fn open_milestone(&self, owner: &str, repo: &str, number: u32) -> (r: HttpRequest)
        ensures
            r@ == spec_request(
                self@,
                Method::Patch,
                spec_milestone_url(owner@, repo@, number),
                Some(spec_state_patch_json(State::Open)),
            ),
    {
        self.update_milestone_state(owner, repo, number, State::Open)
    }

    /// The request deleting a milestone: DELETE
    /// `/repos/{owner}/{repo}/milestones/{number}`.
    pub fn delete_milestone(&self, owner: &str, repo: &str, number: u32) -> (r: HttpRequest)
        ensures
            r@ == spec_request(
                self@,
                Method::Delete,
                spec_milestone_url(owner@, repo@, number),
                None,
            ),
    {
        let url = milestone_url(owner, repo, number);
        self.request(Method::Delete, url, None)
    }

    /// The decision step of the title lookup: given the interpreted
    /// outcome of [`Client::list_milestones`], the first milestone whose
    /// title equals `title` exactly; [`ResponseError::NotFound`] when none
    /// matches; a failed listing is propagated unchanged.
    pub fn get_milestone_with_title(
        &self,
        title: &str,
        listing: &Result<Vec<Milestone>, ResponseError>,
    ) -> (r: Result<Milestone, ResponseError>)
        ensures
            (match *listing {
                Err(e) => r matches Err(f) && f@ == e@,
                Ok(ms) => (match spec_find(ms@, title@) {
                    Some(m) => r matches Ok(f) && f@ == m@,
                    None => r matches Err(f) && f@ == ResponseErrorV::NotFound,
                }),
            }),
    {
        match listing {
            Err(e) => Err(clone_error(e)),
            Ok(ms) => find_milestone_by_title(ms, title),
        }
    }

    /// The decision step of close-by-title: on a successful listing with
    /// a title match, the follow-up is the state-only patch to `closed`
    /// for the discovered number; with no match it fails with
    /// [`ResponseError::NotFound`] and no second request exists to issue;
    /// a failed listing is propagated unchanged.
    pub fn close_milestone(
        &self,
        owner: &str,
        repo: &str,
        title: &str,
        listing: &Result<Vec<Milestone>, ResponseError>,
    ) -> (r: Followup)
        ensures
            (match *listing {
                Err(e) => r matches Followup::Fail(f) && f@ == e@,
                Ok(ms) => (match spec_find(ms@, title@) {
                    Some(m) => r matches Followup::Request(q) && q@ == spec_request(
                        self@,
                        Method::Patch,
                        spec_milestone_url(owner@, repo@, m@.number),
                        Some(spec_state_patch_json(State::Closed)),
                    ),
                    None => r matches Followup::Fail(f) && f@ == ResponseErrorV::NotFound,
                }),
            }),
    {
        match self.get_milestone_with_title(title, listing) {
            Err(e) => Followup::Fail(e),
            Ok(m) => Followup::Request(
                self.update_milestone_state(owner, repo, m.number, State::Closed),
            ),
        }
    }

    /// The decision step of delete-by-title: on a successful listing with
    /// a title match, the follow-up is the delete request for the
    /// discovered number; with no match it fails with
    /// [`ResponseError::NotFound`] and no second request exists to issue;
    /// a failed listing is propagated unchanged.
    pub fn delete_milestone_with_title(
        &self,
        owner: &str,
        repo: &str,
        title: &str,
        listing: &Result<Vec<Milestone>, ResponseError>,
    ) -> (r: Followup)
        ensures
            (match *listing {
                Err(e) => r matches Followup::Fail(f) && f@ == e@,
                Ok(ms) => (match spec_find(ms@, title@) {
                    Some(m) => r matches Followup::Request(q) && q@ == spec_request(
                        self@,
                        Method::Delete,
                        spec_milestone_url(owner@, repo@, m@.number),
                        None,
                    ),
                    None => r matches Followup::Fail(f) && f@ == ResponseErrorV::NotFound,
                }),
            }),
    {
        match self.get_milestone_with_title(title, listing) {
            Err(e) => Followup::Fail(e),
            Ok(m) => Followup::Request(self.delete_milestone(owner, repo, m.number)),
        }
    }
}

/// What a composite operation does after its first step: issue one more
/// request, or stop with the first failure.
#[derive(Debug)]
pub enum Followup {
    Request(HttpRequest),
    Fail(ResponseError),
}

/// The error discipline shared by every response function: a transport
/// failure maps to `HTTPError` carrying the transport's message, a
/// non-success status to `HTTPError` carrying that status, and on a
/// success status the only admissible failure is a
/// `SerializationError`; `NotFound` is never raised here.
pub open spec fn spec_response_skeleton<T>(
    outcome: &HttpOutcome,
    r: &Result<T, ResponseError>,
) -> bool {
    match *outcome {
        HttpOutcome::Failure(m) => r matches Err(e) && e@ == ResponseErrorV::HTTPError(
            HttpCauseV::Transport(m@),
        ),
        HttpOutcome::Response(st, _) => if spec_is_success(st) {
            (r matches Ok(_)) || (r matches Err(e) && e@ matches ResponseErrorV::SerializationError(
                _,
            ))
        } else {
            r matches Err(e) && e@ == ResponseErrorV::HTTPError(HttpCauseV::Status(st))
        },
    }
}

/// The HTTP skeleton every response goes through first: a transport
/// failure becomes `HTTPError` with the transport's message, a
/// non-success status becomes `HTTPError` with that status, and a
/// success hands the body on.
fn check_http<'a>(outcome: &'a HttpOutcome) -> (r: Result<&'a String, ResponseError>)
    ensures
        (match *outcome {
            HttpOutcome::Failure(m) => r matches Err(e) && e@ == ResponseErrorV::HTTPError(
                HttpCauseV::Transport(m@),
            ),
            HttpOutcome::Response(st, b) => if spec_is_success(st) {
                r matches Ok(body) && body@ == b@
            } else {
                r matches Err(e) && e@ == ResponseErrorV::HTTPError(HttpCauseV::Status(st))
            },
        }),
{
    match outcome {
        HttpOutcome::Failure(m) => Err(
            ResponseError::HTTPError(HttpCause::Transport(m.clone())),
        ),
        HttpOutcome::Response(st, b) => {
            if 200 <= *st && *st < 300 {
                Ok(b)
            } else {
                Err(ResponseError::HTTPError(HttpCause::Status(*st)))
            }
        },
    }
}

fn invalid_json_error() -> (r: ResponseError)
    ensures
        r@ matches ResponseErrorV::SerializationError(_),
{
    ResponseError::SerializationError(String::from_str("response body is not valid JSON"))
}

/// A decode failure naming the shape that was expected of the body.
fn shape_error(expected: &str) -> (r: ResponseError)
    ensures
        r@ matches ResponseErrorV::SerializationError(_),
{
    let mut m = String::from_str("response body is valid JSON but not ");
    m.append(expected);
    ResponseError::SerializationError(m)
}

/// Interprets the outcome of [`Client::current_user`]: on a success
/// status the body must decode as a user record; errors follow the
/// closed taxonomy and are never `NotFound`.
pub fn user_response(outcome: &HttpOutcome) -> (r: Result<User, ResponseError>)
    ensures
        spec_response_skeleton(outcome, &r),
        (match *outcome {
            HttpOutcome::Response(st, b) => spec_is_success(st) ==> (match spec_parse_json(b@) {
                Some(jv) => (match r {
                    Ok(u) => is_user_json(jv) && user_matches_json(u@, jv),
                    Err(e) => !is_user_json(jv) && (e@ matches ResponseErrorV::SerializationError(
                        _,
                    )),
                }),
                None => (r matches Err(e) && e@ matches ResponseErrorV::SerializationError(_)),
            }),
            _ => true,
        }),
{
    let body = match check_http(outcome) {
        Ok(b) => b,
        Err(e) => {
            return Err(e);
        },
    };
    match parse_json(body.as_str()) {
        None => Err(invalid_json_error()),
        Some(j) => match user_from_json(&j) {
            Some(u) => Ok(u),
            None => Err(shape_error("a user record")),
        },
    }
}

/// Interprets the outcome of [`Client::list_repos_of_org`]: on a success
/// status the body must decode as an array of repository records.
pub fn repo_list_response(outcome: &HttpOutcome) -> (r: Result<Vec<Repo>, ResponseError>)
    ensures
        spec_response_skeleton(outcome, &r),
        (match *outcome {
            HttpOutcome::Response(st, b) => spec_is_success(st) ==> (match spec_parse_json(b@) {
                Some(jv) => (match r {
                    Ok(rs) => {
                        &&& is_repo_list_json(jv)
                        &&& jv matches JsonV::Arr(_)
                        &&& rs@.len() == jv->Arr_0.len()
                        &&& (forall|i: int|
                            0 <= i < rs@.len() ==> repo_matches_json(
                                (#[trigger] rs@[i])@,
                                jv->Arr_0[i],
                            ))
                    },
                    Err(e) => !is_repo_list_json(jv) && (e@
                        matches ResponseErrorV::SerializationError(_)),
                }),
                None => (r matches Err(e) && e@ matches ResponseErrorV::SerializationError(_)),
            }),
            _ => true,
        }),
{
    let body = match check_http(outcome) {
        Ok(b) => b,
        Err(e) => {
            return Err(e);
        },
    };
    match parse_json(body.as_str()) {
        None => Err(invalid_json_error()),
        Some(j) => match repos_from_json(&j) {
            Some(rs) => Ok(rs),
            None => Err(shape_error("a list of repository records")),
        },
    }
}

/// Interprets the outcome of [`Client::list_milestones`]: on a success
/// status the body must decode as an array of milestone records.
pub fn milestone_list_response(outcome: &HttpOutcome) -> (r: Result<Vec<Milestone>, ResponseError>)
    ensures
        spec_response_skeleton(outcome, &r),
        (match *outcome {
            HttpOutcome::Response(st, b) => spec_is_success(st) ==> (match spec_parse_json(b@) {
                Some(jv) => (match r {
                    Ok(ms) => {
                        &&& is_milestone_list_json(jv)
                        &&& jv matches JsonV::Arr(_)
                        &&& ms@.len() == jv->Arr_0.len()
                        &&& (forall|i: int|
                            0 <= i < ms@.len() ==> milestone_matches_json(
                                (#[trigger] ms@[i])@,
                                jv->Arr_0[i],
                            ))
                    },
                    Err(e) => !is_milestone_list_json(jv) && (e@
                        matches ResponseErrorV::SerializationError(_)),
                }),
                None => (r matches Err(e) && e@ matches ResponseErrorV::SerializationError(_)),
            }),
            _ => true,
        }),
{
    let body = match check_http(outcome) {
        Ok(b) => b,
        Err(e) => {
            return Err(e);
        },
    };
    match parse_json(body.as_str()) {
        None => Err(invalid_json_error()),
        Some(j) => match milestones_from_json(&j) {
            Some(ms) => Ok(ms),
            None => Err(shape_error("a list of milestone records")),
        },
    }
}

/// Interprets the outcome of an operation that answers with one
/// milestone record (get, create, update, open, the close follow-up).
pub fn milestone_response(outcome: &HttpOutcome) -> (r: Result<Milestone, ResponseError>)
    ensures
        spec_response_skeleton(outcome, &r),
        (match *outcome {
            HttpOutcome::Response(st, b) => spec_is_success(st) ==> (match spec_parse_json(b@) {
                Some(jv) => (match r {
                    Ok(m) => is_milestone_json(jv) && milestone_matches_json(m@, jv),
                    Err(e) => !is_milestone_json(jv) && (e@
                        matches ResponseErrorV::SerializationError(_)),
                }),
                None => (r matches Err(e) && e@ matches ResponseErrorV::SerializationError(_)),
            }),
            _ => true,
        }),
{
    let body = match check_http(outcome) {
        Ok(b) => b,
        Err(e) => {
            return Err(e);
        },
    };
    match parse_json(body.as_str()) {
        None => Err(invalid_json_error()),
        Some(j) => match milestone_from_json(&j) {
            Some(m) => Ok(m),
            None => Err(shape_error("a milestone record")),
        },
    }
}

/// Interprets the outcome of an operation without a payload (delete and
/// its by-title follow-up): exactly the HTTP skeleton, with `Ok(())` on
/// any success status.
pub fn delete_response(outcome: &HttpOutcome) -> (r: Result<(), ResponseError>)
    ensures
        spec_response_skeleton(outcome, &r),
        (match *outcome {
            HttpOutcome::Response(st, _) => spec_is_success(st) ==> r is Ok,
            _ => true,
        }),
{
    match check_http(outcome) {
        Ok(_) => Ok(()),
        Err(e) => Err(e),
    }
}

/// Builds `/repos/{owner}/{repo}/milestones` under the base URL.
fn milestones_url(owner: &str, repo: &str) -> (r: String)
    ensures
        r@ == spec_milestones_url(owner@, repo@),
{
    let mut url = String::from_str("https://api.github.com");
    url.append("/repos/");
    url.append(owner);
    url.append("/");
    url.append(repo);
    url.append("/milestones");
    url
}

/// Builds `/repos/{owner}/{repo}/milestones/{number}` under the base URL.
fn milestone_url(owner: &str, repo: &str, number: u32) -> (r: String)
    ensures
        r@ == spec_milestone_url(owner@, repo@, number),
{
    let mut url = milestones_url(owner, repo);
    url.append("/");
    let digits = u32_text(number);
    url.append(digits.as_str());
    url
}

} // verus!
