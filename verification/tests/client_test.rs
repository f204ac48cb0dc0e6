//! The client: headers, request building, response interpretation, and
//! the composite by-title operations driven against scripted responses.

use gh::http::{HttpOutcome, HttpRequest, Method};
use gh::milestones::{MilestonePatch, MilestoneProperties, State};
use gh::{
    client, delete_response, milestone_list_response, milestone_response, user_response, Client,
    Followup, HttpCause, ResponseError,
};

fn ok_response(body: &str) -> HttpOutcome {
    HttpOutcome::Response(200, String::from(body))
}

const MILESTONE_ONE: &str = "{\"url\": \"https://api.github.com/repos/o/r/milestones/1\", \
     \"id\": 1002604, \"number\": 1, \"title\": \"T1\", \"state\": \"open\", \
     \"open_issues\": 4, \"closed_at\": null, \"creator\": {\"login\": \"octocat\", \"id\": 1}}";

#[test]
fn test_client_headers() {
    let c = client("s3cr3t");
    assert_eq!(c.authorization, "token s3cr3t");
    assert_eq!(c.user_agent, "github.com/michaelklishin/gh-rs");
    let req = c.current_user();
    assert_eq!(req.authorization, "token s3cr3t");
    assert_eq!(req.user_agent, "github.com/michaelklishin/gh-rs");
}

#[test]
fn test_request_paths() {
    let c = Client::new("t");
    let r = c.current_user();
    assert!(matches!(r.method, Method::Get));
    assert_eq!(r.url, "https://api.github.com/user");
    assert!(r.body.is_none());

    let r = c.list_repos_of_org("rabbitmq");
    assert!(matches!(r.method, Method::Get));
    assert_eq!(r.url, "https://api.github.com/orgs/rabbitmq/repos");

    let r = c.list_milestones("owner", "repo");
    assert!(matches!(r.method, Method::Get));
    assert_eq!(r.url, "https://api.github.com/repos/owner/repo/milestones");

    let r = c.get_milestone("owner", "repo", 7);
    assert!(matches!(r.method, Method::Get));
    assert_eq!(r.url, "https://api.github.com/repos/owner/repo/milestones/7");

    let r = c.get_milestone("owner", "repo", 0);
    assert_eq!(r.url, "https://api.github.com/repos/owner/repo/milestones/0");

    let r = c.delete_milestone("owner", "repo", 4294967295);
    assert!(matches!(r.method, Method::Delete));
    assert_eq!(
        r.url,
        "https://api.github.com/repos/owner/repo/milestones/4294967295"
    );
    assert!(r.body.is_none());
}

#[test]
fn test_create_milestone_request() {
    let c = Client::new("t");
    let props = MilestoneProperties {
        title: String::from("T1"),
        state: Some(State::Open),
        description: None,
        due_on: None,
    };
    let r = c.create_milestone("owner", "repo", &props);
    assert!(matches!(r.method, Method::Post));
    assert_eq!(r.url, "https://api.github.com/repos/owner/repo/milestones");
    assert_eq!(r.body.as_deref(), Some("{\"title\":\"T1\",\"state\":\"open\"}"));

    let all = MilestoneProperties {
        title: String::from("a\"b"),
        state: Some(State::Closed),
        description: Some(String::from("d")),
        due_on: Some(String::from("2012-10-09T23:39:01Z")),
    };
    let r = c.create_milestone("owner", "repo", &all);
    assert_eq!(
        r.body.as_deref(),
        Some(
            "{\"title\":\"a\\\"b\",\"state\":\"closed\",\"description\":\"d\",\
             \"due_on\":\"2012-10-09T23:39:01Z\"}"
        )
    );
}

#[test]
fn test_update_milestone_request() {
    let c = Client::new("t");
    let empty = MilestonePatch { title: None, state: None, description: None, due_on: None };
    let r = c.update_milestone("owner", "repo", 3, &empty);
    assert!(matches!(r.method, Method::Patch));
    assert_eq!(r.url, "https://api.github.com/repos/owner/repo/milestones/3");
    assert_eq!(r.body.as_deref(), Some("{}"));

    let two = MilestonePatch {
        title: Some(String::from("new title")),
        state: None,
        description: None,
        due_on: Some(String::from("2020-01-01T00:00:00Z")),
    };
    let r = c.update_milestone("owner", "repo", 3, &two);
    assert_eq!(
        r.body.as_deref(),
        Some("{\"title\":\"new title\",\"due_on\":\"2020-01-01T00:00:00Z\"}")
    );
}

#[test]
fn test_open_milestone_request() {
    let c = Client::new("t");
    let r = c.open_milestone("owner", "repo", 5);
    assert!(matches!(r.method, Method::Patch));
    assert_eq!(r.url, "https://api.github.com/repos/owner/repo/milestones/5");
    // only the state is on the wire, nothing else can be clobbered
    assert_eq!(r.body.as_deref(), Some("{\"state\":\"open\"}"));
}

#[test]
fn test_state_wire_round_trip() {
    assert_eq!(State::from_text("open"), Some(State::Open));
    assert_eq!(State::from_text("closed"), Some(State::Closed));
    assert_eq!(State::Open.to_text(), "open");
    assert_eq!(State::Closed.to_text(), "closed");
    assert_eq!(State::from_text(&State::Open.to_text()), Some(State::Open));
    assert_eq!(State::from_text(&State::Closed.to_text()), Some(State::Closed));
    // nothing but the two exact strings is accepted
    for bad in ["Open", "OPEN", "close", "opened", "", " open", "open "] {
        assert_eq!(State::from_text(bad), None);
    }
}

#[test]
fn test_state_other_than_open_or_closed_is_a_serialization_error() {
    let body = MILESTONE_ONE.replace("\"open\"", "\"reopened\"");
    let r = milestone_response(&ok_response(&body));
    assert!(matches!(r, Err(ResponseError::SerializationError(_))));
}

#[test]
fn test_user_response() {
    let r = user_response(&ok_response("{\"login\": \"octocat\", \"id\": 583231}"));
    let u = r.expect("a user record should decode");
    assert_eq!(u.id, 583231);
    assert_eq!(u.login, "octocat");

    let r = user_response(&HttpOutcome::Failure(String::from("connection refused")));
    match r {
        Err(ResponseError::HTTPError(HttpCause::Transport(m))) => {
            assert_eq!(m, "connection refused")
        }
        _ => panic!("a transport failure must surface as HTTPError"),
    }

    let r = user_response(&HttpOutcome::Response(404, String::from("{}")));
    assert!(matches!(
        r,
        Err(ResponseError::HTTPError(HttpCause::Status(404)))
    ));

    // the serialization cause says why the body was refused
    match user_response(&ok_response("{\"message\": \"Bad credentials\"}")) {
        Err(ResponseError::SerializationError(m)) => assert!(m.contains("user record")),
        _ => panic!("a wrong-shape body must surface as SerializationError"),
    }
    match user_response(&ok_response("not json")) {
        Err(ResponseError::SerializationError(m)) => assert!(m.contains("not valid JSON")),
        _ => panic!("an unparseable body must surface as SerializationError"),
    }
}

#[test]
fn test_repo_list_response() {
    let r = gh::repo_list_response(&ok_response(
        "[{\"id\": 1, \"name\": \"alpha\", \"private\": false}, {\"id\": 2, \"name\": \"beta\"}]",
    ));
    let repos = r.expect("a repository list should decode");
    assert_eq!(repos.len(), 2);
    assert_eq!(repos[0].id(), 1);
    assert_eq!(repos[0].name().as_str(), "alpha");
    assert_eq!(repos[1].name().as_str(), "beta");
}

#[test]
fn test_milestone_list_must_be_an_array() {
    let r = milestone_list_response(&ok_response("{}"));
    assert!(matches!(r, Err(ResponseError::SerializationError(_))));
    let r = milestone_list_response(&ok_response(&format!("[{MILESTONE_ONE}, 3]")));
    assert!(matches!(r, Err(ResponseError::SerializationError(_))));
}

#[test]
fn test_milestone_response_decodes_record() {
    let m = milestone_response(&ok_response(MILESTONE_ONE)).expect("should decode");
    assert_eq!(m.id, 1002604);
    assert_eq!(m.number, 1);
    assert_eq!(m.url, "https://api.github.com/repos/o/r/milestones/1");
    assert_eq!(m.title, "T1");
    assert_eq!(m.state, State::Open);
    assert_eq!(m.closed_at, None);

    let closed = MILESTONE_ONE
        .replace("\"open\"", "\"closed\"")
        .replace("null", "\"2013-02-12T13:22:01Z\"");
    let m = milestone_response(&ok_response(&closed)).expect("should decode");
    assert_eq!(m.state, State::Closed);
    assert_eq!(m.closed_at.as_deref(), Some("2013-02-12T13:22:01Z"));
}

#[test]
fn test_get_milestone_with_title() {
    let c = Client::new("t");
    let body = format!(
        "[{}, {}]",
        MILESTONE_ONE,
        MILESTONE_ONE
            .replace("\"T1\"", "\"T2\"")
            .replace("\"number\": 1", "\"number\": 2")
    );
    let listing = milestone_list_response(&ok_response(&body));
    let m = c
        .get_milestone_with_title("T2", &listing)
        .expect("T2 exists");
    assert_eq!(m.number, 2);
    assert_eq!(m.title, "T2");

    // the first match wins when titles repeat
    let dup = format!(
        "[{}, {}]",
        MILESTONE_ONE,
        MILESTONE_ONE.replace("\"number\": 1", "\"number\": 9")
    );
    let listing = milestone_list_response(&ok_response(&dup));
    let m = c.get_milestone_with_title("T1", &listing).expect("T1 exists");
    assert_eq!(m.number, 1);

    // the match is exact and case-sensitive
    let r = c.get_milestone_with_title("t1", &listing);
    assert!(matches!(r, Err(ResponseError::NotFound)));
}

#[test]
fn test_close_milestone() {
    let c = Client::new("t");
    let listing = milestone_list_response(&ok_response(&format!("[{MILESTONE_ONE}]")));
    match c.close_milestone("o", "r", "T1", &listing) {
        Followup::Request(q) => {
            assert!(matches!(q.method, Method::Patch));
            assert_eq!(q.url, "https://api.github.com/repos/o/r/milestones/1");
            assert_eq!(q.body.as_deref(), Some("{\"state\":\"closed\"}"));
        }
        Followup::Fail(_) => panic!("an existing title must yield the follow-up request"),
    }
}

#[test]
fn test_close_non_existent_milestone() {
    let c = Client::new("t");
    let listing = milestone_list_response(&ok_response("[]"));
    // no match: the operation fails with NotFound and there is no second
    // request to issue
    match c.close_milestone("o", "r", "no-such-title", &listing) {
        Followup::Fail(ResponseError::NotFound) => {}
        _ => panic!("a missing title must short-circuit with NotFound"),
    }
}

#[test]
fn test_first_failure_propagates_unchanged() {
    let c = Client::new("t");
    let listing = milestone_list_response(&HttpOutcome::Response(500, String::from("oops")));
    match c.close_milestone("o", "r", "T1", &listing) {
        Followup::Fail(ResponseError::HTTPError(HttpCause::Status(500))) => {}
        _ => panic!("a failed listing must propagate as-is"),
    }
    match c.delete_milestone_with_title("o", "r", "T1", &listing) {
        Followup::Fail(ResponseError::HTTPError(HttpCause::Status(500))) => {}
        _ => panic!("a failed listing must propagate as-is"),
    }
}

#[test]
fn test_delete_milestone_with_title() {
    let c = Client::new("t");
    let listing = milestone_list_response(&ok_response(&format!("[{MILESTONE_ONE}]")));
    match c.delete_milestone_with_title("o", "r", "T1", &listing) {
        Followup::Request(q) => {
            assert!(matches!(q.method, Method::Delete));
            assert_eq!(q.url, "https://api.github.com/repos/o/r/milestones/1");
            assert!(q.body.is_none());
        }
        Followup::Fail(_) => panic!("an existing title must yield the follow-up request"),
    }
    let r = delete_response(&HttpOutcome::Response(204, String::new()));
    assert!(r.is_ok());
}

/// A scripted run of a milestone's life: created, listed, closed,
/// deleted, each step checked against the request the client builds and
/// fed the response such a server would give.
#[test]
fn test_milestone_lifecycle() {
    let c = Client::new("t");

    // an empty repository lists no milestones
    let listing = milestone_list_response(&ok_response("[]")).expect("empty list decodes");
    assert_eq!(listing.len(), 0);

    // create one titled T1, open
    let props = MilestoneProperties {
        title: String::from("T1"),
        state: Some(State::Open),
        description: None,
        due_on: None,
    };
    let req: HttpRequest = c.create_milestone("o", "r", &props);
    assert_eq!(req.body.as_deref(), Some("{\"title\":\"T1\",\"state\":\"open\"}"));
    let created = milestone_response(&ok_response(MILESTONE_ONE)).expect("created record decodes");
    assert_eq!(created.title, "T1");
    assert_eq!(created.state, State::Open);

    // the listing now carries it
    let listing = milestone_list_response(&ok_response(&format!("[{MILESTONE_ONE}]")));
    let ms = listing.as_ref().expect("list decodes");
    assert_eq!(ms.len(), 1);
    assert_eq!(ms[0].title, "T1");

    // close it by title: the follow-up patches the discovered number
    let followup = c.close_milestone("o", "r", "T1", &listing);
    let q = match followup {
        Followup::Request(q) => q,
        Followup::Fail(_) => panic!("T1 exists"),
    };
    assert_eq!(q.url, "https://api.github.com/repos/o/r/milestones/1");
    let closed_body = MILESTONE_ONE
        .replace("\"open\"", "\"closed\"")
        .replace("null", "\"2013-02-12T13:22:01Z\"");
    let closed = milestone_response(&ok_response(&closed_body)).expect("patched record decodes");
    assert_eq!(closed.state, State::Closed);

    // the open milestones are now none
    let open_listing = milestone_list_response(&ok_response("[]")).expect("list decodes");
    assert_eq!(open_listing.len(), 0);

    // delete it by title and list again: still none
    let listing = milestone_list_response(&ok_response(&format!("[{closed_body}]")));
    match c.delete_milestone_with_title("o", "r", "T1", &listing) {
        Followup::Request(q) => {
            assert_eq!(q.url, "https://api.github.com/repos/o/r/milestones/1")
        }
        Followup::Fail(_) => panic!("T1 exists"),
    }
    assert!(delete_response(&HttpOutcome::Response(204, String::new())).is_ok());
    let after = milestone_list_response(&ok_response("[]")).expect("list decodes");
    assert_eq!(after.len(), 0);
}
