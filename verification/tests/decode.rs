use pr_workflow::decode::{
    decode_assignment, decode_assignment_envelope, decode_pull_request,
    decode_pull_request_envelope, DecodeError,
};
use pr_workflow::response::{
    Actor, AssignAuthorData, AssignAuthorPayload, GraphQLEnvelope, GraphQLError, PathSegment,
    PullRequestConnection, PullRequestNode, Repository, ResponseData, Reviewer, SuggestedReviewer,
};

fn envelope_with_nodes(nodes: &str) -> Vec<u8> {
    format!("{{\"data\":{{\"repository\":{{\"pullRequests\":{{\"nodes\":{}}}}}}}}}", nodes).into_bytes()
}

fn nodes_of(envelope: GraphQLEnvelope<ResponseData>) -> Vec<Option<PullRequestNode>> {
    envelope.data.unwrap().repository.unwrap().pull_requests.unwrap().nodes.unwrap()
}

fn first_node(text: &str) -> PullRequestNode {
    let bytes = envelope_with_nodes(&format!("[{}]", text));
    nodes_of(decode_pull_request(&bytes).unwrap()).remove(0).unwrap()
}

fn malformed_node(text: &str) -> bool {
    let bytes = envelope_with_nodes(&format!("[{}]", text));
    decode_pull_request(&bytes) == Err(DecodeError::MalformedPayload)
}

#[test]
fn decode_full_answer() {
    let body = br#"{
        "data": {
            "repository": {
                "pullRequests": {
                    "nodes": [
                        {
                            "id": "PR_1",
                            "suggestedReviewers": [
                                { "isAuthor": false, "user": { "id": "U_2" } },
                                null
                            ],
                            "author": { "__typename": "User", "id": "U_1", "login": "octocat" }
                        }
                    ]
                }
            }
        }
    }"#;
    let expected = GraphQLEnvelope {
        data: Some(ResponseData {
            repository: Some(Repository {
                pull_requests: Some(PullRequestConnection {
                    nodes: Some(vec![Some(PullRequestNode {
                        id: Some("PR_1".to_string()),
                        suggested_reviewers: Some(vec![
                            Some(SuggestedReviewer {
                                reviewer: Some(Reviewer { id: Some("U_2".to_string()) }),
                            }),
                            None,
                        ]),
                        author: Some(Actor::User { id: Some("U_1".to_string()) }),
                    })]),
                }),
            }),
        }),
        errors: None,
    };
    assert_eq!(decode_pull_request(body), Ok(expected));
}

#[test]
fn decode_rejects_what_is_no_json() {
    assert_eq!(decode_pull_request(b""), Err(DecodeError::MalformedPayload));
    assert_eq!(decode_pull_request(b"<html>"), Err(DecodeError::MalformedPayload));
    assert_eq!(decode_pull_request(b"{\"data\": {}"), Err(DecodeError::MalformedPayload));
    assert_eq!(decode_pull_request(b"{\"data\": {}} trailing"), Err(DecodeError::MalformedPayload));
    assert_eq!(decode_assignment(b"\xff\xfe"), Err(DecodeError::MalformedPayload));
}

#[test]
fn decode_rejects_what_is_no_object() {
    for text in ["null", "5", "\"text\"", "[]", "true"] {
        assert_eq!(decode_pull_request(text.as_bytes()), Err(DecodeError::MalformedPayload));
        assert_eq!(decode_assignment(text.as_bytes()), Err(DecodeError::MalformedPayload));
    }
}

#[test]
fn decode_keeps_absent_fields_absent() {
    let empty = GraphQLEnvelope { data: None, errors: None };
    assert_eq!(decode_pull_request(b"{}"), Ok(empty.clone()));
    assert_eq!(decode_pull_request(b"{\"data\": null, \"errors\": null}"), Ok(empty.clone()));
    assert_eq!(decode_pull_request(b"{\"extensions\": {\"cost\": 1}}"), Ok(empty));
    let no_repository = GraphQLEnvelope { data: Some(ResponseData { repository: None }), errors: None };
    assert_eq!(decode_pull_request(b"{\"data\": {}}"), Ok(no_repository.clone()));
    assert_eq!(decode_pull_request(b"{\"data\": {\"repository\": null}}"), Ok(no_repository));
    assert_eq!(
        decode_pull_request(b"{\"data\": {\"repository\": {}}}"),
        Ok(GraphQLEnvelope {
            data: Some(ResponseData { repository: Some(Repository { pull_requests: None }) }),
            errors: None,
        })
    );
    assert_eq!(
        decode_pull_request(b"{\"data\": {\"repository\": {\"pullRequests\": {\"nodes\": null}}}}"),
        Ok(GraphQLEnvelope {
            data: Some(ResponseData {
                repository: Some(Repository {
                    pull_requests: Some(PullRequestConnection { nodes: None }),
                }),
            }),
            errors: None,
        })
    );
}

#[test]
fn decode_rejects_fields_of_another_kind() {
    for text in [
        "{\"data\": 5}",
        "{\"data\": []}",
        "{\"data\": {\"repository\": \"x\"}}",
        "{\"data\": {\"repository\": {\"pullRequests\": []}}}",
        "{\"data\": {\"repository\": {\"pullRequests\": {\"nodes\": {}}}}}",
        "{\"data\": {\"repository\": {\"pullRequests\": {\"nodes\": [5]}}}}",
        "{\"errors\": {}}",
        "{\"errors\": [null]}",
        "{\"errors\": [{}]}",
        "{\"errors\": [{\"message\": 5}]}",
        "{\"errors\": [{\"message\": null}]}",
        "{\"errors\": [{\"message\": \"m\", \"path\": \"repository\"}]}",
        "{\"errors\": [{\"message\": \"m\", \"path\": [1.5]}]}",
        "{\"errors\": [{\"message\": \"m\", \"path\": [true]}]}",
        "{\"errors\": [{\"message\": \"m\", \"path\": [18446744073709551615]}]}",
        "{\"errors\": [{\"message\": \"m\", \"extensions\": []}]}",
    ] {
        assert_eq!(decode_pull_request(text.as_bytes()), Err(DecodeError::MalformedPayload), "{}", text);
    }
}

#[test]
fn decode_list_lengths() {
    assert_eq!(nodes_of(decode_pull_request(&envelope_with_nodes("[]")).unwrap()), vec![]);
    let two = nodes_of(decode_pull_request(&envelope_with_nodes("[{\"id\":\"a\"}, {\"id\":\"b\"}]")).unwrap());
    assert_eq!(two.len(), 2);
    assert_eq!(two[0].as_ref().unwrap().id, Some("a".to_string()));
    assert_eq!(two[1].as_ref().unwrap().id, Some("b".to_string()));
    assert_eq!(nodes_of(decode_pull_request(&envelope_with_nodes("[null]")).unwrap()), vec![None]);
}

#[test]
fn decode_node_fields() {
    assert_eq!(first_node("{}"), PullRequestNode { id: None, suggested_reviewers: None, author: None });
    assert_eq!(
        first_node("{\"id\": null, \"suggestedReviewers\": null, \"author\": null}"),
        PullRequestNode { id: None, suggested_reviewers: None, author: None }
    );
    assert_eq!(
        first_node("{\"id\": \"\", \"suggestedReviewers\": []}"),
        PullRequestNode { id: Some(String::new()), suggested_reviewers: Some(vec![]), author: None }
    );
    assert_eq!(
        first_node("{\"suggestedReviewers\": [{}, {\"user\": null}, {\"user\": {}}]}").suggested_reviewers,
        Some(vec![
            Some(SuggestedReviewer { reviewer: None }),
            Some(SuggestedReviewer { reviewer: None }),
            Some(SuggestedReviewer { reviewer: Some(Reviewer { id: None }) }),
        ])
    );
    assert!(malformed_node("{\"id\": 5}"));
    assert!(malformed_node("{\"suggestedReviewers\": {}}"));
    assert!(malformed_node("{\"suggestedReviewers\": [5]}"));
    assert!(malformed_node("{\"suggestedReviewers\": [{\"user\": 5}]}"));
    assert!(malformed_node("{\"suggestedReviewers\": [{\"user\": {\"id\": 5}}]}"));
    assert!(malformed_node("{\"author\": 5}"));
}

#[test]
fn decode_author_kinds() {
    let author = |text: &str| first_node(&format!("{{\"author\": {}}}", text)).author;
    assert_eq!(author("{\"__typename\": \"User\", \"id\": \"U_1\"}"), Some(Actor::User { id: Some("U_1".to_string()) }));
    assert_eq!(author("{\"__typename\": \"User\"}"), Some(Actor::User { id: None }));
    assert_eq!(author("{\"__typename\": \"Bot\", \"id\": \"B_1\"}"), Some(Actor::Bot));
    assert_eq!(author("{\"__typename\": \"Organization\"}"), Some(Actor::Organization));
    assert_eq!(author("{\"__typename\": \"Mannequin\"}"), Some(Actor::Mannequin));
    assert_eq!(author("{\"__typename\": \"EnterpriseUserAccount\"}"), Some(Actor::EnterpriseUserAccount));
    assert_eq!(author("{\"__typename\": \"Robot\"}"), Some(Actor::Other));
    assert_eq!(author("{\"__typename\": \"user\"}"), Some(Actor::Other));
    assert!(malformed_node("{\"author\": {}}"));
    assert!(malformed_node("{\"author\": {\"id\": \"U_1\"}}"));
    assert!(malformed_node("{\"author\": {\"__typename\": null}}"));
    assert!(malformed_node("{\"author\": {\"__typename\": \"User\", \"id\": 5}}"));
    assert!(malformed_node("{\"author\": [\"User\"]}"));
}

#[test]
fn decode_errors_with_path_and_extensions() {
    let body = br#"{"errors": [
        {"message": "first"},
        {"message": "second", "path": ["repository", "pullRequests", "nodes", 0, -1], "locations": [{"line": 3, "column": 5}]},
        {"message": "third", "path": [], "extensions": {"type": "NOT_FOUND", "code": 404, "ok": [true, null, 1.5]}}
    ]}"#;
    let envelope = decode_pull_request(body).unwrap();
    assert_eq!(envelope.data, None);
    assert_eq!(
        envelope.errors,
        Some(vec![
            GraphQLError { message: "first".to_string(), path: None, extensions: None },
            GraphQLError {
                message: "second".to_string(),
                path: Some(vec![
                    PathSegment::Key("repository".to_string()),
                    PathSegment::Key("pullRequests".to_string()),
                    PathSegment::Key("nodes".to_string()),
                    PathSegment::Index(0),
                    PathSegment::Index(-1),
                ]),
                extensions: None,
            },
            GraphQLError {
                message: "third".to_string(),
                path: Some(vec![]),
                extensions: Some("{\"code\":404,\"ok\":[true,null,1.5],\"type\":\"NOT_FOUND\"}".to_string()),
            },
        ])
    );
    assert_eq!(
        decode_pull_request(b"{\"errors\": []}"),
        Ok(GraphQLEnvelope { data: None, errors: Some(vec![]) })
    );
}

#[test]
fn decode_assignment_answer() {
    assert_eq!(
        decode_assignment(b"{\"data\": {\"addAssigneesToAssignable\": {\"clientMutationId\": \"m-1\"}}}"),
        Ok(GraphQLEnvelope {
            data: Some(AssignAuthorData {
                add_assignees_to_assignable: Some(AssignAuthorPayload {
                    client_mutation_id: Some("m-1".to_string()),
                }),
            }),
            errors: None,
        })
    );
    assert_eq!(
        decode_assignment(b"{\"data\": {\"addAssigneesToAssignable\": null}, \"errors\": [{\"message\": \"m\"}]}"),
        Ok(GraphQLEnvelope {
            data: Some(AssignAuthorData { add_assignees_to_assignable: None }),
            errors: Some(vec![GraphQLError { message: "m".to_string(), path: None, extensions: None }]),
        })
    );
    assert_eq!(decode_assignment(b"{\"data\": 1}"), Err(DecodeError::MalformedPayload));
    assert_eq!(
        decode_assignment(b"{\"data\": {\"addAssigneesToAssignable\": []}}"),
        Err(DecodeError::MalformedPayload)
    );
    assert_eq!(
        decode_assignment(b"{\"data\": {\"addAssigneesToAssignable\": {\"clientMutationId\": 7}}}"),
        Err(DecodeError::MalformedPayload)
    );
}

#[test]
fn decode_from_a_tree() {
    let value: serde_json::Value =
        serde_json::from_str("{\"data\": {\"repository\": null}, \"errors\": []}").unwrap();
    assert_eq!(
        decode_pull_request_envelope(&value),
        Ok(GraphQLEnvelope { data: Some(ResponseData { repository: None }), errors: Some(vec![]) })
    );
    let value: serde_json::Value = serde_json::from_str("[1, 2]").unwrap();
    assert_eq!(decode_pull_request_envelope(&value), Err(DecodeError::MalformedPayload));
    assert_eq!(decode_assignment_envelope(&value), Err(DecodeError::MalformedPayload));
    let value: serde_json::Value = serde_json::from_str("{\"data\": {}}").unwrap();
    assert_eq!(
        decode_assignment_envelope(&value),
        Ok(GraphQLEnvelope { data: Some(AssignAuthorData { add_assignees_to_assignable: None }), errors: None })
    );
}

#[test]
fn decode_takes_the_last_of_repeated_members() {
    let node = first_node("{\"id\": \"first\", \"id\": \"second\"}");
    assert_eq!(node.id, Some("second".to_string()));
}
