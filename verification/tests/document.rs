use pr_workflow::document::{
    build, AssignAuthorInput, OperationKind, QueryTexts, RequestReviewsInput, Variables,
};
use pr_workflow::extract::PullRequestSummary;
use pr_workflow::ident::OpaqueId;
use pr_workflow::repo::RepositoryRef;

fn id(text: &str) -> OpaqueId {
    OpaqueId::new(text).unwrap()
}

fn queries() -> QueryTexts {
    QueryTexts {
        last_pull_request: "query LastPullRequest { repository { id } }".to_string(),
        assign_author: "mutation AssignAuthor { addAssigneesToAssignable { clientMutationId } }".to_string(),
        request_reviews: "mutation RequestReviews { requestReviews { clientMutationId } }".to_string(),
    }
}

#[test]
fn operation_names_are_those_of_the_kinds() {
    assert_eq!(OperationKind::LastPullRequest.name(), "LastPullRequest");
    assert_eq!(OperationKind::AssignAuthor.name(), "AssignAuthor");
    assert_eq!(OperationKind::RequestReviews.name(), "RequestReviews");
}

#[test]
fn query_texts_hold_one_text_for_each_kind() {
    let queries = queries();
    assert_eq!(queries.text(OperationKind::LastPullRequest), "query LastPullRequest { repository { id } }");
    assert_eq!(
        queries.text(OperationKind::AssignAuthor),
        "mutation AssignAuthor { addAssigneesToAssignable { clientMutationId } }"
    );
    assert_eq!(
        queries.text(OperationKind::RequestReviews),
        "mutation RequestReviews { requestReviews { clientMutationId } }"
    );
}

#[test]
fn build_last_pull_request_document() {
    let repository = RepositoryRef::parse("graphql-rust/graphql-client").unwrap();
    let document = build(&queries(), Variables::LastPullRequest(repository.clone()));
    assert_eq!(document.operation_name(), "LastPullRequest");
    assert_eq!(document.query_text(), "query LastPullRequest { repository { id } }");
    assert_eq!(document.variables(), &Variables::LastPullRequest(repository));
    assert_eq!(document.variables().kind(), OperationKind::LastPullRequest);
}

#[test]
fn build_assign_author_document() {
    let input = AssignAuthorInput {
        assignable_id: id("PR_1"),
        assignee_ids: vec![id("U_1"), id("U_2")],
        client_mutation_id: Some("m-1".to_string()),
    };
    let document = build(&queries(), Variables::AssignAuthor(input.clone()));
    assert_eq!(document.operation_name(), "AssignAuthor");
    assert_eq!(
        document.query_text(),
        "mutation AssignAuthor { addAssigneesToAssignable { clientMutationId } }"
    );
    assert_eq!(document.variables(), &Variables::AssignAuthor(input));
}

#[test]
fn build_request_reviews_document() {
    let input = RequestReviewsInput {
        pull_request_id: id("PR_1"),
        user_ids: Some(vec![id("1")]),
        team_ids: Some(vec![]),
        union: None,
        client_mutation_id: None,
    };
    let document = build(&queries(), Variables::RequestReviews(input.clone()));
    assert_eq!(document.operation_name(), "RequestReviews");
    assert_eq!(
        document.query_text(),
        "mutation RequestReviews { requestReviews { clientMutationId } }"
    );
    assert_eq!(document.variables(), &Variables::RequestReviews(input));
    assert_eq!(document.variables().kind(), OperationKind::RequestReviews);
}

#[test]
fn assign_author_input_names_the_author_alone() {
    let summary = PullRequestSummary {
        id: id("PR_1"),
        suggested_reviewer_id: Some(id("U_2")),
        author_id: Some(id("U_1")),
    };
    assert_eq!(
        AssignAuthorInput::for_author(&summary),
        Some(AssignAuthorInput {
            assignable_id: id("PR_1"),
            assignee_ids: vec![id("U_1")],
            client_mutation_id: None,
        })
    );
}

#[test]
fn assign_author_input_needs_an_author() {
    let summary = PullRequestSummary {
        id: id("PR_1"),
        suggested_reviewer_id: Some(id("U_2")),
        author_id: None,
    };
    assert_eq!(AssignAuthorInput::for_author(&summary), None);
}
