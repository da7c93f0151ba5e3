use pr_workflow::extract::{
    author_id, extract_summary, read_id, require, single_node, suggested_reviewer_id, ExtractError,
    Hop,
};
use pr_workflow::ident::OpaqueId;
use pr_workflow::response::{
    Actor, PullRequestConnection, PullRequestNode, Repository, ResponseData, Reviewer,
    SuggestedReviewer,
};

fn suggestion(id: &str) -> Option<SuggestedReviewer> {
    Some(SuggestedReviewer { reviewer: Some(Reviewer { id: Some(id.to_string()) }) })
}

fn user(id: &str) -> Option<Actor> {
    Some(Actor::User { id: Some(id.to_string()) })
}

fn node(id: &str, suggestions: Vec<Option<SuggestedReviewer>>, author: Option<Actor>) -> PullRequestNode {
    PullRequestNode { id: Some(id.to_string()), suggested_reviewers: Some(suggestions), author }
}

fn data_with_nodes(nodes: Option<Vec<Option<PullRequestNode>>>) -> Option<ResponseData> {
    Some(ResponseData {
        repository: Some(Repository { pull_requests: Some(PullRequestConnection { nodes }) }),
    })
}

fn id(text: &str) -> OpaqueId {
    OpaqueId::new(text).unwrap()
}

#[test]
fn opaque_id_is_the_text_unless_empty() {
    assert_eq!(OpaqueId::new("MDExOlB1bGxSZXF1ZXN0MQ==").unwrap().as_str(), "MDExOlB1bGxSZXF1ZXN0MQ==");
    assert_eq!(OpaqueId::new(" ").unwrap().as_str(), " ");
    assert!(OpaqueId::new("").is_none());
    let first = id("PR_1");
    assert_eq!(first.clone(), first);
    assert_eq!(first.clone().as_str(), "PR_1");
    assert_ne!(first, id("PR_2"));
}

#[test]
fn require_promotes_absence_to_the_named_error() {
    let present: Option<u32> = Some(7);
    let absent: Option<u32> = None;
    assert_eq!(require(&present, Hop::Nodes), Ok(&7));
    assert_eq!(require(&absent, Hop::Nodes), Err(ExtractError::RequiredFieldMissing(Hop::Nodes)));
    assert_eq!(require(&absent, Hop::Id), Err(ExtractError::RequiredFieldMissing(Hop::Id)));
}

#[test]
fn hop_paths_name_every_segment() {
    assert_eq!(Hop::Data.path(), "data");
    assert_eq!(Hop::Repository.path(), "data.repository");
    assert_eq!(Hop::PullRequests.path(), "data.repository.pullRequests");
    assert_eq!(Hop::Nodes.path(), "data.repository.pullRequests.nodes");
    assert_eq!(Hop::Node.path(), "data.repository.pullRequests.nodes[0]");
    assert_eq!(Hop::Id.path(), "data.repository.pullRequests.nodes[0].id");
}

#[test]
fn read_id_treats_empty_text_as_absent() {
    assert_eq!(read_id(&Some("U_1".to_string())), Some(id("U_1")));
    assert_eq!(read_id(&Some(String::new())), None);
    assert_eq!(read_id(&None), None);
}

#[test]
fn summary_is_populated_when_all_fields_are_present() {
    let data = data_with_nodes(Some(vec![Some(node("PR_1", vec![suggestion("U_2")], user("U_1")))]));
    let summary = extract_summary(&data).unwrap();
    assert_eq!(summary.id.as_str(), "PR_1");
    assert_eq!(summary.suggested_reviewer_id, Some(id("U_2")));
    assert_eq!(summary.author_id, Some(id("U_1")));
}

#[test]
fn zero_nodes_is_a_cardinality_error() {
    let data = data_with_nodes(Some(vec![]));
    assert_eq!(extract_summary(&data), Err(ExtractError::UnexpectedResultCardinality(0)));
    assert_eq!(single_node(&data), Err(ExtractError::UnexpectedResultCardinality(0)));
}

#[test]
fn two_nodes_is_a_cardinality_error() {
    let data = data_with_nodes(Some(vec![
        Some(node("PR_1", vec![], user("U_1"))),
        Some(node("PR_2", vec![], user("U_2"))),
    ]));
    assert_eq!(extract_summary(&data), Err(ExtractError::UnexpectedResultCardinality(2)));
}

#[test]
fn two_absent_nodes_is_a_cardinality_error() {
    let data = data_with_nodes(Some(vec![None, None]));
    assert_eq!(extract_summary(&data), Err(ExtractError::UnexpectedResultCardinality(2)));
}

#[test]
fn author_that_is_no_user_is_absent() {
    for author in [Actor::Bot, Actor::Organization, Actor::Mannequin, Actor::EnterpriseUserAccount, Actor::Other] {
        let pull_request = node("PR_1", vec![suggestion("U_2")], Some(author));
        assert_eq!(author_id(&pull_request), None);
        let data = data_with_nodes(Some(vec![Some(pull_request)]));
        let summary = extract_summary(&data).unwrap();
        assert_eq!(summary.id, id("PR_1"));
        assert_eq!(summary.author_id, None);
        assert_eq!(summary.suggested_reviewer_id, Some(id("U_2")));
    }
}

#[test]
fn absent_author_is_absent() {
    let data = data_with_nodes(Some(vec![Some(node("PR_1", vec![], None))]));
    let summary = extract_summary(&data).unwrap();
    assert_eq!(summary.author_id, None);
    assert_eq!(summary.suggested_reviewer_id, None);
}

#[test]
fn user_without_id_is_absent() {
    let pull_request = node("PR_1", vec![], Some(Actor::User { id: None }));
    assert_eq!(author_id(&pull_request), None);
    let pull_request = node("PR_1", vec![], Some(Actor::User { id: Some(String::new()) }));
    assert_eq!(author_id(&pull_request), None);
}

#[test]
fn first_suggestion_is_taken() {
    let pull_request = node("PR_1", vec![suggestion("U_7"), suggestion("U_8")], None);
    assert_eq!(suggested_reviewer_id(&pull_request), Some(id("U_7")));
}

#[test]
fn empty_suggestions_suggest_nobody() {
    let pull_request = node("PR_1", vec![], None);
    assert_eq!(suggested_reviewer_id(&pull_request), None);
    let pull_request = PullRequestNode { id: Some("PR_1".to_string()), suggested_reviewers: None, author: None };
    assert_eq!(suggested_reviewer_id(&pull_request), None);
}

#[test]
fn absent_first_suggestion_suggests_nobody() {
    let pull_request = node("PR_1", vec![None, suggestion("U_8")], None);
    assert_eq!(suggested_reviewer_id(&pull_request), None);
    let pull_request = node("PR_1", vec![Some(SuggestedReviewer { reviewer: None })], None);
    assert_eq!(suggested_reviewer_id(&pull_request), None);
    let pull_request =
        node("PR_1", vec![Some(SuggestedReviewer { reviewer: Some(Reviewer { id: None }) })], None);
    assert_eq!(suggested_reviewer_id(&pull_request), None);
    let data = data_with_nodes(Some(vec![Some(pull_request)]));
    assert_eq!(extract_summary(&data).unwrap().id, id("PR_1"));
}

#[test]
fn each_absent_mandatory_hop_is_named() {
    assert_eq!(extract_summary(&None), Err(ExtractError::RequiredFieldMissing(Hop::Data)));
    assert_eq!(
        extract_summary(&Some(ResponseData { repository: None })),
        Err(ExtractError::RequiredFieldMissing(Hop::Repository))
    );
    assert_eq!(
        extract_summary(&Some(ResponseData { repository: Some(Repository { pull_requests: None }) })),
        Err(ExtractError::RequiredFieldMissing(Hop::PullRequests))
    );
    assert_eq!(
        extract_summary(&data_with_nodes(None)),
        Err(ExtractError::RequiredFieldMissing(Hop::Nodes))
    );
    assert_eq!(
        extract_summary(&data_with_nodes(Some(vec![None]))),
        Err(ExtractError::RequiredFieldMissing(Hop::Node))
    );
    let without_id = PullRequestNode { id: None, suggested_reviewers: Some(vec![]), author: user("U_1") };
    assert_eq!(
        extract_summary(&data_with_nodes(Some(vec![Some(without_id)]))),
        Err(ExtractError::RequiredFieldMissing(Hop::Id))
    );
    let empty_id = node("", vec![], user("U_1"));
    assert_eq!(
        extract_summary(&data_with_nodes(Some(vec![Some(empty_id)]))),
        Err(ExtractError::RequiredFieldMissing(Hop::Id))
    );
}

#[test]
fn single_node_hands_out_the_node_itself() {
    let pull_request = node("PR_9", vec![suggestion("U_2")], user("U_1"));
    let data = data_with_nodes(Some(vec![Some(pull_request.clone())]));
    assert_eq!(single_node(&data), Ok(&pull_request));
}
