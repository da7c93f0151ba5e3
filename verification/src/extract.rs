//! Reading the pull request out of the tree of optional fields.
//!
//! Every hop on the way to the pull request's identifier is mandatory: where
//! one is absent, the extraction fails and names it. The hops to the author
//! and to the user suggested for the review are optional: where one is absent,
//! so is the value, and nothing fails.

use crate::ident::{id_of_text, OpaqueId};
use crate::response::{
    Actor, ActorView, DataView, NodeView, PullRequestNode, ResponseData, SuggestedReviewer,
    SuggestionView,
};
use vstd::prelude::*;

verus! {

/// The mandatory hops, from the envelope down to the pull request's identifier.
#[derive(Debug, Clone, Copy, PartialEq, Eq, Structural)]
pub enum Hop {
    Data,
    Repository,
    PullRequests,
    Nodes,
    Node,
    Id,
}

/// The path from the envelope to a hop, that hop included.
pub open spec fn hop_path(hop: Hop) -> Seq<char> {
    match hop {
        Hop::Data => "data"@,
        Hop::Repository => "data.repository"@,
        Hop::PullRequests => "data.repository.pullRequests"@,
        Hop::Nodes => "data.repository.pullRequests.nodes"@,
        Hop::Node => "data.repository.pullRequests.nodes[0]"@,
        Hop::Id => "data.repository.pullRequests.nodes[0].id"@,
    }
}

impl Hop {
    /// The path from the envelope to this hop, as text.
    pub fn path(&self) -> (text: &'static str)
        ensures
            text@ == hop_path(*self),
    {
        match self {
            Hop::Data => "data",
            Hop::Repository => "data.repository",
            Hop::PullRequests => "data.repository.pullRequests",
            Hop::Nodes => "data.repository.pullRequests.nodes",
            Hop::Node => "data.repository.pullRequests.nodes[0]",
            Hop::Id => "data.repository.pullRequests.nodes[0].id",
        }
    }
}

/// Why no pull request could be read out of an answer.
#[derive(Debug, Clone, Copy, PartialEq, Eq, Structural)]
pub enum ExtractError {
    /// A mandatory hop was absent.
    RequiredFieldMissing(Hop),
    /// The list of pull requests held this many nodes, and not one.
    UnexpectedResultCardinality(usize),
}

/// The pull request that the orchestration works on.
#[derive(Debug, Clone, PartialEq, Eq)]
pub struct PullRequestSummary {
    pub id: OpaqueId,
    pub suggested_reviewer_id: Option<OpaqueId>,
    pub author_id: Option<OpaqueId>,
}

/// A `PullRequestSummary` as plain sequences of characters.
pub ghost struct SummaryView {
    pub id: Seq<char>,
    pub suggested_reviewer_id: Option<Seq<char>>,
    pub author_id: Option<Seq<char>>,
}

/// An optional identifier as a plain value.
pub open spec fn id_view(id: Option<OpaqueId>) -> Option<Seq<char>> {
    match id {
        Some(id) => Some(id@),
        None => None,
    }
}

impl View for PullRequestSummary {
    type V = SummaryView;

    open spec fn view(&self) -> SummaryView {
        SummaryView {
            id: self.id@,
            suggested_reviewer_id: id_view(self.suggested_reviewer_id),
            author_id: id_view(self.author_id),
        }
    }
}

/// The identifier in an optional field: absent where the field is absent or
/// holds the empty string.
pub open spec fn field_id(field: Option<Seq<char>>) -> Option<Seq<char>> {
    match field {
        Some(text) => id_of_text(text),
        None => None,
    }
}

/// The author's identifier: present only where the author is a user.
pub open spec fn author_id_of(node: NodeView) -> Option<Seq<char>> {
    match node.author {
        Some(ActorView::User { id }) => field_id(id),
        _ => None,
    }
}

/// The identifier in one suggestion.
pub open spec fn suggestion_id(suggestion: Option<SuggestionView>) -> Option<Seq<char>> {
    match suggestion {
        Some(SuggestionView { reviewer: Some(reviewer) }) => field_id(reviewer.id),
        _ => None,
    }
}

/// The identifier of the first user suggested for the review; an empty list
/// suggests nobody.
pub open spec fn suggested_reviewer_id_of(node: NodeView) -> Option<Seq<char>> {
    match node.suggested_reviewers {
        Some(list) => if list.len() > 0 {
            suggestion_id(list[0])
        } else {
            None
        },
        None => None,
    }
}

/// The one pull request of an answer, or the first reason why there is none.
pub open spec fn single_node_of(data: Option<DataView>) -> Result<NodeView, ExtractError> {
    match data {
        None => Err(ExtractError::RequiredFieldMissing(Hop::Data)),
        Some(data) => match data.repository {
            None => Err(ExtractError::RequiredFieldMissing(Hop::Repository)),
            Some(repository) => match repository.pull_requests {
                None => Err(ExtractError::RequiredFieldMissing(Hop::PullRequests)),
                Some(connection) => match connection.nodes {
                    None => Err(ExtractError::RequiredFieldMissing(Hop::Nodes)),
                    Some(nodes) => if nodes.len() != 1 {
                        Err(ExtractError::UnexpectedResultCardinality(nodes.len() as usize))
                    } else {
                        match nodes[0] {
                            None => Err(ExtractError::RequiredFieldMissing(Hop::Node)),
                            Some(node) => Ok(node),
                        }
                    },
                },
            },
        },
    }
}

/// What a pull request gives once it is found.
pub open spec fn node_summary(node: NodeView) -> Result<SummaryView, ExtractError> {
    match field_id(node.id) {
        None => Err(ExtractError::RequiredFieldMissing(Hop::Id)),
        Some(id) => Ok(
            SummaryView {
                id,
                suggested_reviewer_id: suggested_reviewer_id_of(node),
                author_id: author_id_of(node),
            },
        ),
    }
}

/// What an answer gives: the summary of its one pull request, or the first
/// reason why there is none.
pub open spec fn summary_of(data: Option<DataView>) -> Result<SummaryView, ExtractError> {
    match single_node_of(data) {
        Err(e) => Err(e),
        Ok(node) => node_summary(node),
    }
}

/// Takes a hop that must be there: what the field holds, or the error that
/// names `hop`.
pub fn require<T>(field: &Option<T>, hop: Hop) -> (res: Result<&T, ExtractError>)
    ensures
        match *field {
            Some(value) => res == Ok::<&T, ExtractError>(&value),
            None => res == Err::<&T, ExtractError>(ExtractError::RequiredFieldMissing(hop)),
        },
{
    match field {
        Some(value) => Ok(value),
        None => Err(ExtractError::RequiredFieldMissing(hop)),
    }
}

/// Reads the identifier in an optional field.
pub fn read_id(field: &Option<String>) -> (id: Option<OpaqueId>)
    ensures
        id_view(id) == field_id(field.deep_view()),
{
    match field {
        Some(text) => OpaqueId::new(text.as_str()),
        None => None,
    }
}

/// Finds the one pull request of an answer.
pub fn single_node(data: &Option<ResponseData>) -> (res: Result<&PullRequestNode, ExtractError>)
    ensures
        match res {
            Ok(node) => single_node_of(data.deep_view()) == Ok::<NodeView, ExtractError>(
                node.deep_view(),
            ),
            Err(e) => single_node_of(data.deep_view()) == Err::<NodeView, ExtractError>(e),
        },
{
    let data = require(data, Hop::Data)?;
    let repository = require(&data.repository, Hop::Repository)?;
    let connection = require(&repository.pull_requests, Hop::PullRequests)?;
    let nodes = require(&connection.nodes, Hop::Nodes)?;
    if nodes.len() != 1 {
        return Err(ExtractError::UnexpectedResultCardinality(nodes.len()));
    }
    require(&nodes[0], Hop::Node)
}

/// Reads the author's identifier; an author that is no user has none.
pub fn author_id(node: &PullRequestNode) -> (id: Option<OpaqueId>)
    ensures
        id_view(id) == author_id_of(node.deep_view()),
{
    match &node.author {
        Some(Actor::User { id }) => read_id(id),
        _ => None,
    }
}

/// Reads the identifier of the first user suggested for the review.
pub fn suggested_reviewer_id(node: &PullRequestNode) -> (id: Option<OpaqueId>)
    ensures
        id_view(id) == suggested_reviewer_id_of(node.deep_view()),
{
    match &node.suggested_reviewers {
        Some(list) => {
            if list.len() > 0 {
                match &list[0] {
                    Some(SuggestedReviewer { reviewer: Some(reviewer) }) => read_id(&reviewer.id),
                    _ => None,
                }
            } else {
                None
            }
        },
        None => None,
    }
}

/// Reads the summary of the one pull request under `data`.
pub fn extract_summary(data: &Option<ResponseData>) -> (res: Result<
    PullRequestSummary,
    ExtractError,
>)
    ensures
        match res {
            Ok(summary) => summary_of(data.deep_view()) == Ok::<SummaryView, ExtractError>(
                summary@,
            ),
            Err(e) => summary_of(data.deep_view()) == Err::<SummaryView, ExtractError>(e),
        },
{
    let node = single_node(data)?;
    match read_id(&node.id) {
        None => Err(ExtractError::RequiredFieldMissing(Hop::Id)),
        Some(id) => Ok(
            PullRequestSummary {
                id,
                suggested_reviewer_id: suggested_reviewer_id(node),
                author_id: author_id(node),
            },
        ),
    }
}

/// Whether every hop on the way to the pull request's identifier is there,
/// and the list of pull requests holds one node.
pub open spec fn mandatory_fields_present(data: Option<DataView>) -> bool {
    &&& data is Some
    &&& data->Some_0.repository is Some
    &&& data->Some_0.repository->Some_0.pull_requests is Some
    &&& data->Some_0.repository->Some_0.pull_requests->Some_0.nodes is Some
    &&& data->Some_0.repository->Some_0.pull_requests->Some_0.nodes->Some_0.len() == 1
    &&& data->Some_0.repository->Some_0.pull_requests->Some_0.nodes->Some_0[0] is Some
    &&& field_id(
        data->Some_0.repository->Some_0.pull_requests->Some_0.nodes->Some_0[0]->Some_0.id,
    ) is Some
}

/// The extraction succeeds exactly where every mandatory field is present;
/// the summary then holds the identifier of the one node, and what that node
/// gives for the author and the suggestion.
pub proof fn lemma_summary_needs_mandatory_fields(data: Option<DataView>)
    ensures
        summary_of(data) is Ok <==> mandatory_fields_present(data),
        summary_of(data) is Ok ==> {
            let node = single_node_of(data)->Ok_0;
            &&& single_node_of(data) is Ok
            &&& Some(summary_of(data)->Ok_0.id) == field_id(node.id)
            &&& summary_of(data)->Ok_0.author_id == author_id_of(node)
            &&& summary_of(data)->Ok_0.suggested_reviewer_id == suggested_reviewer_id_of(node)
        },
{
}

/// A list of pull requests that does not hold exactly one node fails the
/// extraction, whatever the nodes are: none of them is picked.
pub proof fn lemma_cardinality_is_checked(data: DataView)
    requires
        data.repository is Some,
        data.repository->Some_0.pull_requests is Some,
        data.repository->Some_0.pull_requests->Some_0.nodes is Some,
        data.repository->Some_0.pull_requests->Some_0.nodes->Some_0.len() != 1,
    ensures
        summary_of(Some(data)) == Err::<SummaryView, ExtractError>(
            ExtractError::UnexpectedResultCardinality(
                data.repository->Some_0.pull_requests->Some_0.nodes->Some_0.len() as usize,
            ),
        ),
{
}

/// An author that is no user gives no identifier and fails nothing: the
/// extraction succeeds or fails as the pull request's own identifier decides.
pub proof fn lemma_author_that_is_no_user_is_skipped(node: NodeView)
    requires
        node.author is Some,
        !(node.author->Some_0 is User),
    ensures
        author_id_of(node) is None,
        node_summary(node) is Ok <==> field_id(node.id) is Some,
        node_summary(node) is Ok ==> node_summary(node)->Ok_0.author_id is None,
{
}

/// An empty list of suggestions suggests nobody, and fails nothing.
pub proof fn lemma_no_suggestion_is_no_error(node: NodeView)
    requires
        node.suggested_reviewers is Some,
        node.suggested_reviewers->Some_0.len() == 0,
    ensures
        suggested_reviewer_id_of(node) is None,
        node_summary(node) is Ok <==> field_id(node.id) is Some,
{
}

} // verus!
