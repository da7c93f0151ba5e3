//! The shape of what the server answers: the envelope, the errors it may
//! carry, and the tree of optional fields under `data`.

use vstd::prelude::*;

verus! {

/// One step of the path that the server gives for an error.
#[derive(Debug, Clone, PartialEq, Eq)]
pub enum PathSegment {
    /// The name of a field.
    Key(String),
    /// A position in a list.
    Index(i64),
}

/// `PathSegment` as plain values.
pub ghost enum SegmentView {
    Key(Seq<char>),
    Index(i64),
}

impl DeepView for PathSegment {
    type V = SegmentView;

    open spec fn deep_view(&self) -> SegmentView {
        match *self {
            PathSegment::Key(key) => SegmentView::Key(key@),
            PathSegment::Index(index) => SegmentView::Index(index),
        }
    }
}

/// An error that the server reports beside, or in place of, the data. The
/// mapping under `extensions` is kept as the JSON text of the object.
#[derive(Debug, Clone, PartialEq, Eq)]
pub struct GraphQLError {
    pub message: String,
    pub path: Option<Vec<PathSegment>>,
    pub extensions: Option<String>,
}

/// `GraphQLError` as plain values.
pub ghost struct GraphQLErrorView {
    pub message: Seq<char>,
    pub path: Option<Seq<SegmentView>>,
    pub extensions: Option<Seq<char>>,
}

impl DeepView for GraphQLError {
    type V = GraphQLErrorView;

    open spec fn deep_view(&self) -> GraphQLErrorView {
        GraphQLErrorView {
            message: self.message@,
            path: self.path.deep_view(),
            extensions: self.extensions.deep_view(),
        }
    }
}

/// The wrapper of every answer. Both fields may be present: the server then
/// succeeded in part.
#[derive(Debug, Clone, PartialEq, Eq)]
pub struct GraphQLEnvelope<T> {
    pub data: Option<T>,
    pub errors: Option<Vec<GraphQLError>>,
}

/// `GraphQLEnvelope` as plain values.
pub ghost struct EnvelopeView<D> {
    pub data: Option<D>,
    pub errors: Option<Seq<GraphQLErrorView>>,
}

impl<D> EnvelopeView<D> {
    /// An envelope is well formed where it carries data, errors, or both.
    pub open spec fn well_formed(self) -> bool {
        self.data is Some || self.errors is Some
    }

    /// The errors that the envelope carries, in their order; none where the
    /// field is absent.
    pub open spec fn reported(self) -> Seq<GraphQLErrorView> {
        match self.errors {
            Some(errors) => errors,
            None => Seq::empty(),
        }
    }
}

impl<T: DeepView> DeepView for GraphQLEnvelope<T> {
    type V = EnvelopeView<T::V>;

    open spec fn deep_view(&self) -> EnvelopeView<T::V> {
        EnvelopeView { data: self.data.deep_view(), errors: self.errors.deep_view() }
    }
}

impl<T> GraphQLEnvelope<T> {
    /// An envelope is well formed where it carries data, errors, or both.
    pub open spec fn well_formed(&self) -> bool {
        self.data is Some || self.errors is Some
    }

    /// Number of errors that the envelope carries.
    pub open spec fn error_count(&self) -> nat {
        match self.errors {
            Some(errors) => errors@.len(),
            None => 0,
        }
    }

    /// Whether the envelope carries data, errors, or both.
    pub fn is_well_formed(&self) -> (b: bool)
        ensures
            b == self.well_formed(),
    {
        self.data.is_some() || self.errors.is_some()
    }

    /// Whether the server reported at least one error.
    pub fn has_errors(&self) -> (b: bool)
        ensures
            b == (self.error_count() > 0),
    {
        match &self.errors {
            Some(errors) => errors.len() > 0,
            None => false,
        }
    }
}

/// The kinds of actor that may have opened a pull request. Only a user
/// carries an identifier that this library reads.
#[derive(Debug, Clone, PartialEq, Eq)]
pub enum Actor {
    User { id: Option<String> },
    Bot,
    Organization,
    Mannequin,
    EnterpriseUserAccount,
    /// A kind that this library does not know.
    Other,
}

/// `Actor` as plain values.
pub ghost enum ActorView {
    User { id: Option<Seq<char>> },
    Bot,
    Organization,
    Mannequin,
    EnterpriseUserAccount,
    Other,
}

impl DeepView for Actor {
    type V = ActorView;

    open spec fn deep_view(&self) -> ActorView {
        match *self {
            Actor::User { id } => ActorView::User { id: id.deep_view() },
            Actor::Bot => ActorView::Bot,
            Actor::Organization => ActorView::Organization,
            Actor::Mannequin => ActorView::Mannequin,
            Actor::EnterpriseUserAccount => ActorView::EnterpriseUserAccount,
            Actor::Other => ActorView::Other,
        }
    }
}

/// The user whom the server suggests for the review.
#[derive(Debug, Clone, PartialEq, Eq)]
pub struct Reviewer {
    pub id: Option<String>,
}

/// The user of a suggestion as plain values.
pub ghost struct ReviewerView {
    pub id: Option<Seq<char>>,
}

impl DeepView for Reviewer {
    type V = ReviewerView;

    open spec fn deep_view(&self) -> ReviewerView {
        ReviewerView { id: self.id.deep_view() }
    }
}

/// One suggestion of the server for the review.
#[derive(Debug, Clone, PartialEq, Eq)]
pub struct SuggestedReviewer {
    pub reviewer: Option<Reviewer>,
}

/// `SuggestedReviewer` as plain values.
pub ghost struct SuggestionView {
    pub reviewer: Option<ReviewerView>,
}

impl DeepView for SuggestedReviewer {
    type V = SuggestionView;

    open spec fn deep_view(&self) -> SuggestionView {
        SuggestionView { reviewer: self.reviewer.deep_view() }
    }
}

/// One pull request, as far as it was asked for.
#[derive(Debug, Clone, PartialEq, Eq)]
pub struct PullRequestNode {
    pub id: Option<String>,
    pub suggested_reviewers: Option<Vec<Option<SuggestedReviewer>>>,
    pub author: Option<Actor>,
}

/// `PullRequestNode` as plain values.
pub ghost struct NodeView {
    pub id: Option<Seq<char>>,
    pub suggested_reviewers: Option<Seq<Option<SuggestionView>>>,
    pub author: Option<ActorView>,
}

impl DeepView for PullRequestNode {
    type V = NodeView;

    open spec fn deep_view(&self) -> NodeView {
        NodeView {
            id: self.id.deep_view(),
            suggested_reviewers: self.suggested_reviewers.deep_view(),
            author: self.author.deep_view(),
        }
    }
}

/// The list of pull requests of a repository.
#[derive(Debug, Clone, PartialEq, Eq)]
pub struct PullRequestConnection {
    pub nodes: Option<Vec<Option<PullRequestNode>>>,
}

/// `PullRequestConnection` as plain values.
pub ghost struct ConnectionView {
    pub nodes: Option<Seq<Option<NodeView>>>,
}

impl DeepView for PullRequestConnection {
    type V = ConnectionView;

    open spec fn deep_view(&self) -> ConnectionView {
        ConnectionView { nodes: self.nodes.deep_view() }
    }
}

/// A repository, as far as it was asked for.
#[derive(Debug, Clone, PartialEq, Eq)]
pub struct Repository {
    pub pull_requests: Option<PullRequestConnection>,
}

/// `Repository` as plain values.
pub ghost struct RepositoryView {
    pub pull_requests: Option<ConnectionView>,
}

impl DeepView for Repository {
    type V = RepositoryView;

    open spec fn deep_view(&self) -> RepositoryView {
        RepositoryView { pull_requests: self.pull_requests.deep_view() }
    }
}

/// What stands under `data` in the answer to the query for the last pull request.
#[derive(Debug, Clone, PartialEq, Eq)]
pub struct ResponseData {
    pub repository: Option<Repository>,
}

/// `ResponseData` as plain values.
pub ghost struct DataView {
    pub repository: Option<RepositoryView>,
}

impl DeepView for ResponseData {
    type V = DataView;

    open spec fn deep_view(&self) -> DataView {
        DataView { repository: self.repository.deep_view() }
    }
}

/// What the mutation that assigns users hands back.
#[derive(Debug, Clone, PartialEq, Eq)]
pub struct AssignAuthorPayload {
    pub client_mutation_id: Option<String>,
}

/// `AssignAuthorPayload` as plain values.
pub ghost struct AssignPayloadView {
    pub client_mutation_id: Option<Seq<char>>,
}

impl DeepView for AssignAuthorPayload {
    type V = AssignPayloadView;

    open spec fn deep_view(&self) -> AssignPayloadView {
        AssignPayloadView { client_mutation_id: self.client_mutation_id.deep_view() }
    }
}

/// What stands under `data` in the answer to the mutation that assigns the author.
#[derive(Debug, Clone, PartialEq, Eq)]
pub struct AssignAuthorData {
    pub add_assignees_to_assignable: Option<AssignAuthorPayload>,
}

/// `AssignAuthorData` as plain values.
pub ghost struct AssignDataView {
    pub add_assignees_to_assignable: Option<AssignPayloadView>,
}

impl DeepView for AssignAuthorData {
    type V = AssignDataView;

    open spec fn deep_view(&self) -> AssignDataView {
        AssignDataView {
            add_assignees_to_assignable: self.add_assignees_to_assignable.deep_view(),
        }
    }
}

} // verus!
