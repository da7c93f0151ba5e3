//! Request documents: the text of an operation, its name, and its variables.

use crate::extract::PullRequestSummary;
use crate::ident::OpaqueId;
use crate::repo::RepositoryRef;
use vstd::prelude::*;

verus! {

/// The operations that this library knows how to ask for.
#[derive(Debug, Clone, Copy, PartialEq, Eq, Structural)]
pub enum OperationKind {
    LastPullRequest,
    AssignAuthor,
    RequestReviews,
}

/// The name under which the server knows an operation.
pub open spec fn operation_name_of(kind: OperationKind) -> Seq<char> {
    match kind {
        OperationKind::LastPullRequest => "LastPullRequest"@,
        OperationKind::AssignAuthor => "AssignAuthor"@,
        OperationKind::RequestReviews => "RequestReviews"@,
    }
}

impl OperationKind {
    /// The name under which the server knows this operation.
    pub fn name(&self) -> (text: &'static str)
        ensures
            text@ == operation_name_of(*self),
    {
        match self {
            OperationKind::LastPullRequest => "LastPullRequest",
            OperationKind::AssignAuthor => "AssignAuthor",
            OperationKind::RequestReviews => "RequestReviews",
        }
    }
}

/// The texts of the operations, one for each kind. They are read once, when
/// the process starts, and handed to the builder as they are.
///
/// The decoder of this library goes by the names in the answer, so the texts
/// have to ask for them. The query selects `repository`, `pullRequests` and
/// `nodes`, and of each node `id`, `author` with `__typename` and the `id` of
/// a `User`, and `suggestedReviewers`, each with the `id` of its user under
/// the alias `user`. The mutation selects `addAssigneesToAssignable` with
/// `clientMutationId`.
#[derive(Debug, Clone, PartialEq, Eq)]
pub struct QueryTexts {
    pub last_pull_request: String,
    pub assign_author: String,
    pub request_reviews: String,
}

impl QueryTexts {
    /// The text of the operation of a kind.
    pub open spec fn text_of(&self, kind: OperationKind) -> Seq<char> {
        match kind {
            OperationKind::LastPullRequest => self.last_pull_request@,
            OperationKind::AssignAuthor => self.assign_author@,
            OperationKind::RequestReviews => self.request_reviews@,
        }
    }

    /// The text of the operation of a kind.
    pub fn text(&self, kind: OperationKind) -> (text: &str)
        ensures
            text@ == self.text_of(kind),
    {
        match kind {
            OperationKind::LastPullRequest => self.last_pull_request.as_str(),
            OperationKind::AssignAuthor => self.assign_author.as_str(),
            OperationKind::RequestReviews => self.request_reviews.as_str(),
        }
    }
}

/// A list of identifiers as plain values.
pub open spec fn ids_view(ids: Seq<OpaqueId>) -> Seq<Seq<char>> {
    ids.map_values(|id: OpaqueId| id@)
}

/// An optional string as a plain value.
pub open spec fn text_view(text: Option<String>) -> Option<Seq<char>> {
    match text {
        Some(text) => Some(text@),
        None => None,
    }
}

/// An optional list of identifiers as plain values.
pub open spec fn optional_ids_view(ids: Option<Vec<OpaqueId>>) -> Option<Seq<Seq<char>>> {
    match ids {
        Some(ids) => Some(ids_view(ids@)),
        None => None,
    }
}

/// The input of the mutation that assigns users to a pull request.
#[derive(Debug, Clone, PartialEq, Eq)]
pub struct AssignAuthorInput {
    pub assignable_id: OpaqueId,
    pub assignee_ids: Vec<OpaqueId>,
    pub client_mutation_id: Option<String>,
}

/// The input of the mutation that requests reviews of a pull request.
#[derive(Debug, Clone, PartialEq, Eq)]
pub struct RequestReviewsInput {
    pub pull_request_id: OpaqueId,
    pub user_ids: Option<Vec<OpaqueId>>,
    pub team_ids: Option<Vec<OpaqueId>>,
    pub union: Option<bool>,
    pub client_mutation_id: Option<String>,
}

/// The variables of an operation: each kind has a record of its own.
#[derive(Debug, Clone, PartialEq, Eq)]
pub enum Variables {
    LastPullRequest(RepositoryRef),
    AssignAuthor(AssignAuthorInput),
    RequestReviews(RequestReviewsInput),
}

/// `Variables` as plain values.
pub ghost enum VariablesView {
    LastPullRequest { owner: Seq<char>, name: Seq<char> },
    AssignAuthor {
        assignable_id: Seq<char>,
        assignee_ids: Seq<Seq<char>>,
        client_mutation_id: Option<Seq<char>>,
    },
    RequestReviews {
        pull_request_id: Seq<char>,
        user_ids: Option<Seq<Seq<char>>>,
        team_ids: Option<Seq<Seq<char>>>,
        union: Option<bool>,
        client_mutation_id: Option<Seq<char>>,
    },
}

impl VariablesView {
    /// The operation that these variables belong to.
    pub open spec fn kind(self) -> OperationKind {
        match self {
            VariablesView::LastPullRequest { .. } => OperationKind::LastPullRequest,
            VariablesView::AssignAuthor { .. } => OperationKind::AssignAuthor,
            VariablesView::RequestReviews { .. } => OperationKind::RequestReviews,
        }
    }
}

impl View for AssignAuthorInput {
    type V = VariablesView;

    open spec fn view(&self) -> VariablesView {
        VariablesView::AssignAuthor {
            assignable_id: self.assignable_id@,
            assignee_ids: ids_view(self.assignee_ids@),
            client_mutation_id: text_view(self.client_mutation_id),
        }
    }
}

impl View for RequestReviewsInput {
    type V = VariablesView;

    open spec fn view(&self) -> VariablesView {
        VariablesView::RequestReviews {
            pull_request_id: self.pull_request_id@,
            user_ids: optional_ids_view(self.user_ids),
            team_ids: optional_ids_view(self.team_ids),
            union: self.union,
            client_mutation_id: text_view(self.client_mutation_id),
        }
    }
}

impl View for Variables {
    type V = VariablesView;

    open spec fn view(&self) -> VariablesView {
        match *self {
            Variables::LastPullRequest(repository) => VariablesView::LastPullRequest {
                owner: repository.owner_view(),
                name: repository.name_view(),
            },
            Variables::AssignAuthor(input) => input@,
            Variables::RequestReviews(input) => input@,
        }
    }
}

impl Variables {
    /// The operation that these variables belong to.
    pub fn kind(&self) -> (kind: OperationKind)
        ensures
            kind == self@.kind(),
    {
        match self {
            Variables::LastPullRequest(_) => OperationKind::LastPullRequest,
            Variables::AssignAuthor(_) => OperationKind::AssignAuthor,
            Variables::RequestReviews(_) => OperationKind::RequestReviews,
        }
    }
}

/// The variables of the mutation that assigns a pull request to its author.
pub open spec fn assign_author_variables(pull_request: Seq<char>, author: Seq<char>)
    -> VariablesView {
    VariablesView::AssignAuthor {
        assignable_id: pull_request,
        assignee_ids: seq![author],
        client_mutation_id: None,
    }
}

impl AssignAuthorInput {
    /// The input that assigns the pull request of `summary` to its author.
    /// There is none where the summary names no author.
    pub fn for_author(summary: &PullRequestSummary) -> (input: Option<AssignAuthorInput>)
        ensures
            match input {
                Some(input) => summary@.author_id is Some && input@ == assign_author_variables(
                    summary@.id,
                    summary@.author_id->Some_0,
                ),
                None => summary@.author_id is None,
            },
    {
        match &summary.author_id {
            Some(author) => {
                let mut assignee_ids: Vec<OpaqueId> = Vec::new();
                assignee_ids.push(author.clone());
                let input = AssignAuthorInput {
                    assignable_id: summary.id.clone(),
                    assignee_ids,
                    client_mutation_id: None,
                };
                assert(ids_view(input.assignee_ids@) =~= seq![author@]);
                Some(input)
            },
            None => None,
        }
    }
}

/// A request document as plain values.
pub ghost struct DocumentView {
    pub operation_name: Seq<char>,
    pub query_text: Seq<char>,
    pub variables: VariablesView,
}

/// The document that asks for the operation of `variables`: the name and the
/// text are those of the kind that the variables belong to.
pub open spec fn document_of(queries: QueryTexts, variables: VariablesView) -> DocumentView {
    DocumentView {
        operation_name: operation_name_of(variables.kind()),
        query_text: queries.text_of(variables.kind()),
        variables,
    }
}

/// A request: the operation's name, its text and its variables. Once built it
/// does not change.
#[derive(Debug, Clone, PartialEq, Eq)]
pub struct GraphQLDocument {
    operation_name: &'static str,
    query_text: String,
    variables: Variables,
}

impl View for GraphQLDocument {
    type V = DocumentView;

    closed spec fn view(&self) -> DocumentView {
        DocumentView {
            operation_name: self.operation_name@,
            query_text: self.query_text@,
            variables: self.variables@,
        }
    }
}

impl GraphQLDocument {
    /// The name of the operation that the document asks for.
    pub fn operation_name(&self) -> (text: &'static str)
        ensures
            text@ == self@.operation_name,
    {
        self.operation_name
    }

    /// The text of the operation.
    pub fn query_text(&self) -> (text: &str)
        ensures
            text@ == self@.query_text,
    {
        self.query_text.as_str()
    }

    /// The variables that go with the text.
    pub fn variables(&self) -> (variables: &Variables)
        ensures
            variables@ == self@.variables,
    {
        &self.variables
    }
}

/// Builds the document for the operation that `variables` belong to, with
/// the text that `queries` holds for it.
pub fn build(queries: &QueryTexts, variables: Variables) -> (document: GraphQLDocument)
    ensures
        document@ == document_of(*queries, variables@),
{
    let kind = variables.kind();
    GraphQLDocument {
        operation_name: kind.name(),
        query_text: queries.text(kind).to_owned(),
        variables,
    }
}

} // verus!
