//! The orchestration: one read request, then at most one write request that
//! is built from what the read gave.
//!
//! Each phase is a type of its own, and a phase is entered only through the
//! one before it. The caller sends the documents and hands back what came of
//! them; every decision is taken here.

use crate::document::{
    assign_author_variables, build, document_of, AssignAuthorInput, GraphQLDocument, QueryTexts,
    Variables, VariablesView,
};
use crate::error::{extraction_failure, ErrorView, WorkflowError};
use crate::extract::{
    extract_summary, lemma_summary_needs_mandatory_fields, mandatory_fields_present, summary_of, Hop,
    PullRequestSummary, SummaryView,
};
use crate::repo::{is_repository_name, name_of, owner_of, RepositoryRef};
use crate::decode::{
    decode_assignment, decode_pull_request, decoded_assignment, decoded_pull_request, DecodeError,
};
use crate::response::{
    AssignAuthorData, AssignDataView, DataView, EnvelopeView, GraphQLEnvelope, GraphQLError,
    GraphQLErrorView, ResponseData,
};
use vstd::pervasive::unreached;
use vstd::prelude::*;
use vstd::string::StringExecFns;

verus! {

/// What came of sending a document.
#[derive(Debug, Clone, PartialEq, Eq)]
pub enum Reply {
    /// An answer came: these are its bytes.
    Body(Vec<u8>),
    /// No answer came; the text says why.
    TransportFailed(String),
}

/// What a decoder made of an answer, as plain values.
pub open spec fn decoded_view<T: DeepView>(decoded: Result<GraphQLEnvelope<T>, DecodeError>)
    -> Option<EnvelopeView<T::V>> {
    match decoded {
        Ok(envelope) => Some(envelope.deep_view()),
        Err(_) => None,
    }
}

/// The envelope that is worked on, or the failure: what did not decode is
/// malformed, and so is an envelope without data and without errors.
pub open spec fn accepted<V>(decoded: Option<EnvelopeView<V>>) -> Result<
    EnvelopeView<V>,
    ErrorView,
> {
    match decoded {
        Some(envelope) => if envelope.well_formed() {
            Ok(envelope)
        } else {
            Err(ErrorView::MalformedPayload)
        },
        None => Err(ErrorView::MalformedPayload),
    }
}

/// What the reply to the query amounts to.
pub open spec fn read_reply(reply: Reply) -> Result<EnvelopeView<DataView>, ErrorView> {
    match reply {
        Reply::Body(text) => accepted(decoded_pull_request(text@)),
        Reply::TransportFailed(cause) => Err(ErrorView::TransportFailure(cause@)),
    }
}

/// What the reply to the mutation amounts to.
pub open spec fn write_reply(reply: Reply) -> Result<EnvelopeView<AssignDataView>, ErrorView> {
    match reply {
        Reply::Body(text) => accepted(decoded_assignment(text@)),
        Reply::TransportFailed(cause) => Err(ErrorView::TransportFailure(cause@)),
    }
}

/// Takes the envelope out of what a decoder made of an answer.
fn accept_envelope<T: DeepView>(decoded: Result<GraphQLEnvelope<T>, DecodeError>) -> (res: Result<
    GraphQLEnvelope<T>,
    WorkflowError,
>)
    ensures
        match res {
            Ok(envelope) => accepted(decoded_view(decoded)) == Ok::<EnvelopeView<T::V>, ErrorView>(
                envelope.deep_view(),
            ),
            Err(e) => accepted(decoded_view(decoded)) == Err::<EnvelopeView<T::V>, ErrorView>(e@),
        },
{
    match decoded {
        Ok(envelope) => {
            if envelope.is_well_formed() {
                Ok(envelope)
            } else {
                Err(WorkflowError::MalformedPayload)
            }
        },
        Err(_) => Err(WorkflowError::MalformedPayload),
    }
}

/// Whether the author was assigned to the pull request.
#[derive(Debug, Clone, Copy, PartialEq, Eq, Structural)]
pub enum Assignment {
    /// No author was found, so no mutation was sent.
    NotAttempted,
    /// The mutation was sent, and the server answered with data.
    Assigned,
}

/// The last phase: what there is to tell.
#[derive(Debug, Clone, PartialEq, Eq)]
pub struct Reporting {
    pub summary: PullRequestSummary,
    pub assignment: Assignment,
}

/// `Reporting` as plain values.
pub ghost struct ReportView {
    pub summary: SummaryView,
    pub assignment: Assignment,
}

impl View for Reporting {
    type V = ReportView;

    open spec fn view(&self) -> ReportView {
        ReportView { summary: self.summary@, assignment: self.assignment }
    }
}

/// How a report tells of an assignment.
pub open spec fn assignment_text(assignment: Assignment) -> Seq<char> {
    match assignment {
        Assignment::NotAttempted => "not assigned"@,
        Assignment::Assigned => "assigned"@,
    }
}

/// The line of a report: the pull request, the user suggested for the review
/// or `none`, and the assignment, parted by tabs.
pub open spec fn report_line(report: ReportView) -> Seq<char> {
    report.summary.id + "\t"@ + match report.summary.suggested_reviewer_id {
        Some(id) => id,
        None => "none"@,
    } + "\t"@ + assignment_text(report.assignment)
}

impl Reporting {
    /// The line that tells of the pull request, the user suggested for the
    /// review and the assignment.
    pub fn line(&self) -> (text: String)
        ensures
            text@ == report_line(self@),
    {
        let mut text = String::from_str(self.summary.id.as_str());
        text.append("\t");
        match &self.summary.suggested_reviewer_id {
            Some(id) => text.append(id.as_str()),
            None => text.append("none"),
        }
        text.append("\t");
        match self.assignment {
            Assignment::NotAttempted => text.append("not assigned"),
            Assignment::Assigned => text.append("assigned"),
        }
        text
    }
}

/// What a phase hands on: the errors that the server reported, which are to
/// be shown whatever follows, and the next phase or the failure that ends the
/// work.
#[derive(Debug)]
pub struct Outcome<S> {
    pub diagnostics: Vec<GraphQLError>,
    pub next: Result<S, WorkflowError>,
}

/// The third phase: the pull request has an author, and the mutation that assigns
/// it is to be sent.
#[derive(Debug)]
pub struct Assigning {
    summary: PullRequestSummary,
}

impl Assigning {
    #[verifier::type_invariant]
    spec fn wf(self) -> bool {
        self.summary.author_id is Some
    }

    /// The pull request that the phase works on.
    pub closed spec fn summary(self) -> SummaryView {
        self.summary@
    }

    /// The document to send: it assigns the pull request to its author, and
    /// to nobody else.
    pub fn request(&self, queries: &QueryTexts) -> (document: GraphQLDocument)
        ensures
            self.summary().author_id is Some,
            document@ == document_of(
                *queries,
                assign_author_variables(self.summary().id, self.summary().author_id->Some_0),
            ),
    {
        proof {
            use_type_invariant(self);
        }
        match AssignAuthorInput::for_author(&self.summary) {
            Some(input) => build(queries, Variables::AssignAuthor(input)),
            None => unreached(),
        }
    }

    /// Takes what a decoder made of the answer to the mutation. The errors of
    /// the envelope are handed on to be shown; the assignment stands where
    /// the envelope carries data.
    pub fn accept(self, decoded: Result<GraphQLEnvelope<AssignAuthorData>, DecodeError>) -> (outcome:
        Outcome<Reporting>)
        ensures
            outcome.diagnostics.deep_view() == assignment_diagnostics(
                accepted(decoded_view(decoded)),
            ),
            match outcome.next {
                Ok(report) => after_assignment(self.summary(), accepted(decoded_view(decoded)))
                    == Ok::<ReportView, ErrorView>(report@),
                Err(e) => after_assignment(self.summary(), accepted(decoded_view(decoded)))
                    == Err::<ReportView, ErrorView>(e@),
            },
    {
        match accept_envelope(decoded) {
            Err(e) => Outcome { diagnostics: Vec::new(), next: Err(e) },
            Ok(envelope) => {
                let diagnostics = match envelope.errors {
                    Some(errors) => errors,
                    None => Vec::new(),
                };
                let next = match envelope.data {
                    Some(_) => Ok(
                        Reporting { summary: self.summary, assignment: Assignment::Assigned },
                    ),
                    None => Err(WorkflowError::RequiredFieldMissing(Hop::Data)),
                };
                assert(diagnostics.deep_view() =~= envelope.deep_view().reported());
                Outcome { diagnostics, next }
            },
        }
    }

    /// Takes what came of the mutation: decodes the bytes of the answer and
    /// goes on as `accept` does; a failed transport ends the work.
    pub fn receive(self, reply: Reply) -> (outcome: Outcome<Reporting>)
        ensures
            outcome.diagnostics.deep_view() == assignment_diagnostics(write_reply(reply)),
            match outcome.next {
                Ok(report) => after_assignment(self.summary(), write_reply(reply)) == Ok::<
                    ReportView,
                    ErrorView,
                >(report@),
                Err(e) => after_assignment(self.summary(), write_reply(reply)) == Err::<
                    ReportView,
                    ErrorView,
                >(e@),
            },
    {
        match reply {
            Reply::Body(text) => self.accept(decode_assignment(text.as_slice())),
            Reply::TransportFailed(cause) => {
                let diagnostics: Vec<GraphQLError> = Vec::new();
                assert(diagnostics.deep_view() =~= Seq::<GraphQLErrorView>::empty());
                Outcome { diagnostics, next: Err(WorkflowError::TransportFailure(cause)) }
            },
        }
    }
}

/// The errors to show once the mutation was answered.
pub open spec fn assignment_diagnostics(reply: Result<EnvelopeView<AssignDataView>, ErrorView>)
    -> Seq<GraphQLErrorView> {
    match reply {
        Ok(envelope) => envelope.reported(),
        Err(_) => Seq::empty(),
    }
}

/// What follows the mutation: the report of an assignment where the server
/// answered with data, a failure else.
pub open spec fn after_assignment(
    summary: SummaryView,
    reply: Result<EnvelopeView<AssignDataView>, ErrorView>,
) -> Result<ReportView, ErrorView> {
    match reply {
        Err(e) => Err(e),
        Ok(envelope) => if envelope.data is Some {
            Ok(ReportView { summary, assignment: Assignment::Assigned })
        } else {
            Err(ErrorView::RequiredFieldMissing(Hop::Data))
        },
    }
}

/// The phase that follows the extraction.
#[derive(Debug)]
pub enum Extracted {
    /// An author was found: the mutation is next.
    Assign(Assigning),
    /// No author was found: nothing is left but to report.
    Report(Reporting),
}

/// `Extracted` as plain values.
pub ghost enum ExtractedView {
    Assign(SummaryView),
    Report(ReportView),
}

impl View for Extracted {
    type V = ExtractedView;

    open spec fn view(&self) -> ExtractedView {
        match *self {
            Extracted::Assign(assigning) => ExtractedView::Assign(assigning.summary()),
            Extracted::Report(reporting) => ExtractedView::Report(reporting@),
        }
    }
}

/// What follows the extraction from `data`: the failure of the extraction, or
/// the mutation where an author was found, or the report.
pub open spec fn after_extraction(data: Option<DataView>) -> Result<ExtractedView, ErrorView> {
    match summary_of(data) {
        Err(e) => Err(extraction_failure(e)),
        Ok(summary) => if summary.author_id is Some {
            Ok(ExtractedView::Assign(summary))
        } else {
            Ok(ExtractedView::Report(ReportView { summary, assignment: Assignment::NotAttempted }))
        },
    }
}

/// The second phase: an envelope was decoded, and the pull request is to be
/// read out of it.
#[derive(Debug)]
pub struct Extracting {
    envelope: GraphQLEnvelope<ResponseData>,
}

impl Extracting {
    #[verifier::type_invariant]
    spec fn wf(self) -> bool {
        self.envelope.well_formed()
    }

    /// The envelope that the phase works on.
    pub closed spec fn envelope(self) -> EnvelopeView<DataView> {
        self.envelope.deep_view()
    }

    /// Reads the pull request out of the envelope. The errors of the envelope
    /// are handed on to be shown; they decide nothing. What follows depends
    /// on the data alone.
    pub fn run(self) -> (outcome: Outcome<Extracted>)
        ensures
            self.envelope().well_formed(),
            outcome.diagnostics.deep_view() == self.envelope().reported(),
            match outcome.next {
                Ok(next) => after_extraction(self.envelope().data) == Ok::<
                    ExtractedView,
                    ErrorView,
                >(next@),
                Err(e) => after_extraction(self.envelope().data) == Err::<
                    ExtractedView,
                    ErrorView,
                >(e@),
            },
    {
        proof {
            use_type_invariant(&self);
        }
        let next = match extract_summary(&self.envelope.data) {
            Err(e) => Err(WorkflowError::from_extract(e)),
            Ok(summary) => {
                if summary.author_id.is_some() {
                    Ok(Extracted::Assign(Assigning { summary }))
                } else {
                    Ok(
                        Extracted::Report(
                            Reporting { summary, assignment: Assignment::NotAttempted },
                        ),
                    )
                }
            },
        };
        let diagnostics = match self.envelope.errors {
            Some(errors) => errors,
            None => Vec::new(),
        };
        assert(diagnostics.deep_view() =~= self.envelope.deep_view().reported());
        Outcome { diagnostics, next }
    }
}

/// The repository that the work is done on: the one that `input` names, or
/// else the fallback, or none.
pub open spec fn chosen_repository(input: Seq<char>, fallback: Option<RepositoryRef>) -> Option<
    VariablesView,
> {
    if is_repository_name(input) {
        Some(VariablesView::LastPullRequest { owner: owner_of(input), name: name_of(input) })
    } else {
        match fallback {
            Some(repository) => Some(
                VariablesView::LastPullRequest {
                    owner: repository.owner_view(),
                    name: repository.name_view(),
                },
            ),
            None => None,
        }
    }
}

/// The first phase: the repository is known, and its last pull request is to
/// be asked for.
#[derive(Debug)]
pub struct Fetching {
    repository: RepositoryRef,
}

impl Fetching {
    /// The variables of the query.
    pub closed spec fn variables(self) -> VariablesView {
        VariablesView::LastPullRequest {
            owner: self.repository.owner_view(),
            name: self.repository.name_view(),
        }
    }

    /// Begins the work on the repository that `input` names. Where `input`
    /// names none, the work is done on `fallback`; without a fallback it ends
    /// at once.
    pub fn start(input: &str, fallback: Option<RepositoryRef>) -> (res: Result<
        Fetching,
        WorkflowError,
    >)
        ensures
            match res {
                Ok(fetching) => chosen_repository(input@, fallback) == Some(fetching.variables()),
                Err(e) => chosen_repository(input@, fallback).is_none() && e@
                    == ErrorView::InvalidRepositoryFormat,
            },
    {
        match RepositoryRef::parse(input) {
            Ok(repository) => Ok(Fetching { repository }),
            Err(e) => match fallback {
                Some(repository) => Ok(Fetching { repository }),
                None => Err(WorkflowError::from_parse(e)),
            },
        }
    }

    /// The document to send: the query for the last pull request of the
    /// repository.
    pub fn request(&self, queries: &QueryTexts) -> (document: GraphQLDocument)
        ensures
            document@ == document_of(*queries, self.variables()),
    {
        build(queries, Variables::LastPullRequest(self.repository.clone()))
    }

    /// Takes what a decoder made of the answer to the query. What did not
    /// decode, and an envelope without data and without errors, end the work.
    pub fn accept(self, decoded: Result<GraphQLEnvelope<ResponseData>, DecodeError>) -> (res: Result<
        Extracting,
        WorkflowError,
    >)
        ensures
            match res {
                Ok(extracting) => accepted(decoded_view(decoded)) == Ok::<
                    EnvelopeView<DataView>,
                    ErrorView,
                >(extracting.envelope()),
                Err(e) => accepted(decoded_view(decoded)) == Err::<
                    EnvelopeView<DataView>,
                    ErrorView,
                >(e@),
            },
    {
        match accept_envelope(decoded) {
            Ok(envelope) => Ok(Extracting { envelope }),
            Err(e) => Err(e),
        }
    }

    /// Takes what came of the query: decodes the bytes of the answer and goes
    /// on as `accept` does; a failed transport ends the work.
    pub fn receive(self, reply: Reply) -> (res: Result<Extracting, WorkflowError>)
        ensures
            match res {
                Ok(extracting) => read_reply(reply) == Ok::<EnvelopeView<DataView>, ErrorView>(
                    extracting.envelope(),
                ),
                Err(e) => read_reply(reply) == Err::<EnvelopeView<DataView>, ErrorView>(e@),
            },
    {
        match reply {
            Reply::Body(text) => self.accept(decode_pull_request(text.as_slice())),
            Reply::TransportFailed(cause) => Err(WorkflowError::TransportFailure(cause)),
        }
    }
}

/// An envelope with data and without errors gives nothing to show; where
/// every mandatory field is present, the extraction gives the summary, and the
/// author decides between the mutation and the report.
pub proof fn lemma_clean_envelope_is_extracted(envelope: EnvelopeView<DataView>)
    requires
        envelope.errors is None,
        mandatory_fields_present(envelope.data),
    ensures
        accepted(Some(envelope)) == Ok::<EnvelopeView<DataView>, ErrorView>(envelope),
        envelope.reported().len() == 0,
        summary_of(envelope.data) is Ok,
        after_extraction(envelope.data) == Ok::<ExtractedView, ErrorView>(
            if summary_of(envelope.data)->Ok_0.author_id is Some {
                ExtractedView::Assign(summary_of(envelope.data)->Ok_0)
            } else {
                ExtractedView::Report(
                    ReportView {
                        summary: summary_of(envelope.data)->Ok_0,
                        assignment: Assignment::NotAttempted,
                    },
                )
            },
        ),
{
    lemma_summary_needs_mandatory_fields(envelope.data);
}

/// Errors beside the data block nothing: each of them is handed on to be
/// shown, and what follows is what the same data gives without them.
pub proof fn lemma_errors_beside_data_do_not_block(envelope: EnvelopeView<DataView>)
    requires
        envelope.data is Some,
        envelope.errors is Some,
    ensures
        accepted(Some(envelope)) == Ok::<EnvelopeView<DataView>, ErrorView>(envelope),
        envelope.reported() == envelope.errors->Some_0,
        accepted(Some(EnvelopeView { data: envelope.data, errors: None })) == Ok::<
            EnvelopeView<DataView>,
            ErrorView,
        >(EnvelopeView { data: envelope.data, errors: None }),
        after_extraction(envelope.data) == after_extraction(
            (EnvelopeView::<DataView> { data: envelope.data, errors: None }).data,
        ),
{
}

/// Errors without data end the work: each of them is handed on to be shown,
/// and no mutation follows.
pub proof fn lemma_errors_without_data_are_fatal(envelope: EnvelopeView<DataView>)
    requires
        envelope.data is None,
        envelope.errors is Some,
    ensures
        accepted(Some(envelope)) == Ok::<EnvelopeView<DataView>, ErrorView>(envelope),
        envelope.reported() == envelope.errors->Some_0,
        after_extraction(envelope.data) == Err::<ExtractedView, ErrorView>(
            ErrorView::RequiredFieldMissing(Hop::Data),
        ),
{
}

/// No mutation follows a failed extraction, and none follows a pull request
/// without an author: the mutation is sent exactly where the extraction gives
/// a summary that names one.
pub proof fn lemma_mutation_needs_an_author(data: Option<DataView>)
    ensures
        (after_extraction(data) is Ok && after_extraction(data)->Ok_0 is Assign) <==> (summary_of(
            data,
        ) is Ok && summary_of(data)->Ok_0.author_id is Some),
        after_extraction(data) is Ok && after_extraction(data)->Ok_0 is Assign ==> after_extraction(
            data,
        )->Ok_0->Assign_0 == summary_of(data)->Ok_0,
{
}

} // verus!
