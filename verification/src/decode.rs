//! Decoding the bytes of an answer into an envelope.
//!
//! `serde_json` reads the bytes into a tree; the functions here hold the tree
//! to the shape of an envelope. A field may be missing or `null`: it is then
//! absent. A field that is present with a value of another kind than the
//! shape asks for makes the whole payload malformed. Members that the shape
//! does not name are passed over.

use crate::json::{
    as_integer, as_items, as_text, integer_of, is_null, is_object, json_of, json_text, jsons_of,
    member, member_of, parse_value, parsed_json, to_text, Json,
};
use crate::response::{
    Actor, ActorView, AssignAuthorData, AssignAuthorPayload, AssignDataView, AssignPayloadView,
    ConnectionView, DataView, EnvelopeView, GraphQLEnvelope, GraphQLError, GraphQLErrorView,
    NodeView, PathSegment, PullRequestConnection, PullRequestNode, Repository, RepositoryView,
    ResponseData, Reviewer, ReviewerView, SegmentView, SuggestedReviewer, SuggestionView,
};
use serde_json::Value;
use vstd::prelude::*;

verus! {

/// Why the bytes of an answer gave no envelope.
#[derive(Debug, Clone, Copy, PartialEq, Eq, Structural)]
pub enum DecodeError {
    /// The bytes are no JSON text, or the text does not have the shape of an
    /// envelope.
    MalformedPayload,
}

/// Whether a decoder's result is what the shape gives: the decoded value
/// where the shape is met, and a failure where it is not.
pub open spec fn agrees<T: DeepView>(res: Result<T, DecodeError>, expected: Option<T::V>) -> bool {
    match res {
        Ok(value) => expected == Some(value.deep_view()),
        Err(_) => expected.is_none(),
    }
}

/// A value as far as it is present: `null` stands for absence.
pub open spec fn non_null(json: Json) -> Option<Json> {
    if json is Null {
        None
    } else {
        Some(json)
    }
}

/// The member of an object under a key, as far as it is present: a member
/// that is missing or `null` is absent.
pub open spec fn present_member(json: Json, key: Seq<char>) -> Option<Json> {
    match member_of(json, key) {
        Some(value) => non_null(value),
        None => None,
    }
}

/// An optional field: absent where the value is, decoded where it is
/// present, and malformed where what is present is.
pub open spec fn optional_with<V>(field: Option<Json>, decode: spec_fn(Json) -> Option<V>)
    -> Option<Option<V>> {
    match field {
        None => Some(None),
        Some(json) => match decode(json) {
            Some(value) => Some(Some(value)),
            None => None,
        },
    }
}

/// A list: every item decoded, in the order of the array; malformed where
/// the value is no array or one of its items is malformed.
pub open spec fn list_with<V>(json: Json, decode: spec_fn(Json) -> Option<V>) -> Option<Seq<V>> {
    match json {
        Json::Array(items) => if forall|i: int|
            0 <= i < items.len() ==> (#[trigger] decode(items[i])) is Some {
            Some(items.map_values(|item: Json| decode(item)->Some_0))
        } else {
            None
        },
        _ => None,
    }
}

/// An optional field that holds text.
pub open spec fn text_field(json: Json, key: Seq<char>) -> Option<Option<Seq<char>>> {
    match present_member(json, key) {
        None => Some(None),
        Some(Json::String(text)) => Some(Some(text)),
        Some(_) => None,
    }
}

/// The shape of a user that is suggested for the review.
pub open spec fn reviewer_of(json: Json) -> Option<ReviewerView> {
    if json is Object {
        match text_field(json, "id"@) {
            Some(id) => Some(ReviewerView { id }),
            None => None,
        }
    } else {
        None
    }
}

/// The shape of one suggestion: its user stands under `user`.
pub open spec fn suggestion_of(json: Json) -> Option<SuggestionView> {
    if json is Object {
        match optional_with(present_member(json, "user"@), |j: Json| reviewer_of(j)) {
            Some(reviewer) => Some(SuggestionView { reviewer }),
            None => None,
        }
    } else {
        None
    }
}

/// The shape of an actor. The member `__typename` tells its kind; a kind
/// that is not known gives `Other`.
pub open spec fn actor_of(json: Json) -> Option<ActorView> {
    match member_of(json, "__typename"@) {
        Some(Json::String(kind)) => if kind == "User"@ {
            match text_field(json, "id"@) {
                Some(id) => Some(ActorView::User { id }),
                None => None,
            }
        } else if kind == "Bot"@ {
            Some(ActorView::Bot)
        } else if kind == "Organization"@ {
            Some(ActorView::Organization)
        } else if kind == "Mannequin"@ {
            Some(ActorView::Mannequin)
        } else if kind == "EnterpriseUserAccount"@ {
            Some(ActorView::EnterpriseUserAccount)
        } else {
            Some(ActorView::Other)
        },
        _ => None,
    }
}

/// The shape of an item of a list of suggestions: it may be `null`.
pub open spec fn suggestion_item_of(json: Json) -> Option<Option<SuggestionView>> {
    optional_with(non_null(json), |j: Json| suggestion_of(j))
}

/// The shape of a list of suggestions.
pub open spec fn suggestions_of(json: Json) -> Option<Seq<Option<SuggestionView>>> {
    list_with(json, |item: Json| suggestion_item_of(item))
}

/// The shape of a pull request.
pub open spec fn node_of(json: Json) -> Option<NodeView> {
    if json is Object {
        match (
            text_field(json, "id"@),
            optional_with(present_member(json, "suggestedReviewers"@), |j: Json| suggestions_of(j)),
            optional_with(present_member(json, "author"@), |j: Json| actor_of(j)),
        ) {
            (Some(id), Some(suggested_reviewers), Some(author)) => Some(
                NodeView { id, suggested_reviewers, author },
            ),
            _ => None,
        }
    } else {
        None
    }
}

/// The shape of an item of a list of pull requests: it may be `null`.
pub open spec fn node_item_of(json: Json) -> Option<Option<NodeView>> {
    optional_with(non_null(json), |j: Json| node_of(j))
}

/// The shape of a list of pull requests.
pub open spec fn nodes_of(json: Json) -> Option<Seq<Option<NodeView>>> {
    list_with(json, |item: Json| node_item_of(item))
}

/// The shape of the connection to the pull requests.
pub open spec fn connection_of(json: Json) -> Option<ConnectionView> {
    if json is Object {
        match optional_with(present_member(json, "nodes"@), |j: Json| nodes_of(j)) {
            Some(nodes) => Some(ConnectionView { nodes }),
            None => None,
        }
    } else {
        None
    }
}

/// The shape of a repository.
pub open spec fn repository_of(json: Json) -> Option<RepositoryView> {
    if json is Object {
        match optional_with(present_member(json, "pullRequests"@), |j: Json| connection_of(j)) {
            Some(pull_requests) => Some(RepositoryView { pull_requests }),
            None => None,
        }
    } else {
        None
    }
}

/// The shape of the data that answers the query for the last pull request.
pub open spec fn data_of(json: Json) -> Option<DataView> {
    if json is Object {
        match optional_with(present_member(json, "repository"@), |j: Json| repository_of(j)) {
            Some(repository) => Some(DataView { repository }),
            None => None,
        }
    } else {
        None
    }
}

/// The shape of what the mutation hands back.
pub open spec fn assign_payload_of(json: Json) -> Option<AssignPayloadView> {
    if json is Object {
        match text_field(json, "clientMutationId"@) {
            Some(client_mutation_id) => Some(AssignPayloadView { client_mutation_id }),
            None => None,
        }
    } else {
        None
    }
}

/// The shape of the data that answers the mutation.
pub open spec fn assign_data_of(json: Json) -> Option<AssignDataView> {
    if json is Object {
        match optional_with(
            present_member(json, "addAssigneesToAssignable"@),
            |j: Json| assign_payload_of(j),
        ) {
            Some(add_assignees_to_assignable) => Some(
                AssignDataView { add_assignees_to_assignable },
            ),
            None => None,
        }
    } else {
        None
    }
}

/// The shape of one step of a path: the name of a field, or an index.
pub open spec fn segment_of(json: Json) -> Option<SegmentView> {
    match json {
        Json::String(key) => Some(SegmentView::Key(key)),
        _ => match integer_of(json) {
            Some(index) => Some(SegmentView::Index(index)),
            None => None,
        },
    }
}

/// The shape of a path.
pub open spec fn path_of(json: Json) -> Option<Seq<SegmentView>> {
    list_with(json, |item: Json| segment_of(item))
}

/// The shape of the extensions of an error: an object, kept as its text.
pub open spec fn extensions_of(json: Json) -> Option<Seq<char>> {
    if json is Object {
        Some(json_text(json))
    } else {
        None
    }
}

/// The shape of an error. The message must be there.
pub open spec fn error_of(json: Json) -> Option<GraphQLErrorView> {
    match (
        member_of(json, "message"@),
        optional_with(present_member(json, "path"@), |j: Json| path_of(j)),
        optional_with(present_member(json, "extensions"@), |j: Json| extensions_of(j)),
    ) {
        (Some(Json::String(message)), Some(path), Some(extensions)) => Some(
            GraphQLErrorView { message, path, extensions },
        ),
        _ => None,
    }
}

/// The shape of the list of errors.
pub open spec fn errors_of(json: Json) -> Option<Seq<GraphQLErrorView>> {
    list_with(json, |item: Json| error_of(item))
}

/// The shape of an envelope around data of a given shape.
pub open spec fn envelope_of<V>(json: Json, data: spec_fn(Json) -> Option<V>) -> Option<
    EnvelopeView<V>,
> {
    if json is Object {
        match (
            optional_with(present_member(json, "data"@), data),
            optional_with(present_member(json, "errors"@), |j: Json| errors_of(j)),
        ) {
            (Some(data), Some(errors)) => Some(EnvelopeView { data, errors }),
            _ => None,
        }
    } else {
        None
    }
}

/// The envelope that answers the query for the last pull request.
pub open spec fn pull_request_envelope_of(json: Json) -> Option<EnvelopeView<DataView>> {
    envelope_of(json, |j: Json| data_of(j))
}

/// The envelope that answers the mutation.
pub open spec fn assignment_envelope_of(json: Json) -> Option<EnvelopeView<AssignDataView>> {
    envelope_of(json, |j: Json| assign_data_of(j))
}

/// Whether two texts are the same.
fn same_text(a: &str, b: &str) -> (same: bool)
    ensures
        same == (a@ == b@),
{
    a.to_owned() == b.to_owned()
}

/// Looks up a member that may be absent.
fn present<'a>(value: &'a Value, key: &str) -> (res: Option<&'a Value>)
    ensures
        match res {
            Some(found) => present_member(json_of(*value), key@) == Some(json_of(*found)),
            None => present_member(json_of(*value), key@).is_none(),
        },
{
    match member(value, key) {
        Some(found) => if is_null(found) {
            None
        } else {
            Some(found)
        },
        None => None,
    }
}

/// Reads an optional field that holds text.
fn decode_text_field(value: &Value, key: &str) -> (res: Result<Option<String>, DecodeError>)
    ensures
        agrees(res, text_field(json_of(*value), key@)),
{
    match present(value, key) {
        None => Ok(None),
        Some(found) => match as_text(found) {
            Some(text) => Ok(Some(text.to_owned())),
            None => Err(DecodeError::MalformedPayload),
        },
    }
}

/// Reads the user of a suggestion.
fn decode_reviewer(value: &Value) -> (res: Result<Reviewer, DecodeError>)
    ensures
        agrees(res, reviewer_of(json_of(*value))),
{
    if !is_object(value) {
        return Err(DecodeError::MalformedPayload);
    }
    let id = decode_text_field(value, "id")?;
    Ok(Reviewer { id })
}

/// Reads one suggestion.
fn decode_suggestion(value: &Value) -> (res: Result<SuggestedReviewer, DecodeError>)
    ensures
        agrees(res, suggestion_of(json_of(*value))),
{
    if !is_object(value) {
        return Err(DecodeError::MalformedPayload);
    }
    let reviewer = match present(value, "user") {
        Some(found) => Some(decode_reviewer(found)?),
        None => None,
    };
    Ok(SuggestedReviewer { reviewer })
}

/// Reads an actor, by the kind that `__typename` tells.
fn decode_actor(value: &Value) -> (res: Result<Actor, DecodeError>)
    ensures
        agrees(res, actor_of(json_of(*value))),
{
    let kind = match member(value, "__typename") {
        Some(found) => match as_text(found) {
            Some(kind) => kind,
            None => return Err(DecodeError::MalformedPayload),
        },
        None => return Err(DecodeError::MalformedPayload),
    };
    if same_text(kind, "User") {
        let id = decode_text_field(value, "id")?;
        Ok(Actor::User { id })
    } else if same_text(kind, "Bot") {
        Ok(Actor::Bot)
    } else if same_text(kind, "Organization") {
        Ok(Actor::Organization)
    } else if same_text(kind, "Mannequin") {
        Ok(Actor::Mannequin)
    } else if same_text(kind, "EnterpriseUserAccount") {
        Ok(Actor::EnterpriseUserAccount)
    } else {
        Ok(Actor::Other)
    }
}

/// A list whose items all decode is the list of what they decode to.
proof fn lemma_list_decoded<V>(items: Seq<Json>, decode: spec_fn(Json) -> Option<V>, out: Seq<V>)
    requires
        out.len() == items.len(),
        forall|k: int| 0 <= k < items.len() ==> decode(items[k]) == Some(#[trigger] out[k]),
    ensures
        list_with(Json::Array(items), decode) == Some(out),
{
    assert forall|i: int| 0 <= i < items.len() implies (#[trigger] decode(items[i])) is Some by {
        assert(decode(items[i]) == Some(out[i]));
    }
    assert(items.map_values(|item: Json| decode(item)->Some_0) =~= out) by {
        assert forall|i: int| 0 <= i < items.len() implies items.map_values(
            |item: Json| decode(item)->Some_0,
        )[i] == out[i] by {
            assert(decode(items[i]) == Some(out[i]));
        }
    }
}

/// A list with an item that does not decode is malformed.
proof fn lemma_list_malformed<V>(items: Seq<Json>, decode: spec_fn(Json) -> Option<V>, at: int)
    requires
        0 <= at < items.len(),
        decode(items[at]) is None,
    ensures
        list_with(Json::Array(items), decode) is None,
{
}

/// Reads an item of a list of suggestions.
fn decode_suggestion_item(value: &Value) -> (res: Result<Option<SuggestedReviewer>, DecodeError>)
    ensures
        agrees(res, suggestion_item_of(json_of(*value))),
{
    if is_null(value) {
        Ok(None)
    } else {
        Ok(Some(decode_suggestion(value)?))
    }
}

/// Reads a list: every item of the array through `decode_item`, in order.
fn decode_list<T: DeepView, F: Fn(&Value) -> Result<T, DecodeError>>(
    value: &Value,
    decode_item: F,
    Ghost(shape): Ghost<spec_fn(Json) -> Option<T::V>>,
) -> (res: Result<Vec<T>, DecodeError>)
    requires
        forall|item: &Value| decode_item.requires((item,)),
        forall|item: &Value, decoded: Result<T, DecodeError>|
            decode_item.ensures((item,), decoded) ==> agrees(decoded, shape(json_of(*item))),
    ensures
        agrees(res, list_with(json_of(*value), shape)),
{
    let items = match as_items(value) {
        Some(items) => items,
        None => {
            return Err(DecodeError::MalformedPayload);
        },
    };
    let mut out: Vec<T> = Vec::new();
    let mut i: usize = 0;
    while i < items.len()
        invariant
            i <= items@.len(),
            json_of(*value) == Json::Array(jsons_of(items@)),
            out@.len() == i,
            forall|item: &Value| decode_item.requires((item,)),
            forall|item: &Value, decoded: Result<T, DecodeError>|
                decode_item.ensures((item,), decoded) ==> agrees(decoded, shape(json_of(*item))),
            forall|k: int|
                0 <= k < i ==> shape(json_of(items@[k])) == Some((#[trigger] out@[k]).deep_view()),
        decreases items@.len() - i,
    {
        match decode_item(&items[i]) {
            Ok(item) => {
                out.push(item);
            },
            Err(e) => {
                proof {
                    lemma_list_malformed(jsons_of(items@), shape, i as int);
                }
                return Err(e);
            },
        }
        i = i + 1;
    }
    proof {
        assert forall|k: int| 0 <= k < items@.len() implies shape(jsons_of(items@)[k]) == Some(
            #[trigger] out.deep_view()[k],
        ) by {
            assert(out.deep_view()[k] == out@[k].deep_view());
        }
        lemma_list_decoded(jsons_of(items@), shape, out.deep_view());
    }
    Ok(out)
}

/// Reads a list of suggestions.
fn decode_suggestions(value: &Value) -> (res: Result<
    Vec<Option<SuggestedReviewer>>,
    DecodeError,
>)
    ensures
        agrees(res, suggestions_of(json_of(*value))),
{
    decode_list(value, decode_suggestion_item, Ghost(|item: Json| suggestion_item_of(item)))
}

/// Reads a pull request.
fn decode_node(value: &Value) -> (res: Result<PullRequestNode, DecodeError>)
    ensures
        agrees(res, node_of(json_of(*value))),
{
    if !is_object(value) {
        return Err(DecodeError::MalformedPayload);
    }
    let id = decode_text_field(value, "id")?;
    let suggested_reviewers = match present(value, "suggestedReviewers") {
        Some(found) => Some(decode_suggestions(found)?),
        None => None,
    };
    let author = match present(value, "author") {
        Some(found) => Some(decode_actor(found)?),
        None => None,
    };
    Ok(PullRequestNode { id, suggested_reviewers, author })
}

/// Reads an item of a list of pull requests.
fn decode_node_item(value: &Value) -> (res: Result<Option<PullRequestNode>, DecodeError>)
    ensures
        agrees(res, node_item_of(json_of(*value))),
{
    if is_null(value) {
        Ok(None)
    } else {
        Ok(Some(decode_node(value)?))
    }
}

/// Reads a list of pull requests.
fn decode_nodes(value: &Value) -> (res: Result<Vec<Option<PullRequestNode>>, DecodeError>)
    ensures
        agrees(res, nodes_of(json_of(*value))),
{
    decode_list(value, decode_node_item, Ghost(|item: Json| node_item_of(item)))
}

/// Reads the connection to the pull requests.
fn decode_connection(value: &Value) -> (res: Result<PullRequestConnection, DecodeError>)
    ensures
        agrees(res, connection_of(json_of(*value))),
{
    if !is_object(value) {
        return Err(DecodeError::MalformedPayload);
    }
    let nodes = match present(value, "nodes") {
        Some(found) => Some(decode_nodes(found)?),
        None => None,
    };
    Ok(PullRequestConnection { nodes })
}

/// Reads a repository.
fn decode_repository(value: &Value) -> (res: Result<Repository, DecodeError>)
    ensures
        agrees(res, repository_of(json_of(*value))),
{
    if !is_object(value) {
        return Err(DecodeError::MalformedPayload);
    }
    let pull_requests = match present(value, "pullRequests") {
        Some(found) => Some(decode_connection(found)?),
        None => None,
    };
    Ok(Repository { pull_requests })
}

/// Reads the data that answers the query.
fn decode_data(value: &Value) -> (res: Result<ResponseData, DecodeError>)
    ensures
        agrees(res, data_of(json_of(*value))),
{
    if !is_object(value) {
        return Err(DecodeError::MalformedPayload);
    }
    let repository = match present(value, "repository") {
        Some(found) => Some(decode_repository(found)?),
        None => None,
    };
    Ok(ResponseData { repository })
}

/// Reads what the mutation hands back.
fn decode_assign_payload(value: &Value) -> (res: Result<AssignAuthorPayload, DecodeError>)
    ensures
        agrees(res, assign_payload_of(json_of(*value))),
{
    if !is_object(value) {
        return Err(DecodeError::MalformedPayload);
    }
    let client_mutation_id = decode_text_field(value, "clientMutationId")?;
    Ok(AssignAuthorPayload { client_mutation_id })
}

/// Reads the data that answers the mutation.
fn decode_assign_data(value: &Value) -> (res: Result<AssignAuthorData, DecodeError>)
    ensures
        agrees(res, assign_data_of(json_of(*value))),
{
    if !is_object(value) {
        return Err(DecodeError::MalformedPayload);
    }
    let add_assignees_to_assignable = match present(value, "addAssigneesToAssignable") {
        Some(found) => Some(decode_assign_payload(found)?),
        None => None,
    };
    Ok(AssignAuthorData { add_assignees_to_assignable })
}

/// Reads one step of a path.
fn decode_segment(value: &Value) -> (res: Result<PathSegment, DecodeError>)
    ensures
        agrees(res, segment_of(json_of(*value))),
{
    match as_text(value) {
        Some(key) => Ok(PathSegment::Key(key.to_owned())),
        None => match as_integer(value) {
            Some(index) => Ok(PathSegment::Index(index)),
            None => Err(DecodeError::MalformedPayload),
        },
    }
}

/// Reads a path.
fn decode_path(value: &Value) -> (res: Result<Vec<PathSegment>, DecodeError>)
    ensures
        agrees(res, path_of(json_of(*value))),
{
    decode_list(value, decode_segment, Ghost(|item: Json| segment_of(item)))
}

/// Reads the extensions of an error, and keeps them as text.
fn decode_extensions(value: &Value) -> (res: Result<String, DecodeError>)
    ensures
        agrees(res, extensions_of(json_of(*value))),
{
    if is_object(value) {
        Ok(to_text(value))
    } else {
        Err(DecodeError::MalformedPayload)
    }
}

/// Reads an error.
fn decode_error(value: &Value) -> (res: Result<GraphQLError, DecodeError>)
    ensures
        agrees(res, error_of(json_of(*value))),
{
    let message = match member(value, "message") {
        Some(found) => match as_text(found) {
            Some(message) => message.to_owned(),
            None => {
                return Err(DecodeError::MalformedPayload);
            },
        },
        None => {
            return Err(DecodeError::MalformedPayload);
        },
    };
    let path = match present(value, "path") {
        Some(found) => Some(decode_path(found)?),
        None => None,
    };
    let extensions = match present(value, "extensions") {
        Some(found) => Some(decode_extensions(found)?),
        None => None,
    };
    Ok(GraphQLError { message, path, extensions })
}

/// Reads the list of errors.
fn decode_errors(value: &Value) -> (res: Result<Vec<GraphQLError>, DecodeError>)
    ensures
        agrees(res, errors_of(json_of(*value))),
{
    decode_list(value, decode_error, Ghost(|item: Json| error_of(item)))
}

/// Reads the field `errors` of an envelope.
fn decode_errors_field(value: &Value) -> (res: Result<Option<Vec<GraphQLError>>, DecodeError>)
    ensures
        agrees(
            res,
            optional_with(present_member(json_of(*value), "errors"@), |j: Json| errors_of(j)),
        ),
{
    match present(value, "errors") {
        Some(found) => Ok(Some(decode_errors(found)?)),
        None => Ok(None),
    }
}

/// Holds a tree to the shape of the envelope that answers the query for the
/// last pull request.
pub fn decode_pull_request_envelope(value: &Value) -> (res: Result<
    GraphQLEnvelope<ResponseData>,
    DecodeError,
>)
    ensures
        agrees(res, pull_request_envelope_of(json_of(*value))),
{
    if !is_object(value) {
        return Err(DecodeError::MalformedPayload);
    }
    let data = match present(value, "data") {
        Some(found) => Some(decode_data(found)?),
        None => None,
    };
    let errors = decode_errors_field(value)?;
    Ok(GraphQLEnvelope { data, errors })
}

/// Holds a tree to the shape of the envelope that answers the mutation.
pub fn decode_assignment_envelope(value: &Value) -> (res: Result<
    GraphQLEnvelope<AssignAuthorData>,
    DecodeError,
>)
    ensures
        agrees(res, assignment_envelope_of(json_of(*value))),
{
    if !is_object(value) {
        return Err(DecodeError::MalformedPayload);
    }
    let data = match present(value, "data") {
        Some(found) => Some(decode_assign_data(found)?),
        None => None,
    };
    let errors = decode_errors_field(value)?;
    Ok(GraphQLEnvelope { data, errors })
}

/// What the bytes of an answer to the query decode to: the envelope, where
/// the bytes are JSON text of that shape.
pub open spec fn decoded_pull_request(text: Seq<u8>) -> Option<EnvelopeView<DataView>> {
    match parsed_json(text) {
        Some(json) => pull_request_envelope_of(json),
        None => None,
    }
}

/// What the bytes of an answer to the mutation decode to.
pub open spec fn decoded_assignment(text: Seq<u8>) -> Option<EnvelopeView<AssignDataView>> {
    match parsed_json(text) {
        Some(json) => assignment_envelope_of(json),
        None => None,
    }
}

/// Decodes the bytes of an answer to the query for the last pull request.
pub fn decode_pull_request(text: &[u8]) -> (res: Result<
    GraphQLEnvelope<ResponseData>,
    DecodeError,
>)
    ensures
        agrees(res, decoded_pull_request(text@)),
{
    match parse_value(text) {
        Ok(value) => decode_pull_request_envelope(&value),
        Err(_) => Err(DecodeError::MalformedPayload),
    }
}

/// Decodes the bytes of an answer to the mutation that assigns the author.
pub fn decode_assignment(text: &[u8]) -> (res: Result<
    GraphQLEnvelope<AssignAuthorData>,
    DecodeError,
>)
    ensures
        agrees(res, decoded_assignment(text@)),
{
    match parse_value(text) {
        Ok(value) => decode_assignment_envelope(&value),
        Err(_) => Err(DecodeError::MalformedPayload),
    }
}

} // verus!
