//! Repository identifiers of the form `owner/name`.

use vstd::prelude::*;

verus! {

/// The character that parts the owner of a repository from its name.
pub open spec fn is_separator(c: char) -> bool {
    c == '/'
}

/// Length of the leading run of `s` that holds no separator: the index of the
/// first separator, or the length of `s` where it has none.
pub open spec fn segment_len(s: Seq<char>) -> nat
    decreases s.len(),
{
    if s.len() == 0 || is_separator(s[0]) {
        0
    } else {
        1 + segment_len(s.drop_first())
    }
}

/// Whether `s` holds a separator at all.
pub open spec fn has_separator(s: Seq<char>) -> bool {
    segment_len(s) < s.len()
}

/// The segment before the first separator.
pub open spec fn owner_of(s: Seq<char>) -> Seq<char> {
    s.take(segment_len(s) as int)
}

/// What follows the first separator. Meaningful where `has_separator(s)`.
pub open spec fn after_owner(s: Seq<char>) -> Seq<char> {
    s.skip(segment_len(s) as int + 1)
}

/// The segment between the first separator and the second one (or the end).
pub open spec fn name_of(s: Seq<char>) -> Seq<char> {
    owner_of(after_owner(s))
}

/// The inputs that name a repository: a separator is present, and the segments
/// on both of its sides are non-empty.
pub open spec fn is_repository_name(s: Seq<char>) -> bool {
    &&& has_separator(s)
    &&& owner_of(s).len() > 0
    &&& name_of(s).len() > 0
}

/// Why an input was not accepted as a repository identifier.
#[derive(Debug, Clone, Copy, PartialEq, Eq, Structural)]
pub enum ParseError {
    /// The input is not of the form `owner/name` with both parts non-empty.
    InvalidRepositoryFormat,
}

/// The text that `ParseError::message` returns.
pub open spec fn invalid_format_message() -> Seq<char> {
    "wrong format for the repository name param (we expect something like facebook/graphql)"@
}

impl ParseError {
    /// A description for the user; it shows an example of the expected format.
    pub fn message(&self) -> (text: &'static str)
        ensures
            text@ == invalid_format_message(),
    {
        "wrong format for the repository name param (we expect something like facebook/graphql)"
    }
}

/// `segment_len` stays within the sequence, passes over no separator and stops
/// on one unless it reaches the end.
pub proof fn lemma_segment_len_bounds(s: Seq<char>)
    ensures
        segment_len(s) <= s.len(),
        forall|k: int| 0 <= k < segment_len(s) ==> !is_separator(#[trigger] s[k]),
        segment_len(s) < s.len() ==> is_separator(s[segment_len(s) as int]),
    decreases s.len(),
{
    if s.len() == 0 || is_separator(s[0]) {
    } else {
        let t = s.drop_first();
        lemma_segment_len_bounds(t);
        assert forall|k: int| 0 <= k < segment_len(s) implies !is_separator(#[trigger] s[k]) by {
            if k > 0 {
                assert(s[k] == t[k - 1]);
            }
        }
        if segment_len(s) < s.len() {
            assert(s[segment_len(s) as int] == t[segment_len(t) as int]);
        }
    }
}

/// An index that no separator precedes and that is the end or a separator is
/// the one `segment_len` gives.
pub proof fn lemma_segment_len_unique(s: Seq<char>, i: int)
    requires
        0 <= i <= s.len(),
        forall|k: int| 0 <= k < i ==> !is_separator(#[trigger] s[k]),
        i == s.len() || is_separator(s[i]),
    ensures
        segment_len(s) == i,
    decreases s.len(),
{
    if i == 0 {
    } else {
        let t = s.drop_first();
        assert(!is_separator(s[0]));
        assert forall|k: int| 0 <= k < i - 1 implies !is_separator(#[trigger] t[k]) by {
            assert(t[k] == s[k + 1]);
        }
        if i < s.len() {
            assert(t[i - 1] == s[i]);
        }
        lemma_segment_len_unique(t, i - 1);
    }
}

/// Index of the first separator of `s` at or after `start`, or `len` where
/// none follows.
fn segment_end(s: &str, start: usize, len: usize) -> (end: usize)
    requires
        len == s@.len(),
        start <= len,
    ensures
        start <= end <= len,
        end == start + segment_len(s@.skip(start as int)),
{
    let mut i: usize = start;
    while i < len && s.get_char(i) != '/'
        invariant
            len == s@.len(),
            start <= i <= len,
            forall|k: int| start <= k < i ==> !is_separator(#[trigger] s@[k]),
        decreases len - i,
    {
        i = i + 1;
    }
    proof {
        let rest = s@.skip(start as int);
        assert forall|k: int| 0 <= k < i - start implies !is_separator(#[trigger] rest[k]) by {
            assert(rest[k] == s@[start + k]);
        }
        lemma_segment_len_unique(rest, i - start);
    }
    i
}

/// Splits `repo_name` into the owner and the name of a repository.
///
/// The owner is what stands before the first `/`, the name what stands between
/// it and the next `/` (or the end). The input is accepted exactly where a `/`
/// is present and both parts are non-empty.
pub fn parse_repo_name(repo_name: &str) -> (res: Result<(&str, &str), ParseError>)
    ensures
        res is Ok <==> is_repository_name(repo_name@),
        res is Ok ==> res->Ok_0.0@ == owner_of(repo_name@) && res->Ok_0.1@ == name_of(
            repo_name@,
        ),
        res is Err ==> res->Err_0 == ParseError::InvalidRepositoryFormat,
{
    let len: usize = repo_name.unicode_len();
    let owner_end: usize = segment_end(repo_name, 0, len);
    assert(repo_name@.skip(0) =~= repo_name@);
    if owner_end == 0 || owner_end >= len {
        return Err(ParseError::InvalidRepositoryFormat);
    }
    let name_start: usize = owner_end + 1;
    let name_end: usize = segment_end(repo_name, name_start, len);
    if name_end == name_start {
        return Err(ParseError::InvalidRepositoryFormat);
    }
    let owner = repo_name.substring_char(0, owner_end);
    let name = repo_name.substring_char(name_start, name_end);
    assert(owner@ =~= owner_of(repo_name@));
    assert(name@ =~= name_of(repo_name@));
    Ok((owner, name))
}

/// A repository, named by its owner and its own name. Both are non-empty.
#[derive(Debug, PartialEq, Eq)]
pub struct RepositoryRef {
    owner: String,
    name: String,
}

impl RepositoryRef {
    #[verifier::type_invariant]
    spec fn wf(self) -> bool {
        self.owner@.len() > 0 && self.name@.len() > 0
    }

    /// The owner, as a sequence of characters.
    pub closed spec fn owner_view(self) -> Seq<char> {
        self.owner@
    }

    /// The name, as a sequence of characters.
    pub closed spec fn name_view(self) -> Seq<char> {
        self.name@
    }

    /// Reads a repository identifier of the form `owner/name`.
    pub fn parse(input: &str) -> (res: Result<RepositoryRef, ParseError>)
        ensures
            res is Ok <==> is_repository_name(input@),
            res is Ok ==> res->Ok_0.owner_view() == owner_of(input@) && res->Ok_0.name_view()
                == name_of(input@),
            res is Err ==> res->Err_0 == ParseError::InvalidRepositoryFormat,
    {
        match parse_repo_name(input) {
            Ok((owner, name)) => Ok(
                RepositoryRef { owner: owner.to_owned(), name: name.to_owned() },
            ),
            Err(e) => Err(e),
        }
    }

    /// The owner of the repository.
    pub fn owner(&self) -> (text: &str)
        ensures
            text@ == self.owner_view(),
            text@.len() > 0,
    {
        proof {
            use_type_invariant(self);
        }
        self.owner.as_str()
    }

    /// The name of the repository.
    pub fn name(&self) -> (text: &str)
        ensures
            text@ == self.name_view(),
            text@.len() > 0,
    {
        proof {
            use_type_invariant(self);
        }
        self.name.as_str()
    }
}

impl Clone for RepositoryRef {
    fn clone(&self) -> (copy: Self)
        ensures
            copy.owner_view() == self.owner_view(),
            copy.name_view() == self.name_view(),
    {
        proof {
            use_type_invariant(self);
        }
        RepositoryRef { owner: self.owner.clone(), name: self.name.clone() }
    }
}

/// Every input with a separator and non-empty segments on both sides of the
/// first one is accepted, and its parts are those two segments: `i` is the
/// index of the first separator, `j` the end of the segment after it.
pub proof fn lemma_parts_are_segments_around_first_separator(s: Seq<char>, i: int, j: int)
    requires
        0 < i < s.len(),
        is_separator(s[i]),
        forall|k: int| 0 <= k < i ==> !is_separator(#[trigger] s[k]),
        i + 1 < j <= s.len(),
        forall|k: int| i < k < j ==> !is_separator(#[trigger] s[k]),
        j == s.len() || is_separator(s[j]),
    ensures
        is_repository_name(s),
        owner_of(s) == s.subrange(0, i),
        name_of(s) == s.subrange(i + 1, j),
{
    lemma_segment_len_unique(s, i);
    let rest = s.skip(i + 1);
    assert forall|k: int| 0 <= k < j - i - 1 implies !is_separator(#[trigger] rest[k]) by {
        assert(rest[k] == s[i + 1 + k]);
    }
    lemma_segment_len_unique(rest, j - i - 1);
    assert(owner_of(s) =~= s.subrange(0, i));
    assert(name_of(s) =~= s.subrange(i + 1, j));
}

/// Neither part of a repository identifier holds a separator.
pub proof fn lemma_parts_hold_no_separator(s: Seq<char>)
    requires
        is_repository_name(s),
    ensures
        forall|k: int| 0 <= k < owner_of(s).len() ==> !is_separator(#[trigger] owner_of(s)[k]),
        forall|k: int| 0 <= k < name_of(s).len() ==> !is_separator(#[trigger] name_of(s)[k]),
{
    lemma_segment_len_bounds(s);
    lemma_segment_len_bounds(after_owner(s));
}

/// An input without any separator is no repository identifier.
pub proof fn lemma_no_separator_rejected(s: Seq<char>)
    requires
        forall|k: int| 0 <= k < s.len() ==> !is_separator(#[trigger] s[k]),
    ensures
        !is_repository_name(s),
{
    lemma_segment_len_unique(s, s.len() as int);
}

} // verus!
