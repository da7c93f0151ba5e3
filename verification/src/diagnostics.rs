//! What is shown of the errors that the server reports.

use crate::response::{GraphQLError, GraphQLErrorView, PathSegment, SegmentView};
use crate::text::{signed_decimal, signed_decimal_of};
use vstd::prelude::*;
use vstd::string::StringExecFns;

verus! {

/// The text of one step of a path: the key itself, or the index in decimal.
pub open spec fn segment_text(segment: SegmentView) -> Seq<char> {
    match segment {
        SegmentView::Key(key) => key,
        SegmentView::Index(index) => signed_decimal_of(index as int),
    }
}

/// The text of a path: its steps, with a dot between each two.
pub open spec fn path_text(path: Seq<SegmentView>) -> Seq<char>
    decreases path.len(),
{
    if path.len() == 0 {
        Seq::empty()
    } else if path.len() == 1 {
        segment_text(path[0])
    } else {
        path_text(path.drop_last()) + seq!['.'] + segment_text(path.last())
    }
}

/// What is shown of one error: its message, and its path where it has one.
#[derive(Debug, Clone, PartialEq, Eq)]
pub struct Diagnostic {
    pub message: String,
    pub path: Option<String>,
}

/// A `Diagnostic` as plain values.
pub ghost struct DiagnosticView {
    pub message: Seq<char>,
    pub path: Option<Seq<char>>,
}

impl View for Diagnostic {
    type V = DiagnosticView;

    open spec fn view(&self) -> DiagnosticView {
        DiagnosticView {
            message: self.message@,
            path: match self.path {
                Some(path) => Some(path@),
                None => None,
            },
        }
    }
}

/// What is shown of `error`.
pub open spec fn diagnostic_of(error: GraphQLErrorView) -> DiagnosticView {
    DiagnosticView {
        message: error.message,
        path: match error.path {
            Some(path) => Some(path_text(path)),
            None => None,
        },
    }
}

/// The line that shows a diagnostic: the message, followed by the path in
/// parentheses where there is one.
pub open spec fn diagnostic_line(diagnostic: DiagnosticView) -> Seq<char> {
    match diagnostic.path {
        Some(path) => diagnostic.message + seq![' ', '(', 'a', 't', ' '] + path + seq![')'],
        None => diagnostic.message,
    }
}

/// Writes one step of a path.
fn render_segment(segment: &PathSegment) -> (text: String)
    ensures
        text@ == segment_text(segment.deep_view()),
{
    match segment {
        PathSegment::Key(key) => key.clone(),
        PathSegment::Index(index) => signed_decimal(*index),
    }
}

/// Writes a path, its steps parted by dots.
pub fn render_path(path: &Vec<PathSegment>) -> (text: String)
    ensures
        text@ == path_text(path.deep_view()),
{
    let mut text = String::new();
    let mut i: usize = 0;
    while i < path.len()
        invariant
            i <= path@.len(),
            text@ == path_text(path.deep_view().take(i as int)),
        decreases path@.len() - i,
    {
        let segment = render_segment(&path[i]);
        if i > 0 {
            text.append(".");
        }
        text.append(segment.as_str());
        proof {
            reveal_strlit(".");
            let before = path.deep_view().take(i as int);
            let after = path.deep_view().take(i + 1);
            assert(after.drop_last() =~= before);
            assert(after.last() == path@[i as int].deep_view());
            assert("."@ =~= seq!['.']);
            assert(text@ =~= path_text(after));
        }
        i = i + 1;
    }
    assert(path.deep_view().take(i as int) =~= path.deep_view());
    text
}

impl Diagnostic {
    /// What is shown of `error`.
    pub fn of(error: &GraphQLError) -> (diagnostic: Diagnostic)
        ensures
            diagnostic@ == diagnostic_of(error.deep_view()),
    {
        let path = match &error.path {
            Some(path) => Some(render_path(path)),
            None => None,
        };
        Diagnostic { message: error.message.clone(), path }
    }

    /// The line that shows this diagnostic.
    pub fn line(&self) -> (text: String)
        ensures
            text@ == diagnostic_line(self@),
    {
        let mut text = self.message.clone();
        match &self.path {
            Some(path) => {
                proof {
                    reveal_strlit(" (at ");
                    reveal_strlit(")");
                }
                text.append(" (at ");
                text.append(path.as_str());
                text.append(")");
                assert(" (at "@ =~= seq![' ', '(', 'a', 't', ' ']);
                assert(")"@ =~= seq![')']);
                assert(text@ =~= diagnostic_line(self@));
            },
            None => {},
        }
        text
    }
}

/// Whether `diagnostics` shows each of `errors`, in their order, and nothing else.
pub open spec fn shows_each(diagnostics: Seq<Diagnostic>, errors: Seq<GraphQLErrorView>) -> bool {
    &&& diagnostics.len() == errors.len()
    &&& forall|i: int|
        0 <= i < errors.len() ==> (#[trigger] diagnostics[i])@ == diagnostic_of(errors[i])
}

/// Turns the errors that the server reported into what is shown of them: one
/// diagnostic for each error, in the same order.
pub fn report(errors: &Vec<GraphQLError>) -> (diagnostics: Vec<Diagnostic>)
    ensures
        shows_each(diagnostics@, errors.deep_view()),
{
    let mut diagnostics: Vec<Diagnostic> = Vec::new();
    let mut i: usize = 0;
    while i < errors.len()
        invariant
            i <= errors@.len(),
            shows_each(diagnostics@, errors.deep_view().take(i as int)),
        decreases errors@.len() - i,
    {
        diagnostics.push(Diagnostic::of(&errors[i]));
        i = i + 1;
    }
    assert(errors.deep_view().take(i as int) =~= errors.deep_view());
    diagnostics
}

} // verus!
