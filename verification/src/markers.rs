//! Openings that show a person at the keyboard.
use crate::text::{begins_with, trim_start, trimmed_start};
use vstd::prelude::*;

verus! {

/// The openings that the coding tool itself writes when a person types a slash
/// command or works in an editor.
pub open spec fn builtin() -> Seq<Seq<char>> {
    seq!["<command-"@, "<local-command-"@, "<ide_opened_file>"@, "<ide_selection>"@]
}

/// Whether a text opens, past leading white space, with one of these.
pub open spec fn opens_with(text: Seq<char>, openings: Seq<Seq<char>>) -> bool {
    exists|i: int|
        0 <= i < openings.len() && (#[trigger] openings[i]).is_prefix_of(trimmed_start(text))
}

/// Whether a text opens with one of the built-in markers.
pub open spec fn marked(text: Seq<char>) -> bool {
    opens_with(text, builtin())
}

/// The built-in markers.
pub fn builtin_human() -> (r: Vec<&'static str>)
    ensures
        r@.len() == builtin().len(),
        forall|i: int| 0 <= i < r@.len() ==> (#[trigger] r@[i])@ == builtin()[i],
{
    vec!["<command-", "<local-command-", "<ide_opened_file>", "<ide_selection>"]
}

/// Whether a text opens with one of the built-in markers.
pub fn is_marked(text: &str) -> (r: bool)
    ensures
        r == marked(text@),
{
    let head = trim_start(text);
    let markers = builtin_human();
    let mut i: usize = 0;
    while i < markers.len()
        invariant
            i <= markers.len(),
            markers@.len() == builtin().len(),
            forall|j: int| 0 <= j < markers@.len() ==> (#[trigger] markers@[j])@ == builtin()[j],
            head@ == trimmed_start(text@),
            forall|j: int| 0 <= j < i ==> !(#[trigger] builtin()[j]).is_prefix_of(head@),
        decreases markers.len() - i,
    {
        if begins_with(head, markers[i]) {
            assert(builtin()[i as int].is_prefix_of(trimmed_start(text@)));
            return true;
        }
        assert(!builtin()[i as int].is_prefix_of(head@));
        i += 1;
    }
    false
}

/// An opening that the user adds to the built-in ones.
#[derive(Debug, PartialEq, Eq)]
pub struct MarkerRule {
    pub prefix: String,
    /// Whether it shows a person at the keyboard.
    pub human: bool,
}

pub struct MarkerModel {
    pub prefix: Seq<char>,
    pub human: bool,
}

impl View for MarkerRule {
    type V = MarkerModel;

    open spec fn view(&self) -> MarkerModel {
        MarkerModel { prefix: self.prefix@, human: self.human }
    }
}

impl Clone for MarkerRule {
    fn clone(&self) -> (r: MarkerRule)
        ensures
            r@ == self@,
    {
        MarkerRule { prefix: self.prefix.clone(), human: self.human }
    }
}

/// What the markers of a list say, in its order.
pub open spec fn markers_of(rules: Seq<MarkerRule>) -> Seq<MarkerModel> {
    Seq::new(rules.len(), |i: int| rules[i]@)
}

/// A copy of a list of markers.
pub fn copy_markers(rules: &Vec<MarkerRule>) -> (r: Vec<MarkerRule>)
    ensures
        markers_of(r@) == markers_of(rules@),
{
    let mut out: Vec<MarkerRule> = Vec::new();
    let mut i: usize = 0;
    while i < rules.len()
        invariant
            i <= rules.len(),
            out.len() == i,
            forall|j: int| 0 <= j < i ==> (#[trigger] out[j])@ == rules[j]@,
        decreases rules.len() - i,
    {
        out.push(rules[i].clone());
        i += 1;
    }
    assert(markers_of(out@) =~= markers_of(rules@));
    out
}

/// Whether a text opens with a built-in marker, or with one of these that shows
/// a person at the keyboard. The built-in ones cannot be taken away.
pub open spec fn shows_person(text: Seq<char>, rules: Seq<MarkerModel>) -> bool {
    marked(text) || exists|i: int|
        0 <= i < rules.len() && (#[trigger] rules[i]).human && rules[i].prefix.is_prefix_of(
            trimmed_start(text),
        )
}

/// Whether a text opens with a built-in marker, or with one of these that shows
/// a person at the keyboard.
pub fn is_human(text: &str, rules: &Vec<MarkerRule>) -> (r: bool)
    ensures
        r == shows_person(text@, markers_of(rules@)),
{
    if is_marked(text) {
        return true;
    }
    let head = trim_start(text);
    let mut i: usize = 0;
    while i < rules.len()
        invariant
            i <= rules.len(),
            head@ == trimmed_start(text@),
            forall|j: int|
                0 <= j < i ==> !((#[trigger] markers_of(rules@)[j]).human && markers_of(
                    rules@,
                )[j].prefix.is_prefix_of(head@)),
        decreases rules.len() - i,
    {
        if rules[i].human && begins_with(head, rules[i].prefix.as_str()) {
            assert(markers_of(rules@)[i as int].human);
            return true;
        }
        i += 1;
    }
    false
}

} // verus!
