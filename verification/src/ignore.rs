//! Rules that single sessions out by where they run or by how they open.
//!
//! Matching ignores case throughout. A rule on the first prompt is anchored to
//! its start and ignores leading white space.
use crate::markers::{is_marked, marked};
use crate::text::{
    begins_with, contains_text, is_white, occurs_in, same_text, stands_at, trim_start,
    trimmed_start,
};
use vstd::prelude::*;
use vstd::std_specs::iter::IteratorSpec;
use vstd::utf8::is_ascii_chars;

verus! {

/// The lower-case equivalent of a text, as `str::to_lowercase` gives it.
pub uninterp spec fn lowercase(s: Seq<char>) -> Seq<char>;

/// An ASCII letter in lower case, and any other character as it is.
pub open spec fn ascii_lowered(c: char) -> char {
    if 'A' <= c <= 'Z' {
        ((c as u8) + 32) as char
    } else {
        c
    }
}

/// A text with its ASCII letters in lower case.
pub open spec fn ascii_lowercase(s: Seq<char>) -> Seq<char> {
    s.map_values(|c: char| ascii_lowered(c))
}

/// Calls `str::to_lowercase`. The result is named `lowercase` and depends on
/// the text alone. Of a text that is ASCII throughout it is said that each letter
/// is lowered in its place and every other character stays.
#[verifier::external_body]
fn to_lowercase(s: &str) -> (r: String)
    ensures
        r@ == lowercase(s@),
        is_ascii_chars(s@) ==> r@ == ascii_lowercase(s@),
{
    s.to_lowercase()
}

/// One rule.
#[derive(PartialEq, Eq, Debug)]
pub enum Matcher {
    /// Matches a session whose working directory holds this text.
    CwdContains { value: String },
    /// Matches a session whose first prompt begins with this text.
    FirstPromptPrefix { value: String },
}

/// What a rule says, its text as characters.
pub enum MatcherModel {
    CwdContains { value: Seq<char> },
    FirstPromptPrefix { value: Seq<char> },
}

impl MatcherModel {
    /// Whether the rule is one on directories that `cwd` meets.
    pub open spec fn fires_on_cwd(self, cwd: Seq<char>) -> bool {
        match self {
            MatcherModel::CwdContains { value } => occurs_in(lowercase(value), lowercase(cwd)),
            MatcherModel::FirstPromptPrefix { .. } => false,
        }
    }

    /// Whether the rule is one on prompts that `prompt` meets.
    pub open spec fn fires_on_prompt(self, prompt: Seq<char>) -> bool {
        match self {
            MatcherModel::CwdContains { .. } => false,
            MatcherModel::FirstPromptPrefix { value } => lowercase(
                trimmed_start(value),
            ).is_prefix_of(lowercase(trimmed_start(prompt))),
        }
    }

    /// Whether the rule's text is ASCII throughout.
    pub open spec fn is_ascii(self) -> bool {
        match self {
            MatcherModel::CwdContains { value } => is_ascii_chars(value),
            MatcherModel::FirstPromptPrefix { value } => is_ascii_chars(value),
        }
    }

    /// Whether the rule is one on directories that `cwd` meets, both ASCII.
    pub open spec fn fires_on_ascii_cwd(self, cwd: Seq<char>) -> bool {
        match self {
            MatcherModel::CwdContains { value } => occurs_in(
                ascii_lowercase(value),
                ascii_lowercase(cwd),
            ),
            MatcherModel::FirstPromptPrefix { .. } => false,
        }
    }

    /// Whether the rule is one on prompts that `prompt` meets, both ASCII.
    pub open spec fn fires_on_ascii_prompt(self, prompt: Seq<char>) -> bool {
        match self {
            MatcherModel::CwdContains { .. } => false,
            MatcherModel::FirstPromptPrefix { value } => ascii_lowercase(
                trimmed_start(value),
            ).is_prefix_of(ascii_lowercase(trimmed_start(prompt))),
        }
    }
}

/// What is left of an ASCII text without its leading white space is ASCII.
proof fn lemma_trimmed_ascii(s: Seq<char>)
    requires
        is_ascii_chars(s),
    ensures
        is_ascii_chars(trimmed_start(s)),
    decreases s.len(),
{
    if s.len() > 0 && is_white(s[0]) {
        assert(is_ascii_chars(s.skip(1)));
        lemma_trimmed_ascii(s.skip(1));
    }
}

/// A directory that holds a rule's own text meets the rule, both ASCII, and so
/// does a prompt that begins with it.
pub proof fn law_own_text_is_met(value: Seq<char>, before: Seq<char>, after: Seq<char>)
    ensures
        (MatcherModel::CwdContains { value }).fires_on_ascii_cwd(before + value + after),
        value.len() > 0 && !is_white(value[0]) ==> (MatcherModel::FirstPromptPrefix {
            value,
        }).fires_on_ascii_prompt(value + after),
{
    let hay = ascii_lowercase(before + value + after);
    let needle = ascii_lowercase(value);
    let at = before.len() as int;
    assert(hay.subrange(at, at + needle.len()) =~= needle);
    assert(stands_at(needle, hay, at));
    if value.len() > 0 && !is_white(value[0]) {
        assert((value + after)[0] == value[0]);
        assert(ascii_lowercase(value + after).subrange(0, needle.len() as int) =~= needle);
    }
}

impl View for Matcher {
    type V = MatcherModel;

    open spec fn view(&self) -> MatcherModel {
        match self {
            Matcher::CwdContains { value } => MatcherModel::CwdContains { value: value@ },
            Matcher::FirstPromptPrefix { value } => MatcherModel::FirstPromptPrefix {
                value: value@,
            },
        }
    }
}

impl Clone for Matcher {
    fn clone(&self) -> (r: Matcher)
        ensures
            r@ == self@,
    {
        match self {
            Matcher::CwdContains { value } => Matcher::CwdContains { value: value.clone() },
            Matcher::FirstPromptPrefix { value } => Matcher::FirstPromptPrefix {
                value: value.clone(),
            },
        }
    }
}

/// Whether a directory meets a rule on directories, both already in lower case.
pub fn cwd_meets(cwd: &str, value: &str) -> (r: bool)
    ensures
        r == occurs_in(value@, cwd@),
{
    contains_text(cwd, value)
}

/// Whether a prompt meets a rule on prompts, both already without leading white
/// space and in lower case.
pub fn prompt_meets(prompt: &str, value: &str) -> (r: bool)
    ensures
        r == value@.is_prefix_of(prompt@),
{
    begins_with(prompt, value)
}

impl Matcher {
    /// Whether two rules say the same.
    pub fn same(&self, other: &Matcher) -> (r: bool)
        ensures
            r == (self@ == other@),
    {
        match (self, other) {
            (
                Matcher::CwdContains { value: a },
                Matcher::CwdContains { value: b },
            ) => same_text(a.as_str(), b.as_str()),
            (
                Matcher::FirstPromptPrefix { value: a },
                Matcher::FirstPromptPrefix { value: b },
            ) => same_text(a.as_str(), b.as_str()),
            _ => false,
        }
    }

    /// Whether this is a rule on directories that `cwd` meets.
    pub fn fires_on_cwd(&self, cwd: &str) -> (r: bool)
        ensures
            r == self@.fires_on_cwd(cwd@),
            self@.is_ascii() && is_ascii_chars(cwd@) ==> r == self@.fires_on_ascii_cwd(cwd@),
    {
        match self {
            Matcher::CwdContains { value } => cwd_meets(
                to_lowercase(cwd).as_str(),
                to_lowercase(value.as_str()).as_str(),
            ),
            Matcher::FirstPromptPrefix { .. } => false,
        }
    }

    /// Whether this is a rule on prompts that `prompt` meets.
    pub fn fires_on_prompt(&self, prompt: &str) -> (r: bool)
        ensures
            r == self@.fires_on_prompt(prompt@),
            self@.is_ascii() && is_ascii_chars(prompt@) ==> r == self@.fires_on_ascii_prompt(
                prompt@,
            ),
    {
        proof {
            if self@.is_ascii() && is_ascii_chars(prompt@) {
                lemma_trimmed_ascii(prompt@);
                if let MatcherModel::FirstPromptPrefix { value } = self@ {
                    lemma_trimmed_ascii(value);
                }
            }
        }
        match self {
            Matcher::CwdContains { .. } => false,
            Matcher::FirstPromptPrefix { value } => prompt_meets(
                to_lowercase(trim_start(prompt)).as_str(),
                to_lowercase(trim_start(value.as_str())).as_str(),
            ),
        }
    }
}

/// Whether some rule on directories is met by `cwd`.
pub open spec fn hides_cwd(rules: Seq<MatcherModel>, cwd: Seq<char>) -> bool {
    exists|i: int| 0 <= i < rules.len() && (#[trigger] rules[i]).fires_on_cwd(cwd)
}

/// Whether some rule on prompts is met by `prompt`.
pub open spec fn meets_prompt(rules: Seq<MatcherModel>, prompt: Seq<char>) -> bool {
    exists|i: int| 0 <= i < rules.len() && (#[trigger] rules[i]).fires_on_prompt(prompt)
}

/// Whether rules hide a session that opens with `prompt`: one on prompts is met,
/// and the opening does not show a person at the keyboard.
pub open spec fn hides_prompt(rules: Seq<MatcherModel>, prompt: Seq<char>) -> bool {
    meets_prompt(rules, prompt) && !marked(prompt)
}

/// Whether `rule` is the first of the rules on directories that `cwd` meets.
pub open spec fn first_on_cwd(
    rules: Seq<MatcherModel>,
    cwd: Seq<char>,
    rule: MatcherModel,
) -> bool {
    exists|i: int|
        0 <= i < rules.len() && rule == #[trigger] rules[i] && rules[i].fires_on_cwd(cwd)
            && forall|j: int| 0 <= j < i ==> !(#[trigger] rules[j]).fires_on_cwd(cwd)
}

/// Whether `rule` is the first of the rules on prompts that `prompt` meets.
pub open spec fn first_on_prompt(
    rules: Seq<MatcherModel>,
    prompt: Seq<char>,
    rule: MatcherModel,
) -> bool {
    exists|i: int|
        0 <= i < rules.len() && rule == #[trigger] rules[i] && rules[i].fires_on_prompt(prompt)
            && forall|j: int| 0 <= j < i ==> !(#[trigger] rules[j]).fires_on_prompt(prompt)
}

/// Whether every rule's text is ASCII throughout.
pub open spec fn all_ascii(rules: Seq<MatcherModel>) -> bool {
    forall|i: int| 0 <= i < rules.len() ==> (#[trigger] rules[i]).is_ascii()
}

/// Whether some rule on directories is met by `cwd`, all of them ASCII.
pub open spec fn hides_ascii_cwd(rules: Seq<MatcherModel>, cwd: Seq<char>) -> bool {
    exists|i: int| 0 <= i < rules.len() && (#[trigger] rules[i]).fires_on_ascii_cwd(cwd)
}

/// Whether some rule on prompts is met by `prompt`, all of them ASCII.
pub open spec fn meets_ascii_prompt(rules: Seq<MatcherModel>, prompt: Seq<char>) -> bool {
    exists|i: int| 0 <= i < rules.len() && (#[trigger] rules[i]).fires_on_ascii_prompt(prompt)
}

/// Whether some rule is met by the directory or, where it is known, the prompt.
pub open spec fn meets(
    rules: Seq<MatcherModel>,
    cwd: Seq<char>,
    prompt: Option<Seq<char>>,
) -> bool {
    hides_cwd(rules, cwd) || (prompt matches Some(p) && meets_prompt(rules, p))
}

/// Whether rules hide a session by its directory or, where it is known, by its
/// first prompt.
pub open spec fn hides(
    rules: Seq<MatcherModel>,
    cwd: Seq<char>,
    prompt: Option<Seq<char>>,
) -> bool {
    hides_cwd(rules, cwd) || (prompt matches Some(p) && hides_prompt(rules, p))
}

/// Whether some rule is one on prompts.
pub open spec fn names_prompts(rules: Seq<MatcherModel>) -> bool {
    exists|i: int| 0 <= i < rules.len() && (#[trigger] rules[i]) is FirstPromptPrefix
}

/// A list of rules, in the order in which they were declared.
#[derive(Debug)]
pub struct IgnoreRules {
    matchers: Vec<Matcher>,
}

impl View for IgnoreRules {
    type V = Seq<MatcherModel>;

    closed spec fn view(&self) -> Seq<MatcherModel> {
        rules_of(self.matchers@)
    }
}

/// What the rules of a list say, in its order.
pub open spec fn rules_of(matchers: Seq<Matcher>) -> Seq<MatcherModel> {
    Seq::new(matchers.len(), |i: int| matchers[i]@)
}

/// A copy of a list of rules.
pub fn copy_rules(matchers: &Vec<Matcher>) -> (r: Vec<Matcher>)
    ensures
        rules_of(r@) == rules_of(matchers@),
{
    let mut out: Vec<Matcher> = Vec::new();
    let mut i: usize = 0;
    while i < matchers.len()
        invariant
            i <= matchers.len(),
            out.len() == i,
            forall|j: int| 0 <= j < i ==> (#[trigger] out[j])@ == matchers[j]@,
        decreases matchers.len() - i,
    {
        out.push(matchers[i].clone());
        i += 1;
    }
    assert(rules_of(out@) =~= rules_of(matchers@));
    out
}

impl Clone for IgnoreRules {
    fn clone(&self) -> (r: IgnoreRules)
        ensures
            r@ == self@,
    {
        IgnoreRules { matchers: copy_rules(&self.matchers) }
    }
}

impl Default for IgnoreRules {
    /// No rules.
    fn default() -> (r: IgnoreRules)
        ensures
            r@ == Seq::<MatcherModel>::empty(),
    {
        let r = IgnoreRules { matchers: Vec::new() };
        assert(r@ =~= Seq::empty());
        r
    }
}

impl IgnoreRules {
    /// The given rules.
    pub fn new(matchers: Vec<Matcher>) -> (r: IgnoreRules)
        ensures
            r@ == rules_of(matchers@),
    {
        IgnoreRules { matchers }
    }

    /// The rules that come with a fresh installation: none.
    pub fn defaults() -> (r: Vec<Matcher>)
        ensures
            r@.len() == 0,
    {
        Vec::new()
    }

    /// The rules, in the order in which they were declared.
    pub fn iter(&self) -> (r: std::slice::Iter<'_, Matcher>)
        ensures
            r.remaining().len() == self@.len(),
            forall|i: int| 0 <= i < self@.len() ==> (#[trigger] r.remaining()[i])@ == self@[i],
    {
        self.matchers.as_slice().iter()
    }

    /// A copy of these rules with `matcher` behind them.
    pub fn with(&self, matcher: Matcher) -> (r: IgnoreRules)
        ensures
            r@ == self@.push(matcher@),
    {
        let mut out = copy_rules(&self.matchers);
        let ghost before = out@;
        out.push(matcher);
        let r = IgnoreRules { matchers: out };
        assert(r@ =~= rules_of(before).push(matcher@));
        r
    }

    /// Whether some rule is one on prompts.
    pub fn has_prompt_rules(&self) -> (r: bool)
        ensures
            r == names_prompts(self@),
    {
        let mut i: usize = 0;
        while i < self.matchers.len()
            invariant
                i <= self.matchers.len(),
                self@ == rules_of(self.matchers@),
                forall|j: int| 0 <= j < i ==> !((#[trigger] self@[j]) is FirstPromptPrefix),
            decreases self.matchers.len() - i,
        {
            if let Matcher::FirstPromptPrefix { .. } = &self.matchers[i] {
                assert(self@[i as int] is FirstPromptPrefix);
                return true;
            }
            i += 1;
        }
        false
    }

    /// The first rule on directories that `cwd` meets.
    pub fn first_cwd_match(&self, cwd: &str) -> (r: Option<Matcher>)
        ensures
            r is Some <==> hides_cwd(self@, cwd@),
            all_ascii(self@) && is_ascii_chars(cwd@) ==> (r is Some <==> hides_ascii_cwd(
                self@,
                cwd@,
            )),
            r matches Some(m) ==> first_on_cwd(self@, cwd@, m@),
    {
        let mut i: usize = 0;
        while i < self.matchers.len()
            invariant
                i <= self.matchers.len(),
                self@ == rules_of(self.matchers@),
                forall|j: int| 0 <= j < i ==> !(#[trigger] self@[j]).fires_on_cwd(cwd@),
                all_ascii(self@) && is_ascii_chars(cwd@) ==> forall|j: int|
                    0 <= j < i ==> !(#[trigger] self@[j]).fires_on_ascii_cwd(cwd@),
            decreases self.matchers.len() - i,
        {
            if self.matchers[i].fires_on_cwd(cwd) {
                assert(self@[i as int].fires_on_cwd(cwd@));
                assert(all_ascii(self@) && is_ascii_chars(cwd@)
                    ==> self@[i as int].fires_on_ascii_cwd(cwd@));
                return Some(self.matchers[i].clone());
            }
            i += 1;
        }
        None
    }

    /// The first rule on prompts that `prompt` meets.
    pub fn first_prompt_match(&self, prompt: &str) -> (r: Option<Matcher>)
        ensures
            r is Some <==> meets_prompt(self@, prompt@),
            all_ascii(self@) && is_ascii_chars(prompt@) ==> (r is Some <==> meets_ascii_prompt(
                self@,
                prompt@,
            )),
            r matches Some(m) ==> first_on_prompt(self@, prompt@, m@),
    {
        let mut i: usize = 0;
        while i < self.matchers.len()
            invariant
                i <= self.matchers.len(),
                self@ == rules_of(self.matchers@),
                forall|j: int| 0 <= j < i ==> !(#[trigger] self@[j]).fires_on_prompt(prompt@),
                all_ascii(self@) && is_ascii_chars(prompt@) ==> forall|j: int|
                    0 <= j < i ==> !(#[trigger] self@[j]).fires_on_ascii_prompt(prompt@),
            decreases self.matchers.len() - i,
        {
            if self.matchers[i].fires_on_prompt(prompt) {
                assert(self@[i as int].fires_on_prompt(prompt@));
                assert(all_ascii(self@) && is_ascii_chars(prompt@)
                    ==> self@[i as int].fires_on_ascii_prompt(prompt@));
                return Some(self.matchers[i].clone());
            }
            i += 1;
        }
        None
    }

    /// Whether some rule on directories is met by `cwd`.
    pub fn cwd_hidden(&self, cwd: &str) -> (r: bool)
        ensures
            r == hides_cwd(self@, cwd@),
            all_ascii(self@) && is_ascii_chars(cwd@) ==> r == hides_ascii_cwd(self@, cwd@),
    {
        self.first_cwd_match(cwd).is_some()
    }

    /// Whether rules hide a session that opens with `prompt`: one on prompts is
    /// met, and the opening does not show a person at the keyboard.
    pub fn prompt_hidden(&self, prompt: &str) -> (r: bool)
        ensures
            r == hides_prompt(self@, prompt@),
            all_ascii(self@) && is_ascii_chars(prompt@) ==> r == (meets_ascii_prompt(
                self@,
                prompt@,
            ) && !marked(prompt@)),
    {
        !is_marked(prompt) && self.first_prompt_match(prompt).is_some()
    }

    /// Whether some rule is met by the directory or, where it is known, the prompt.
    pub fn matches(&self, cwd: &str, prompt: Option<&str>) -> (r: bool)
        ensures
            r == meets(
                self@,
                cwd@,
                match prompt {
                    Some(p) => Some(p@),
                    None => None,
                },
            ),
    {
        if self.cwd_hidden(cwd) {
            return true;
        }
        match prompt {
            Some(p) => self.first_prompt_match(p).is_some(),
            None => false,
        }
    }
}

} // verus!
