//! What rules and markers match, character by character.
use crate::ignore::{
    all_ascii, ascii_lowercase, ascii_lowered, hides, hides_ascii_cwd, hides_cwd, hides_prompt, lowercase,
    meets, meets_ascii_prompt, meets_prompt, names_prompts, MatcherModel,
};
use crate::markers::{builtin, marked, opens_with, shows_person, MarkerModel};
use crate::text::{
    is_white, occurs_in, ordered, stands_at, trimmed, trimmed_end, trimmed_start,
};
use vstd::prelude::*;

verus! {

// ---------------------------------------------------------------------------
// Text.
/// The characters that are white space.
pub proof fn law_white_space(c: char)
    ensures
        is_white(c) <==> {
            let n = c as u32;
            ||| n == 0x9 || n == 0xa || n == 0xb || n == 0xc || n == 0xd || n == 0x20
            ||| n == 0x85 || n == 0xa0 || n == 0x1680
            ||| n == 0x2000 || n == 0x2001 || n == 0x2002 || n == 0x2003 || n == 0x2004
            ||| n == 0x2005 || n == 0x2006 || n == 0x2007 || n == 0x2008 || n == 0x2009
            ||| n == 0x200a || n == 0x2028 || n == 0x2029 || n == 0x202f || n == 0x205f
            ||| n == 0x3000
        },
{
}

/// Taking white space from the start takes white space alone, and all of it.
pub proof fn law_trimming_the_start(s: Seq<char>)
    ensures
        ({
            let t = trimmed_start(s);
            let n = s.len() - t.len();
            &&& 0 <= n
            &&& s.skip(n) == t
            &&& forall|i: int| 0 <= i < n ==> is_white(#[trigger] s[i])
            &&& t.len() > 0 ==> !is_white(t[0])
        }),
    decreases s.len(),
{
    if s.len() > 0 && is_white(s[0]) {
        let u = s.skip(1);
        law_trimming_the_start(u);
        let t = trimmed_start(s);
        let n = s.len() - t.len();
        assert(s.skip(n) =~= u.skip(n - 1));
        assert forall|i: int| 0 <= i < n implies is_white(#[trigger] s[i]) by {
            if i > 0 {
                assert(u[i - 1] == s[i]);
            }
        }
    } else {
        assert(s.skip(0) =~= s);
    }
}

/// Taking white space from the end takes white space alone, and all of it.
pub proof fn law_trimming_the_end(s: Seq<char>)
    ensures
        ({
            let t = trimmed_end(s);
            let n = t.len() as int;
            &&& n <= s.len()
            &&& s.take(n) == t
            &&& forall|i: int| n <= i < s.len() ==> is_white(#[trigger] s[i])
            &&& t.len() > 0 ==> !is_white(t.last())
        }),
    decreases s.len(),
{
    if s.len() > 0 && is_white(s.last()) {
        let u = s.drop_last();
        law_trimming_the_end(u);
        let n = trimmed_end(s).len() as int;
        assert(s.take(n) =~= u.take(n));
        assert forall|i: int| n <= i < s.len() implies is_white(#[trigger] s[i]) by {
            if i < s.len() - 1 {
                assert(u[i] == s[i]);
            }
        }
    } else {
        assert(s.take(s.len() as int) =~= s);
    }
}

/// Trimming is taking white space from both ends.
pub proof fn law_trimming(s: Seq<char>)
    ensures
        trimmed(s) == trimmed_end(trimmed_start(s)),
        trimmed(s).len() > 0 ==> !is_white(trimmed(s)[0]) && !is_white(trimmed(s).last()),
        trimmed(s).len() == 0 ==> forall|i: int| 0 <= i < s.len() ==> is_white(#[trigger] s[i]),
{
    let t = trimmed_start(s);
    law_trimming_the_start(s);
    law_trimming_the_end(t);
    if trimmed(s).len() > 0 {
        assert(trimmed(s)[0] == t[0]);
    } else {
        assert forall|i: int| 0 <= i < s.len() implies is_white(#[trigger] s[i]) by {
            let n = s.len() - t.len();
            if i >= n {
                assert(t[i - n] == s[i]);
            }
        }
    }
}

/// One text occurs in another exactly where it can be found there, character for
/// character.
pub proof fn law_occurrences(needle: Seq<char>, hay: Seq<char>)
    ensures
        occurs_in(needle, hay) <==> exists|at: int|
            0 <= at <= hay.len() - needle.len() && #[trigger] agrees_from(needle, hay, at),
{
    if occurs_in(needle, hay) {
        let at = choose|at: int| stands_at(needle, hay, at);
        assert forall|k: int| 0 <= k < needle.len() implies hay[at + k] == #[trigger] needle[k] by {
            assert(hay.subrange(at, at + needle.len())[k] == needle[k]);
        }
        assert(agrees_from(needle, hay, at));
    }
    if exists|at: int|
        0 <= at <= hay.len() - needle.len() && #[trigger] agrees_from(needle, hay, at) {
        let at = choose|at: int|
            0 <= at <= hay.len() - needle.len() && #[trigger] agrees_from(needle, hay, at);
        assert(hay.subrange(at, at + needle.len()) =~= needle);
        assert(stands_at(needle, hay, at));
    }
}

/// Whether the characters of `hay` from `at` on are those of `needle`.
pub open spec fn agrees_from(needle: Seq<char>, hay: Seq<char>, at: int) -> bool {
    forall|k: int| 0 <= k < needle.len() ==> hay[at + k] == #[trigger] needle[k]
}

/// Of two texts the one comes first that has the smaller character where they first
/// differ, or ends there; a text does not come after itself.
pub proof fn law_order_of_texts(a: Seq<char>, b: Seq<char>, k: int)
    requires
        0 <= k <= a.len(),
        k <= b.len(),
        a.take(k) == b.take(k),
    ensures
        k == a.len() ==> ordered(a, b),
        k == a.len() && k < b.len() ==> !ordered(b, a),
        k < a.len() && k < b.len() && a[k] < b[k] ==> ordered(a, b) && !ordered(b, a),
    decreases k,
{
    if k > 0 {
        assert(a.take(k)[0] == a[0] && b.take(k)[0] == b[0]);
        assert(k < a.len() ==> a.skip(1)[k - 1] == a[k]);
        assert(k < b.len() ==> b.skip(1)[k - 1] == b[k]);
        assert(a.skip(1).take(k - 1) =~= a.take(k).skip(1));
        assert(b.skip(1).take(k - 1) =~= b.take(k).skip(1));
        law_order_of_texts(a.skip(1), b.skip(1), k - 1);
    }
}

// ---------------------------------------------------------------------------
// Rules.
/// A rule on directories is met by a directory that holds its text, in lower case
/// both, and by no prompt.
pub proof fn law_rules_on_directories(value: Seq<char>, text: Seq<char>)
    ensures
        ({
            let rule = MatcherModel::CwdContains { value };
            &&& rule.fires_on_cwd(text) <==> exists|at: int|
                0 <= at <= lowercase(text).len() - lowercase(value).len()
                    && #[trigger] agrees_from(lowercase(value), lowercase(text), at)
            &&& !rule.fires_on_prompt(text)
        }),
{
    law_occurrences(lowercase(value), lowercase(text));
}

/// A rule on prompts is met by a prompt that begins with its text, in lower case
/// and without leading white space both, and by no directory.
pub proof fn law_rules_on_prompts(value: Seq<char>, text: Seq<char>)
    ensures
        ({
            let rule = MatcherModel::FirstPromptPrefix { value };
            let head = lowercase(trimmed_start(value));
            let opening = lowercase(trimmed_start(text));
            &&& rule.fires_on_prompt(text) <==> head.len() <= opening.len() && agrees_from(
                head,
                opening,
                0,
            )
            &&& !rule.fires_on_cwd(text)
        }),
{
    let head = lowercase(trimmed_start(value));
    let opening = lowercase(trimmed_start(text));
    if head.is_prefix_of(opening) {
        assert forall|k: int| 0 <= k < head.len() implies opening[0 + k] == #[trigger] head[k] by {
            assert(opening.subrange(0, head.len() as int)[k] == head[k]);
        }
    }
    if head.len() <= opening.len() && agrees_from(head, opening, 0) {
        assert forall|k: int| 0 <= k < head.len() implies opening.subrange(
            0,
            head.len() as int,
        )[k] == head[k] by {
            assert(opening[0 + k] == head[k]);
        }
        assert(opening.subrange(0, head.len() as int) =~= head);
    }
}

/// Whether two ASCII characters are the same letter, in either case, or the same
/// character.
pub open spec fn same_letter(a: char, b: char) -> bool {
    ||| a == b
    ||| 'A' <= a <= 'Z' && b as u32 == a as u32 + 32
    ||| 'A' <= b <= 'Z' && a as u32 == b as u32 + 32
}

/// Whether the characters of `hay` from `at` on are those of `needle`, but for the
/// case of letters.
pub open spec fn reads_from(needle: Seq<char>, hay: Seq<char>, at: int) -> bool {
    forall|k: int| 0 <= k < needle.len() ==> same_letter(#[trigger] needle[k], hay[at + k])
}

/// Two ASCII characters have one lower case exactly where they are the same letter
/// or the same character.
pub proof fn law_lower_case(a: char, b: char)
    requires
        a <= '\u{7f}',
        b <= '\u{7f}',
    ensures
        ascii_lowered(a) == ascii_lowered(b) <==> same_letter(a, b),
{
}

/// In ASCII a rule on directories is met exactly by a directory that holds its
/// text, but for the case of letters.
pub proof fn law_ascii_rules_on_directories(value: Seq<char>, cwd: Seq<char>)
    requires
        forall|i: int| 0 <= i < value.len() ==> (#[trigger] value[i]) <= '\u{7f}',
        forall|i: int| 0 <= i < cwd.len() ==> (#[trigger] cwd[i]) <= '\u{7f}',
    ensures
        (MatcherModel::CwdContains { value }).fires_on_ascii_cwd(cwd) <==> exists|at: int|
            0 <= at <= cwd.len() - value.len() && #[trigger] reads_from(value, cwd, at),
        !(MatcherModel::CwdContains { value }).fires_on_ascii_prompt(cwd),
{
    let v = ascii_lowercase(value);
    let c = ascii_lowercase(cwd);
    law_occurrences(v, c);
    assert forall|at: int| 0 <= at <= cwd.len() - value.len() implies #[trigger] agrees_from(
        v,
        c,
        at,
    ) == reads_from(value, cwd, at) by {
        lemma_reads(value, cwd, at);
    }
    if exists|at: int| 0 <= at <= c.len() - v.len() && #[trigger] agrees_from(v, c, at) {
        let at = choose|at: int| 0 <= at <= c.len() - v.len() && #[trigger] agrees_from(v, c, at);
        assert(reads_from(value, cwd, at));
    }
    if exists|at: int| 0 <= at <= cwd.len() - value.len() && #[trigger] reads_from(value, cwd, at) {
        let at = choose|at: int|
            0 <= at <= cwd.len() - value.len() && #[trigger] reads_from(value, cwd, at);
        assert(agrees_from(v, c, at));
    }
}

proof fn lemma_reads(value: Seq<char>, text: Seq<char>, at: int)
    requires
        forall|i: int| 0 <= i < value.len() ==> (#[trigger] value[i]) <= '\u{7f}',
        forall|i: int| 0 <= i < text.len() ==> (#[trigger] text[i]) <= '\u{7f}',
        0 <= at <= text.len() - value.len(),
    ensures
        agrees_from(ascii_lowercase(value), ascii_lowercase(text), at) == reads_from(
            value,
            text,
            at,
        ),
{
    let v = ascii_lowercase(value);
    let c = ascii_lowercase(text);
    assert forall|k: int| 0 <= k < value.len() implies (c[at + k] == #[trigger] v[k])
        == same_letter(value[k], text[at + k]) by {
        law_lower_case(value[k], text[at + k]);
    }
    if agrees_from(v, c, at) {
        assert forall|k: int| 0 <= k < value.len() implies same_letter(
            #[trigger] value[k],
            text[at + k],
        ) by {
            assert(c[at + k] == v[k]);
        }
    }
    if reads_from(value, text, at) {
        assert forall|k: int| 0 <= k < v.len() implies c[at + k] == #[trigger] v[k] by {
            assert(same_letter(value[k], text[at + k]));
        }
    }
}

/// In ASCII a rule on prompts is met exactly by a prompt that begins with its text,
/// but for leading white space and the case of letters.
pub proof fn law_ascii_rules_on_prompts(value: Seq<char>, prompt: Seq<char>)
    requires
        forall|i: int| 0 <= i < value.len() ==> (#[trigger] value[i]) <= '\u{7f}',
        forall|i: int| 0 <= i < prompt.len() ==> (#[trigger] prompt[i]) <= '\u{7f}',
    ensures
        (MatcherModel::FirstPromptPrefix { value }).fires_on_ascii_prompt(prompt) <==> {
            &&& trimmed_start(value).len() <= trimmed_start(prompt).len()
            &&& reads_from(trimmed_start(value), trimmed_start(prompt), 0)
        },
        !(MatcherModel::FirstPromptPrefix { value }).fires_on_ascii_cwd(prompt),
{
    let a = trimmed_start(value);
    let b = trimmed_start(prompt);
    law_trimming_the_start(value);
    law_trimming_the_start(prompt);
    assert forall|i: int| 0 <= i < a.len() implies (#[trigger] a[i]) <= '\u{7f}' by {
        assert(a[i] == value[value.len() - a.len() + i]);
    }
    assert forall|i: int| 0 <= i < b.len() implies (#[trigger] b[i]) <= '\u{7f}' by {
        assert(b[i] == prompt[prompt.len() - b.len() + i]);
    }
    let v = ascii_lowercase(a);
    let c = ascii_lowercase(b);
    if a.len() <= b.len() {
        lemma_reads(a, b, 0);
        if agrees_from(v, c, 0) {
            assert forall|k: int| 0 <= k < v.len() implies c.subrange(0, v.len() as int)[k]
                == v[k] by {
                assert(c[0 + k] == v[k]);
            }
            assert(c.subrange(0, v.len() as int) =~= v);
        }
        if v.is_prefix_of(c) {
            assert forall|k: int| 0 <= k < v.len() implies c[0 + k] == #[trigger] v[k] by {
                assert(c.subrange(0, v.len() as int)[k] == v[k]);
            }
        }
    }
}

proof fn lemma_least_character(c: char)
    ensures
        '\0' <= c,
{
}

/// A rule is ASCII where every character of its text is.
pub proof fn law_ascii_rules(value: Seq<char>, rules: Seq<MatcherModel>, rule: MatcherModel)
    ensures
        (MatcherModel::CwdContains { value }).is_ascii() <==> forall|i: int|
            0 <= i < value.len() ==> (#[trigger] value[i]) <= '\u{7f}',
        (MatcherModel::FirstPromptPrefix { value }).is_ascii() <==> forall|i: int|
            0 <= i < value.len() ==> (#[trigger] value[i]) <= '\u{7f}',
        all_ascii(Seq::empty()),
        all_ascii(rules.push(rule)) == (all_ascii(rules) && rule.is_ascii()),
{
    assert forall|i: int| 0 <= i < value.len() implies '\0' <= #[trigger] value[i] by {
        lemma_least_character(value[i]);
    }
    let more = rules.push(rule);
    assert(more[rules.len() as int] == rule);
    assert(forall|i: int| 0 <= i < rules.len() ==> #[trigger] more[i] == rules[i]);
    assert(forall|i: int| 0 <= i < rules.len() ==> more[i] == #[trigger] rules[i]);
}

/// A list of rules is met exactly where one of them is: without rules nothing is,
/// and one rule more is met where it is met itself.
pub proof fn law_lists_of_rules(rules: Seq<MatcherModel>, rule: MatcherModel, text: Seq<char>)
    ensures
        ({
            let none = Seq::<MatcherModel>::empty();
            let more = rules.push(rule);
            &&& !hides_cwd(none, text)
            &&& !meets_prompt(none, text)
            &&& !hides_ascii_cwd(none, text)
            &&& !meets_ascii_prompt(none, text)
            &&& !names_prompts(none)
            &&& hides_cwd(more, text) == (hides_cwd(rules, text) || rule.fires_on_cwd(text))
            &&& meets_prompt(more, text) == (meets_prompt(rules, text) || rule.fires_on_prompt(
                text,
            ))
            &&& hides_ascii_cwd(more, text) == (hides_ascii_cwd(rules, text)
                || rule.fires_on_ascii_cwd(text))
            &&& meets_ascii_prompt(more, text) == (meets_ascii_prompt(rules, text)
                || rule.fires_on_ascii_prompt(text))
            &&& names_prompts(more) == (names_prompts(rules) || rule is FirstPromptPrefix)
        }),
{
    let more = rules.push(rule);
    assert(more[rules.len() as int] == rule);
    assert(forall|i: int| 0 <= i < rules.len() ==> #[trigger] more[i] == rules[i]);
    assert(forall|i: int| 0 <= i < rules.len() ==> more[i] == #[trigger] rules[i]);
}

/// What rules hide: a directory that meets one, and a prompt that does unless it
/// shows a person at the keyboard. Markers do not matter to the allowlist.
pub proof fn law_what_rules_hide(
    rules: Seq<MatcherModel>,
    cwd: Seq<char>,
    prompt: Option<Seq<char>>,
)
    ensures
        hides_cwd(rules, cwd) ==> hides(rules, cwd, prompt) && meets(rules, cwd, prompt),
        !hides_cwd(rules, cwd) && prompt is None ==> !hides(rules, cwd, prompt) && !meets(
            rules,
            cwd,
            prompt,
        ),
        !hides_cwd(rules, cwd) && prompt is Some ==> {
            &&& hides(rules, cwd, prompt) == (meets_prompt(rules, prompt->0) && !marked(prompt->0))
            &&& meets(rules, cwd, prompt) == meets_prompt(rules, prompt->0)
            &&& hides_prompt(rules, prompt->0) == (meets_prompt(rules, prompt->0) && !marked(
                prompt->0,
            ))
        },
{
}

/// The built-in markers are four openings, looked for past leading white space.
pub proof fn law_built_in_markers(text: Seq<char>)
    ensures
        marked(text) <==> {
            ||| "<command-"@.is_prefix_of(trimmed_start(text))
            ||| "<local-command-"@.is_prefix_of(trimmed_start(text))
            ||| "<ide_opened_file>"@.is_prefix_of(trimmed_start(text))
            ||| "<ide_selection>"@.is_prefix_of(trimmed_start(text))
        },
{
    let list = builtin();
    assert(list[0] == "<command-"@ && list[1] == "<local-command-"@);
    assert(list[2] == "<ide_opened_file>"@ && list[3] == "<ide_selection>"@);
}

/// A text opens with one of a list where it does with one of its members.
pub proof fn law_openings(text: Seq<char>, openings: Seq<Seq<char>>, opening: Seq<char>)
    ensures
        !opens_with(text, Seq::empty()),
        opens_with(text, openings.push(opening)) == (opens_with(text, openings)
            || opening.is_prefix_of(trimmed_start(text))),
{
    let more = openings.push(opening);
    assert(more[openings.len() as int] == opening);
    assert(forall|i: int| 0 <= i < openings.len() ==> #[trigger] more[i] == openings[i]);
    assert(forall|i: int| 0 <= i < openings.len() ==> more[i] == #[trigger] openings[i]);
}

/// A person shows by a built-in marker, which nothing takes away, or by one that the
/// user added for a person; one that was added for anything else counts for nothing.
pub proof fn law_added_markers(text: Seq<char>, rules: Seq<MarkerModel>, rule: MarkerModel)
    ensures
        shows_person(text, Seq::empty()) == marked(text),
        shows_person(text, rules.push(rule)) == (shows_person(text, rules) || (rule.human
            && rule.prefix.is_prefix_of(trimmed_start(text)))),
{
    let more = rules.push(rule);
    assert(more[rules.len() as int] == rule);
    assert(forall|i: int| 0 <= i < rules.len() ==> #[trigger] more[i] == rules[i]);
    assert(forall|i: int| 0 <= i < rules.len() ==> more[i] == #[trigger] rules[i]);
}

} // verus!
