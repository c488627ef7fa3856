//! What holds of the user's scripts, their names and their examples.
use crate::cli_alert::{
    arguments, example_extension, example_states, extensions, filename, filenames, flight_key,
    is_stub, no_stub, seeds, slug, stub_source, StubInvocation, BAT_HEAD, BAT_NAME, BAT_TAIL, BAT_TITLE, SH_HEAD,
    SH_NAME, SH_TAIL, SH_TITLE,
};
use crate::label::Platform;
use crate::session::State;
use crate::text::{occurs_in, stands_at};
use vstd::prelude::*;

verus! {

/// The words for the states differ, and in length at that; none holds a dot or a
/// colon.
proof fn lemma_slugs(state: State)
    ensures
        slug(State::NeedsYou).len() == 9,
        slug(State::Working).len() == 7,
        slug(State::Ready).len() == 5,
        slug(State::WaitingReview).len() == 14,
        forall|i: int|
            0 <= i < slug(state).len() ==> #[trigger] slug(state)[i] != '.' && slug(state)[i]
                != ':',
{
    reveal_strlit("needs_you");
    reveal_strlit("working");
    reveal_strlit("ready");
    reveal_strlit("waiting_review");
    assert(slug(State::NeedsYou).len() == 9);
    assert(slug(State::Working).len() == 7);
    assert(slug(State::Ready).len() == 5);
    assert(slug(State::WaitingReview).len() == 14);
}

proof fn lemma_punctuation()
    ensures
        "."@ == seq!['.'],
        ":"@ == seq![':'],
        "on_"@.len() == 3,
{
    reveal_strlit(".");
    reveal_strlit(":");
    reveal_strlit("on_");
    assert("."@ =~= seq!['.']);
    assert(":"@ =~= seq![':']);
    assert("on_"@.len() == 3);
}

/// The word for each state.
pub proof fn law_words(state: State)
    ensures
        state == State::NeedsYou ==> slug(state) == "needs_you"@,
        state == State::Working ==> slug(state) == "working"@,
        state == State::Ready ==> slug(state) == "ready"@,
        state == State::WaitingReview ==> slug(state) == "waiting_review"@,
{
}

/// Every platform has an extension; each is a bare word, and none stands twice.
pub proof fn law_extensions(platform: Platform, i: int, j: int)
    requires
        0 <= i < extensions(platform).len(),
        0 <= j < extensions(platform).len(),
    ensures
        extensions(platform).len() >= 1,
        extensions(platform)[i].len() > 0,
        !extensions(platform)[i].contains('.'),
        i != j ==> extensions(platform)[i] != extensions(platform)[j],
{
    reveal_strlit("exe");
    reveal_strlit("bat");
    reveal_strlit("cmd");
    reveal_strlit("sh");
    reveal_strlit("command");
    assert("exe"@.len() == 3 && "bat"@.len() == 3 && "cmd"@.len() == 3);
    assert("sh"@.len() == 2 && "command"@.len() == 7);
    assert("exe"@[0] == 'e' && "bat"@[0] == 'b' && "cmd"@[0] == 'c');
    let e = extensions(platform)[i];
    assert(forall|k: int| 0 <= k < e.len() ==> #[trigger] e[k] != '.');
}

/// What a Windows host runs, no other host does, and the other way round.
pub proof fn law_foreign_extensions(platform: Platform, i: int, j: int)
    requires
        platform != Platform::Windows,
        0 <= i < extensions(Platform::Windows).len(),
        0 <= j < extensions(platform).len(),
    ensures
        extensions(Platform::Windows)[i] != extensions(platform)[j],
{
    reveal_strlit("exe");
    reveal_strlit("bat");
    reveal_strlit("cmd");
    reveal_strlit("sh");
    reveal_strlit("command");
    assert("exe"@.len() == 3 && "bat"@.len() == 3 && "cmd"@.len() == 3);
    assert("sh"@.len() == 2 && "command"@.len() == 7);
}

/// Two words without a dot that make the same file name are the same word, with
/// the same extension.
proof fn lemma_filename_parts(w1: Seq<char>, e1: Seq<char>, w2: Seq<char>, e2: Seq<char>)
    requires
        filename(w1, e1) == filename(w2, e2),
        forall|i: int| 0 <= i < w1.len() ==> #[trigger] w1[i] != '.',
        forall|i: int| 0 <= i < w2.len() ==> #[trigger] w2[i] != '.',
        !e1.contains('.'),
        !e2.contains('.'),
    ensures
        w1 == w2,
        e1 == e2,
{
    lemma_punctuation();
    let n1 = filename(w1, e1);
    let n2 = filename(w2, e2);
    let a = w1.len() as int;
    let b = w2.len() as int;
    assert(n1.len() == 4 + a + e1.len());
    assert(n2.len() == 4 + b + e2.len());
    assert(n1[3 + a] == '.');
    assert(n2[3 + b] == '.');
    if a < b {
        assert(n2[3 + a] == w2[a]);
    }
    if b < a {
        assert(n1[3 + b] == w1[b]);
    }
    assert(w1 =~= n1.subrange(3, 3 + a));
    assert(w2 =~= n2.subrange(3, 3 + b));
    assert(e1 =~= n1.skip(4 + a));
    assert(e2 =~= n2.skip(4 + b));
}

/// No two states share a script, and a state has no name twice.
pub proof fn law_filenames_do_not_collide(
    platform: Platform,
    s1: State,
    i: int,
    s2: State,
    j: int,
)
    requires
        0 <= i < filenames(s1, platform).len(),
        0 <= j < filenames(s2, platform).len(),
        filenames(s1, platform)[i] == filenames(s2, platform)[j],
    ensures
        s1 == s2,
        i == j,
{
    lemma_slugs(s1);
    lemma_slugs(s2);
    law_extensions(platform, i, j);
    law_extensions(platform, j, i);
    lemma_filename_parts(
        slug(s1),
        extensions(platform)[i],
        slug(s2),
        extensions(platform)[j],
    );
}

/// A script of one session and state keeps no other from running: their keys
/// differ.
pub proof fn law_keys_do_not_collide(id1: Seq<char>, s1: State, id2: Seq<char>, s2: State)
    requires
        flight_key(id1, s1) == flight_key(id2, s2),
    ensures
        id1 == id2,
        s1 == s2,
{
    lemma_punctuation();
    lemma_slugs(s1);
    lemma_slugs(s2);
    let k1 = flight_key(id1, s1);
    let k2 = flight_key(id2, s2);
    let a = slug(s1);
    let b = slug(s2);
    assert(k1.len() == id1.len() + 1 + a.len());
    assert(k2.len() == id2.len() + 1 + b.len());
    assert(k1[id1.len() as int] == ':');
    assert(k2[id2.len() as int] == ':');
    if id1.len() < id2.len() {
        assert(k1[id2.len() as int] == a[id2.len() - id1.len() - 1]);
    }
    if id2.len() < id1.len() {
        assert(k2[id1.len() as int] == b[id1.len() - id2.len() - 1]);
    }
    assert(id1 =~= k1.take(id1.len() as int));
    assert(id2 =~= k2.take(id2.len() as int));
}

/// Giving a key back undoes taking it, and neither touches another key.
pub proof fn law_release_undoes_claim(running: Set<Seq<char>>, key: Seq<char>, other: Seq<char>)
    requires
        !running.contains(key),
        other != key,
    ensures
        running.insert(key).remove(key) == running,
        running.insert(key).contains(other) == running.contains(other),
        running.remove(key).contains(other) == running.contains(other),
{
    assert(running.insert(key).remove(key) =~= running);
}

/// A script is given four arguments: the state's word, the project, the branch and
/// the descriptor, each as it is. A branch or a descriptor that is missing is an
/// empty argument, and one that is there is never dropped.
pub proof fn law_four_arguments(inv: StubInvocation)
    ensures
        arguments(inv).len() == 4,
        arguments(inv)[0] == slug(inv.state),
        arguments(inv)[1] == inv.project@,
        inv.branch is Some ==> arguments(inv)[2] == inv.branch->0@,
        inv.branch is None ==> arguments(inv)[2].len() == 0,
        inv.descriptor is Some ==> arguments(inv)[3] == inv.descriptor->0@,
        inv.descriptor is None ==> arguments(inv)[3].len() == 0,
{
}

/// Two runs with the same arguments were for the same state and project, and for
/// the same branch and descriptor where both had one: nothing of them is lost.
pub proof fn law_arguments_tell_all(a: StubInvocation, b: StubInvocation)
    requires
        arguments(a) == arguments(b),
    ensures
        a.state == b.state,
        a.project@ == b.project@,
        a.branch is Some && b.branch is Some ==> a.branch->0@ == b.branch->0@,
        a.descriptor is Some && b.descriptor is Some ==> a.descriptor->0@ == b.descriptor->0@,
        a.branch is Some && b.branch is None ==> a.branch->0@.len() == 0,
        a.descriptor is Some && b.descriptor is None ==> a.descriptor->0@.len() == 0,
{
    law_four_arguments(a);
    law_four_arguments(b);
    lemma_slugs(a.state);
    lemma_slugs(b.state);
    assert(arguments(a)[0] == arguments(b)[0]);
    assert(arguments(a)[1] == arguments(b)[1]);
    assert(arguments(a)[2] == arguments(b)[2]);
    assert(arguments(a)[3] == arguments(b)[3]);
}

/// The name of a script is `on_`, the word of its state, a dot and the extension,
/// and the names for a state go through the extensions in their order.
pub proof fn law_filenames_read(
    word: Seq<char>,
    ext: Seq<char>,
    state: State,
    platform: Platform,
    i: int,
)
    requires
        0 <= i < extensions(platform).len(),
    ensures
        ({
            let name = filename(word, ext);
            let n = word.len() as int;
            &&& name.len() == 4 + word.len() + ext.len()
            &&& name[0] == 'o' && name[1] == 'n' && name[2] == '_'
            &&& name.subrange(3, 3 + n) == word
            &&& name[3 + n] == '.'
            &&& name.skip(4 + n) == ext
        }),
        filenames(state, platform).len() == extensions(platform).len(),
        filenames(state, platform)[i] == filename(slug(state), extensions(platform)[i]),
{
    reveal_strlit(".");
    reveal_strlit("on_");
    assert("."@.len() == 1 && "."@[0] == '.');
    assert("on_"@.len() == 3 && "on_"@[0] == 'o' && "on_"@[1] == 'n' && "on_"@[2] == '_');
    let name = filename(word, ext);
    let n = word.len() as int;
    assert(name.subrange(3, 3 + n) =~= word);
    assert(name.skip(4 + n) =~= ext);
}

/// The script that runs is the one whose name comes first among those that are
/// files, and none runs exactly where none is.
pub proof fn law_the_first_script_runs(
    is_file: Seq<bool>,
    state: State,
    platform: Platform,
    name: Seq<char>,
    k: int,
)
    requires
        is_file.len() == filenames(state, platform).len(),
        0 <= k < is_file.len(),
        is_file[k],
        forall|j: int| 0 <= j < k ==> !#[trigger] is_file[j],
    ensures
        is_stub(is_file, state, platform, name) <==> name == filenames(state, platform)[k],
        !no_stub(is_file),
{
    if is_stub(is_file, state, platform, name) {
        let i = choose|i: int|
            0 <= i < is_file.len() && #[trigger] is_file[i] && name == filenames(state, platform)[i]
                && forall|j: int| 0 <= j < i ==> !#[trigger] is_file[j];
        assert(i == k);
    }
}

/// Without a file no script runs.
pub proof fn law_without_files_no_script_runs(
    is_file: Seq<bool>,
    state: State,
    platform: Platform,
    name: Seq<char>,
)
    requires
        forall|j: int| 0 <= j < is_file.len() ==> !#[trigger] is_file[j],
    ensures
        no_stub(is_file),
        !is_stub(is_file, state, platform, name),
{
}

/// What is written for a missing example is that example: its text is the one for
/// the word in its name and the platform's extension.
pub proof fn law_seeds_hold_their_text(platform: Platform, exists: Seq<bool>, n: int, k: int)
    requires
        exists.len() == 3,
        0 <= n <= 3,
        0 <= k < seeds(platform, exists, n).len(),
    ensures
        exists|j: int| {
            let word = slug(#[trigger] example_states()[j]);
            &&& 0 <= j < n
            &&& !exists[j]
            &&& seeds(platform, exists, n)[k].0 == filename(word, example_extension(platform))
            &&& seeds(platform, exists, n)[k].1 == stub_source(word, example_extension(platform))
        },
    decreases n,
{
    if n > 0 {
        let less = seeds(platform, exists, n - 1);
        let list = seeds(platform, exists, n);
        if k < less.len() {
            law_seeds_hold_their_text(platform, exists, n - 1, k);
            assert(list[k] == less[k]);
            let j = choose|j: int| {
                let word = slug(#[trigger] example_states()[j]);
                &&& 0 <= j < n - 1
                &&& !exists[j]
                &&& less[k].0 == filename(word, example_extension(platform))
                &&& less[k].1 == stub_source(word, example_extension(platform))
            };
            assert(example_states()[j] == example_states()[j]);
        } else {
            assert(!exists[n - 1]);
            assert(example_states()[n - 1] == example_states()[n - 1]);
        }
    }
}

/// An example script names itself, and begins as its kind of script does.
pub proof fn law_example_names_itself(word: Seq<char>, ext: Seq<char>)
    ensures
        occurs_in("on_"@ + word, stub_source(word, ext)),
        ext == "bat"@ ==> BAT_HEAD@.is_prefix_of(stub_source(word, ext)),
        ext != "bat"@ ==> SH_HEAD@.is_prefix_of(stub_source(word, ext)),
{
    let name = "on_"@ + word;
    let source = stub_source(word, ext);
    if ext == "bat"@ {
        let front = BAT_HEAD@ + word + BAT_TITLE@ + word + BAT_NAME@;
        assert(source =~= front + name + BAT_TAIL@);
        assert(source.subrange(
            front.len() as int,
            (front.len() + name.len()) as int,
        ) =~= name);
        assert(stands_at(name, source, front.len() as int));
        assert(source.subrange(0, BAT_HEAD@.len() as int) =~= BAT_HEAD@);
    } else {
        let front = SH_HEAD@ + word + SH_TITLE@ + word + SH_NAME@;
        assert(source =~= front + name + SH_TAIL@);
        assert(source.subrange(
            front.len() as int,
            (front.len() + name.len()) as int,
        ) =~= name);
        assert(stands_at(name, source, front.len() as int));
        assert(source.subrange(0, SH_HEAD@.len() as int) =~= SH_HEAD@);
    }
}

/// An example script holds its word in three places: as the name of its log folder,
/// in the title of its log, and in its own name; all else is the same for every
/// word.
pub proof fn law_example_holds_its_word(word: Seq<char>, ext: Seq<char>)
    ensures
        ({
            let source = stub_source(word, ext);
            let n = word.len();
            let (head, title, name, tail) = if ext == "bat"@ {
                (BAT_HEAD@, BAT_TITLE@, BAT_NAME@, BAT_TAIL@)
            } else {
                (SH_HEAD@, SH_TITLE@, SH_NAME@, SH_TAIL@)
            };
            let a = head.len() as int;
            let b = a + n + title.len();
            let c = b + n + name.len();
            let d = c + 3 + n;
            &&& source.len() == d + tail.len()
            &&& stands_at(head, source, 0)
            &&& stands_at(word, source, a)
            &&& stands_at(title, source, a + n)
            &&& stands_at(word, source, b)
            &&& stands_at(name, source, b + n)
            &&& stands_at("on_"@ + word, source, c)
            &&& stands_at(tail, source, d)
        }),
{
    lemma_punctuation();
    let source = stub_source(word, ext);
    let n = word.len();
    let (head, title, name, tail) = if ext == "bat"@ {
        (BAT_HEAD@, BAT_TITLE@, BAT_NAME@, BAT_TAIL@)
    } else {
        (SH_HEAD@, SH_TITLE@, SH_NAME@, SH_TAIL@)
    };
    let a = head.len() as int;
    let b = a + n + title.len();
    let c = b + n + name.len();
    let d = c + 3 + n;
    assert(source.subrange(0, a) =~= head);
    assert(source.subrange(a, a + n) =~= word);
    assert(source.subrange(a + n, b) =~= title);
    assert(source.subrange(b, b + n) =~= word);
    assert(source.subrange(b + n, c) =~= name);
    assert(source.subrange(c, d) =~= "on_"@ + word);
    assert(source.subrange(d, d + tail.len()) =~= tail);
}

/// The name of the example script for the state at place `i`.
pub open spec fn example_name(platform: Platform, i: int) -> Seq<char> {
    filename(slug(example_states()[i]), example_extension(platform))
}

proof fn lemma_example_names_differ(platform: Platform, i: int, j: int)
    requires
        0 <= i < 3,
        0 <= j < 3,
        i != j,
    ensures
        example_name(platform, i) != example_name(platform, j),
{
    lemma_slugs(example_states()[i]);
    lemma_slugs(example_states()[j]);
    reveal_strlit("bat");
    reveal_strlit("sh");
    let e = example_extension(platform);
    assert("bat"@.len() == 3 && "sh"@.len() == 2);
    assert(forall|k: int| 0 <= k < e.len() ==> #[trigger] e[k] != '.');
    if example_name(platform, i) == example_name(platform, j) {
        lemma_filename_parts(slug(example_states()[i]), e, slug(example_states()[j]), e);
    }
}

/// Seeding writes each example script that is missing and overwrites none that
/// is there.
pub proof fn law_seeding_overwrites_nothing(platform: Platform, exists: Seq<bool>, n: int, i: int)
    requires
        exists.len() == 3,
        0 <= i < n <= 3,
    ensures
        exists[i] <==> forall|k: int|
            0 <= k < seeds(platform, exists, n).len() ==> (#[trigger] seeds(
                platform,
                exists,
                n,
            )[k]).0 != example_name(platform, i),
    decreases n,
{
    lemma_seed_names(platform, exists, n);
    let list = seeds(platform, exists, n);
    if exists[i] {
        assert forall|k: int| 0 <= k < list.len() implies (#[trigger] list[k]).0 != example_name(
            platform,
            i,
        ) by {
            assert(is_missing(platform, exists, n, list[k].0));
            let j = choose|j: int|
                0 <= j < n && !exists[j] && list[k].0 == #[trigger] example_name(platform, j);
            lemma_example_names_differ(platform, i, j);
        }
    } else {
        lemma_seed_written(platform, exists, n, i);
    }
}

/// Whether this is the name of one of the first `n` example scripts, and that
/// one is missing.
spec fn is_missing(platform: Platform, exists: Seq<bool>, n: int, name: Seq<char>) -> bool {
    exists|j: int| 0 <= j < n && !exists[j] && name == #[trigger] example_name(platform, j)
}

proof fn lemma_seed_names(platform: Platform, exists: Seq<bool>, n: int)
    requires
        exists.len() == 3,
        0 <= n <= 3,
    ensures
        forall|k: int|
            0 <= k < seeds(platform, exists, n).len() ==> is_missing(
                platform,
                exists,
                n,
                (#[trigger] seeds(platform, exists, n)[k]).0,
            ),
    decreases n,
{
    if n > 0 {
        lemma_seed_names(platform, exists, n - 1);
        let less = seeds(platform, exists, n - 1);
        let list = seeds(platform, exists, n);
        assert forall|k: int| 0 <= k < list.len() implies is_missing(
            platform,
            exists,
            n,
            (#[trigger] list[k]).0,
        ) by {
            if k < less.len() {
                assert(list[k] == less[k]);
                assert(is_missing(platform, exists, n - 1, less[k].0));
            } else {
                assert(list[k].0 == example_name(platform, n - 1));
            }
        }
    }
}

proof fn lemma_seed_written(platform: Platform, exists: Seq<bool>, n: int, i: int)
    requires
        exists.len() == 3,
        0 <= i < n <= 3,
        !exists[i],
    ensures
        exists|k: int|
            0 <= k < seeds(platform, exists, n).len() && (#[trigger] seeds(
                platform,
                exists,
                n,
            )[k]).0 == example_name(platform, i),
    decreases n,
{
    let less = seeds(platform, exists, n - 1);
    let list = seeds(platform, exists, n);
    if i < n - 1 {
        lemma_seed_written(platform, exists, n - 1, i);
        let k = choose|k: int|
            0 <= k < less.len() && (#[trigger] less[k]).0 == example_name(platform, i);
        assert(list[k] == less[k]);
    } else {
        assert(list[less.len() as int].0 == example_name(platform, i));
    }
}

} // verus!
