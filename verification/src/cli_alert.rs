//! Scripts of the user's own that run when a session enters a state.
//!
//! Which script runs and what it is given is fixed by convention: a file in one
//! folder, named for the state, called with the same four arguments each time.
use crate::label::{copy_text, Platform};
use crate::session::State;
use crate::table::Table;
use crate::text::same_text;
use crate::time::{Duration, NANOS_PER_SEC};
use vstd::prelude::*;
use vstd::string::*;

verus! {

/// The folder that holds the scripts.
pub const ALERTS_DIR: &'static str = "alerts";

/// Seconds after which a script that is still running is killed.
pub const MAX_STUB_RUNTIME_SECS: u64 = 30;

/// Milliseconds between two looks at a running script.
pub const REAP_POLL_MILLIS: u64 = 100;

// ---------------------------------------------------------------------------
// Names.
/// The word for a state in file names and arguments.
pub open spec fn slug(state: State) -> Seq<char> {
    match state {
        State::NeedsYou => "needs_you"@,
        State::Working => "working"@,
        State::Ready => "ready"@,
        State::WaitingReview => "waiting_review"@,
    }
}

/// The word for a state in file names and arguments.
pub fn state_slug(state: State) -> (r: &'static str)
    ensures
        r@ == slug(state),
{
    match state {
        State::NeedsYou => "needs_you",
        State::Working => "working",
        State::Ready => "ready",
        State::WaitingReview => "waiting_review",
    }
}

/// The extensions of what a platform runs without a shell, the first to be
/// preferred.
pub open spec fn extensions(platform: Platform) -> Seq<Seq<char>> {
    match platform {
        Platform::Windows => seq!["exe"@, "bat"@, "cmd"@],
        Platform::MacOs => seq!["sh"@, "command"@],
        Platform::Other => seq!["sh"@],
    }
}

/// The texts of a list.
pub open spec fn texts(list: Seq<&'static str>) -> Seq<Seq<char>> {
    Seq::new(list.len(), |i: int| list[i]@)
}

/// The extensions of what a platform runs without a shell, the first to be
/// preferred.
pub fn stub_extensions(platform: Platform) -> (r: Vec<&'static str>)
    ensures
        texts(r@) == extensions(platform),
{
    let r: Vec<&'static str> = match platform {
        Platform::Windows => vec!["exe", "bat", "cmd"],
        Platform::MacOs => vec!["sh", "command"],
        Platform::Other => vec!["sh"],
    };
    assert(texts(r@) =~= extensions(platform));
    r
}

/// The name of the script for a state.
pub open spec fn filename(word: Seq<char>, ext: Seq<char>) -> Seq<char> {
    "on_"@ + word + "."@ + ext
}

/// The names that the script for a state may have, the first to be preferred.
pub open spec fn filenames(state: State, platform: Platform) -> Seq<Seq<char>> {
    Seq::new(
        extensions(platform).len(),
        |i: int| filename(slug(state), extensions(platform)[i]),
    )
}

/// The texts of a list of strings.
pub open spec fn string_texts(list: Seq<String>) -> Seq<Seq<char>> {
    Seq::new(list.len(), |i: int| list[i]@)
}

fn file_name_for(word: &str, ext: &str) -> (r: String)
    ensures
        r@ == filename(word@, ext@),
{
    let mut name = "on_".to_owned();
    name.append(word);
    name.append(".");
    name.append(ext);
    name
}

/// The names that the script for a state may have, the first to be preferred.
pub fn stub_filenames(state: State, platform: Platform) -> (r: Vec<String>)
    ensures
        string_texts(r@) == filenames(state, platform),
{
    let exts = stub_extensions(platform);
    let mut out: Vec<String> = Vec::new();
    let mut i: usize = 0;
    while i < exts.len()
        invariant
            i <= exts.len(),
            texts(exts@) == extensions(platform),
            out.len() == i,
            forall|j: int| 0 <= j < i ==> (#[trigger] out[j])@ == filenames(state, platform)[j],
        decreases exts.len() - i,
    {
        assert(texts(exts@)[i as int] == exts@[i as int]@);
        out.push(file_name_for(state_slug(state), exts[i]));
        i += 1;
    }
    assert(exts@.len() == texts(exts@).len());
    assert(string_texts(out@) =~= filenames(state, platform));
    out
}

/// Whether `name` is the first name of a state's script that is a file.
pub open spec fn is_stub(
    is_file: Seq<bool>,
    state: State,
    platform: Platform,
    name: Seq<char>,
) -> bool {
    exists|i: int|
        0 <= i < is_file.len() && #[trigger] is_file[i] && name == filenames(state, platform)[i]
            && forall|j: int| 0 <= j < i ==> !#[trigger] is_file[j]
}

/// Whether no name is a file.
pub open spec fn no_stub(is_file: Seq<bool>) -> bool {
    forall|i: int| 0 <= i < is_file.len() ==> !#[trigger] is_file[i]
}

/// The name of the script to run for a state, where `is_file` says of each name
/// that it may have whether there is a file of that name: the first there is.
pub fn resolve_in(is_file: &Vec<bool>, state: State, platform: Platform) -> (r: Option<String>)
    requires
        is_file@.len() == filenames(state, platform).len(),
    ensures
        match r {
            Some(name) => is_stub(is_file@, state, platform, name@),
            None => no_stub(is_file@),
        },
{
    let names = stub_filenames(state, platform);
    assert(string_texts(names@).len() == names@.len());
    let mut i: usize = 0;
    while i < is_file.len()
        invariant
            i <= is_file.len(),
            names@.len() == is_file@.len(),
            string_texts(names@) == filenames(state, platform),
            forall|j: int| 0 <= j < i ==> !#[trigger] is_file@[j],
        decreases is_file.len() - i,
    {
        if is_file[i] {
            assert(string_texts(names@)[i as int] == names@[i as int]@);
            assert(is_file@[i as int]);
            return Some(names[i].clone());
        }
        i += 1;
    }
    None
}

/// The folder of the scripts, once it is known.
pub struct AlertsFolder {
    dir: Option<String>,
}

impl View for AlertsFolder {
    type V = Option<Seq<char>>;

    closed spec fn view(&self) -> Option<Seq<char>> {
        self.dir.deep_view()
    }
}

impl AlertsFolder {
    /// A folder that is not known yet.
    pub fn new() -> (r: AlertsFolder)
        ensures
            r@ is None,
    {
        AlertsFolder { dir: None }
    }

    /// Takes in where the folder is. Once known it stays.
    pub fn settle(&mut self, dir: String)
        ensures
            final(self)@ == (if old(self)@ is Some {
                old(self)@
            } else {
                Some(dir@)
            }),
    {
        if self.dir.is_none() {
            self.dir = Some(dir);
        }
    }

    /// Where the folder is.
    pub fn alerts_dir(&self) -> (r: Option<String>)
        ensures
            r.deep_view() == self@,
    {
        copy_text(&self.dir)
    }

    /// The script to run for a state, folder and name, where `is_file` says of
    /// each name that it may have whether there is a file of that name in the
    /// folder. None without a folder.
    pub fn stub_for(&self, is_file: &Vec<bool>, state: State, platform: Platform) -> (r: Option<
        (String, String),
    >)
        requires
            is_file@.len() == filenames(state, platform).len(),
        ensures
            match r {
                Some((dir, name)) => self@ == Some(dir@) && is_stub(
                    is_file@,
                    state,
                    platform,
                    name@,
                ),
                None => self@ is None || no_stub(is_file@),
            },
    {
        match &self.dir {
            Some(dir) => match resolve_in(is_file, state, platform) {
                Some(name) => Some((dir.clone(), name)),
                None => None,
            },
            None => None,
        }
    }
}

// ---------------------------------------------------------------------------
// Examples.
/// The states that an example script comes with.
pub open spec fn example_states() -> Seq<State> {
    seq![State::NeedsYou, State::Ready, State::WaitingReview]
}

/// The states that an example script comes with.
pub fn example_stub_states() -> (r: Vec<State>)
    ensures
        r@ == example_states(),
{
    let r: Vec<State> = vec![State::NeedsYou, State::Ready, State::WaitingReview];
    assert(r@ =~= example_states());
    r
}

/// The extension of an example script: one that can be read.
pub open spec fn example_extension(platform: Platform) -> Seq<char> {
    match platform {
        Platform::Windows => "bat"@,
        _ => "sh"@,
    }
}

/// The extension of an example script: one that can be read.
pub fn example_stub_extension(platform: Platform) -> (r: &'static str)
    ensures
        r@ == example_extension(platform),
{
    match platform {
        Platform::Windows => "bat",
        _ => "sh",
    }
}

/// The batch script up to the name of its log folder.
pub const BAT_HEAD: &'static str = "@echo off
setlocal
set \"STATE=%~1\"
set \"PROJECT=%~2\"
set \"BRANCH=%~3\"
set \"DESCRIPTOR=%~4\"
set \"LOGDIR=%~dp0logs\\";

/// From there to the title of its log.
pub const BAT_TITLE: &'static str = "\"
if not exist \"%LOGDIR%\" mkdir \"%LOGDIR%\" >nul 2>&1
set \"LOGFILE=%LOGDIR%\\log.txt\"
if not exist \"%LOGFILE%\" (
  >\"%LOGFILE%\" echo # Session Signals -- ";

/// From there to its own name.
pub const BAT_NAME: &'static str = " stub log
  >>\"%LOGFILE%\" echo # Written by ";

/// The rest of it.
pub const BAT_TAIL: &'static str = ".bat, a working example stub shipped
  >>\"%LOGFILE%\" echo # with Session Signals. Every time this state's \"Run script\"
  >>\"%LOGFILE%\" echo # toggle is on in Settings and the alert fires -- or you press
  >>\"%LOGFILE%\" echo # Test -- this script appends one line below: the time, then
  >>\"%LOGFILE%\" echo # the four positional arguments Session Signals always passes.
  >>\"%LOGFILE%\" echo(
)
>>\"%LOGFILE%\" echo %DATE% %TIME% state=%STATE% project=%PROJECT% branch=%BRANCH% descriptor=%DESCRIPTOR%
endlocal
";

/// The shell script up to the name of its log folder.
pub const SH_HEAD: &'static str = "#!/bin/sh
STATE=\"$1\"
PROJECT=\"$2\"
BRANCH=\"$3\"
DESCRIPTOR=\"$4\"
DIR=\"$(CDPATH= cd -- \"$(dirname -- \"$0\")\" && pwd)\"
LOGDIR=\"$DIR/logs/";

/// From there to the title of its log.
pub const SH_TITLE: &'static str = "\"
mkdir -p \"$LOGDIR\"
LOGFILE=\"$LOGDIR/log.txt\"
if [ ! -f \"$LOGFILE\" ]; then
  {
    echo \"# Session Signals -- ";

/// From there to its own name.
pub const SH_NAME: &'static str = " stub log\"
    echo \"# Written by ";

/// The rest of it.
pub const SH_TAIL: &'static str = ".sh, a working example stub shipped with\"
    echo \"# Session Signals. Every time this state's \\\"Run script\\\" toggle\"
    echo \"# is on in Settings and the alert fires -- or you press Test --\"
    echo \"# this script appends one line below: the time, then the four\"
    echo \"# positional arguments Session Signals always passes.\"
    echo \"\"
  } > \"$LOGFILE\"
fi
echo \"$(date) state=$STATE project=$PROJECT branch=$BRANCH descriptor=$DESCRIPTOR\" >> \"$LOGFILE\"
";

/// The text of an example script, which writes the four arguments that it is
/// given to a log in a folder of its own.
pub open spec fn stub_source(word: Seq<char>, ext: Seq<char>) -> Seq<char> {
    if ext == "bat"@ {
        BAT_HEAD@ + word + BAT_TITLE@ + word + BAT_NAME@ + ("on_"@ + word) + BAT_TAIL@
    } else {
        SH_HEAD@ + word + SH_TITLE@ + word + SH_NAME@ + ("on_"@ + word) + SH_TAIL@
    }
}

/// The text of an example script, which writes the four arguments that it is
/// given to a log in a folder of its own.
pub fn example_stub_source(word: &str, ext: &str) -> (r: String)
    ensures
        r@ == stub_source(word@, ext@),
{
    let mut own_name = "on_".to_owned();
    own_name.append(word);
    if same_text(ext, "bat") {
        let mut out = BAT_HEAD.to_owned();
        out.append(word);
        out.append(BAT_TITLE);
        out.append(word);
        out.append(BAT_NAME);
        out.append(own_name.as_str());
        out.append(BAT_TAIL);
        out
    } else {
        let mut out = SH_HEAD.to_owned();
        out.append(word);
        out.append(SH_TITLE);
        out.append(word);
        out.append(SH_NAME);
        out.append(own_name.as_str());
        out.append(SH_TAIL);
        out
    }
}

/// The files to write for the first `n` example scripts, name and text, where
/// `exists` says which are there already: those are left alone.
pub open spec fn seeds(platform: Platform, exists: Seq<bool>, n: int) -> Seq<(Seq<char>, Seq<char>)>
    decreases n,
{
    if n <= 0 {
        Seq::empty()
    } else if exists[n - 1] {
        seeds(platform, exists, n - 1)
    } else {
        let word = slug(example_states()[n - 1]);
        let ext = example_extension(platform);
        seeds(platform, exists, n - 1).push((filename(word, ext), stub_source(word, ext)))
    }
}

/// The texts of a list of pairs.
pub open spec fn pair_texts(list: Seq<(String, String)>) -> Seq<(Seq<char>, Seq<char>)> {
    Seq::new(list.len(), |i: int| (list[i].0@, list[i].1@))
}

/// The names that the example scripts have on a platform.
pub fn example_stub_names(platform: Platform) -> (r: Vec<String>)
    ensures
        r@.len() == example_states().len(),
        forall|i: int|
            0 <= i < r@.len() ==> (#[trigger] r@[i])@ == filename(
                slug(example_states()[i]),
                example_extension(platform),
            ),
{
    let states = example_stub_states();
    let mut out: Vec<String> = Vec::new();
    let mut i: usize = 0;
    while i < states.len()
        invariant
            i <= states.len(),
            states@ == example_states(),
            out.len() == i,
            forall|j: int|
                0 <= j < i ==> (#[trigger] out@[j])@ == filename(
                    slug(example_states()[j]),
                    example_extension(platform),
                ),
        decreases states.len() - i,
    {
        out.push(file_name_for(state_slug(states[i]), example_stub_extension(platform)));
        i += 1;
    }
    out
}

/// The example scripts to write, name and text, where `exists` says which of
/// them are there already: those are left alone.
pub fn seed_example_stubs(exists: &Vec<bool>, platform: Platform) -> (r: Vec<(String, String)>)
    requires
        exists@.len() == example_states().len(),
    ensures
        pair_texts(r@) == seeds(platform, exists@, exists@.len() as int),
{
    let states = example_stub_states();
    let mut out: Vec<(String, String)> = Vec::new();
    let mut i: usize = 0;
    assert(pair_texts(out@) =~= seeds(platform, exists@, 0));
    while i < states.len()
        invariant
            i <= states.len(),
            states@ == example_states(),
            exists@.len() == states@.len(),
            pair_texts(out@) == seeds(platform, exists@, i as int),
        decreases states.len() - i,
    {
        if !exists[i] {
            let ghost before = pair_texts(out@);
            let word = state_slug(states[i]);
            let ext = example_stub_extension(platform);
            out.push((file_name_for(word, ext), example_stub_source(word, ext)));
            assert(pair_texts(out@) =~= before.push(
                (filename(word@, ext@), stub_source(word@, ext@)),
            ));
        }
        i += 1;
    }
    out
}

/// What the folder's own README says.
pub const README_TEXT: &'static str = "\
Session Signals — external alert stubs
======================================

Drop an executable here named for the state it should react to:

    on_needs_you.<ext>        a session is blocked on you
    on_waiting_review.<ext>   a flagged session finished
    on_working.<ext>          a session started working
    on_ready.<ext>            a session finished its turn

Recognized extensions, in precedence order (first match wins):
    Windows:  .exe  .bat  .cmd
    macOS:    .sh   .command
    Linux:    .sh

Your stub is invoked with exactly four positional arguments, always in
this order. Absent values are passed as an empty string, never skipped:

    $1  state       e.g. needs_you
    $2  project     the session's folder name
    $3  branch      git branch, or \"\" if not resolvable
    $4  descriptor  the session's title / first prompt, or \"\"

Arguments are passed directly, never through a shell, so values with
spaces arrive intact as a single argument and nothing is re-split or
expanded. (One platform caveat: Windows runs .bat and .cmd files via
cmd.exe by necessity — arguments are still escaped for you, but an
argument cmd.exe cannot represent safely will make the launch fail
rather than run something unintended. A .exe has no such caveat.)

No environment variables are set. Output is discarded. A stub still
running after 30 seconds is killed.

The \"Run script\" toggle for a state is OFF by default in Settings, even
when a stub is present — running a local executable is a bigger step than
a sound or notification, so it's always an explicit opt-in.

Three working examples ship pre-populated in this folder: on_needs_you,
on_ready, and on_waiting_review (on_working is left for you to write, since
that state is off by default and the noisiest one to alert on). Each one
only logs — it appends a line recording the four arguments above to its
own logs/<state>/log.txt, with a heading on first run explaining what wrote
it. Turn on that state's \"Run script\" toggle and press Test to see it
work, or open the log after a real trigger. Delete or overwrite any of
them to replace it with your own stub of the same name.
";

// ---------------------------------------------------------------------------
// One script at a time.
/// The key of a session and a state.
pub open spec fn flight_key(session_id: Seq<char>, state: State) -> Seq<char> {
    session_id + ":"@ + slug(state)
}

/// The key of a session and a state.
pub fn in_flight_key(session_id: &str, state: State) -> (r: String)
    ensures
        r@ == flight_key(session_id@, state),
{
    let mut key = session_id.to_owned();
    key.append(":");
    key.append(state_slug(state));
    key
}

/// The keys whose scripts are running.
pub struct InFlight {
    keys: Table<()>,
}

impl View for InFlight {
    type V = Set<Seq<char>>;

    closed spec fn view(&self) -> Set<Seq<char>> {
        self.keys@.dom()
    }
}

impl InFlight {
    pub closed spec fn wf(&self) -> bool {
        self.keys.wf()
    }

    /// Nothing is running.
    pub fn new() -> (r: InFlight)
        ensures
            r.wf(),
            r@ == Set::<Seq<char>>::empty(),
    {
        let r = InFlight { keys: Table::new() };
        assert(r@ =~= Set::empty());
        r
    }

    /// Takes a key. Returns whether it was free.
    pub fn claim(&mut self, key: &str) -> (r: bool)
        requires
            old(self).wf(),
        ensures
            final(self).wf(),
            final(self)@ == old(self)@.insert(key@),
            r == !old(self)@.contains(key@),
    {
        if self.keys.contains_key(key) {
            assert(self@ =~= old(self)@.insert(key@));
            return false;
        }
        self.keys.insert(key.to_owned(), ());
        assert(self@ =~= old(self)@.insert(key@));
        true
    }

    /// Gives a key back.
    pub fn release(&mut self, key: &str)
        requires
            old(self).wf(),
        ensures
            final(self).wf(),
            final(self)@ == old(self)@.remove(key@),
    {
        self.keys.remove(key);
        assert(self@ =~= old(self)@.remove(key@));
    }
}

/// What a script is run for.
#[derive(Clone, Debug)]
pub struct StubInvocation {
    pub session_id: String,
    pub state: State,
    pub project: String,
    pub branch: Option<String>,
    pub descriptor: Option<String>,
}

/// What came of running a script.
#[derive(Clone, Copy, Debug, PartialEq, Eq, Structural)]
pub enum FireOutcome {
    /// It is running.
    Fired,
    /// There is none for this state, or no thread could be had to run it on.
    NoStub,
    /// It is still running for this session and state.
    Busy,
}

/// What to do about a script.
#[derive(Debug)]
pub enum FirePlan {
    /// Nothing, with this outcome.
    Skip(FireOutcome),
    /// Run it with these arguments, and give the key back when it is done.
    Run { key: String, args: Vec<String> },
}

/// A text that may be missing, an empty one in its place.
pub open spec fn or_empty(s: Option<Seq<char>>) -> Seq<char> {
    match s {
        Some(t) => t,
        None => Seq::empty(),
    }
}

/// The four arguments, always in this order: state, project, branch, descriptor.
pub open spec fn arguments(inv: StubInvocation) -> Seq<Seq<char>> {
    seq![
        slug(inv.state),
        inv.project@,
        or_empty(inv.branch.deep_view()),
        or_empty(inv.descriptor.deep_view()),
    ]
}

fn text_or_empty(s: Option<String>) -> (r: String)
    ensures
        r@ == or_empty(s.deep_view()),
{
    match s {
        Some(t) => t,
        None => String::new(),
    }
}

impl InFlight {
    /// Decides on running a script, and takes its key when it is to run.
    pub fn plan_fire(&mut self, has_stub: bool, inv: StubInvocation) -> (r: FirePlan)
        requires
            old(self).wf(),
        ensures
            final(self).wf(),
            ({
                let key = flight_key(inv.session_id@, inv.state);
                if !has_stub {
                    r == FirePlan::Skip(FireOutcome::NoStub) && final(self)@ == old(self)@
                } else if old(self)@.contains(key) {
                    r == FirePlan::Skip(FireOutcome::Busy) && final(self)@ == old(self)@
                } else {
                    &&& r matches FirePlan::Run { key: k, args } && k@ == key && string_texts(args@)
                        == arguments(inv)
                    &&& final(self)@ == old(self)@.insert(key)
                }
            }),
            r matches FirePlan::Run { args, .. } ==> {
                &&& args@.len() == 4
                &&& args@[1]@ == inv.project@
                &&& inv.branch matches Some(b) ==> args@[2]@ == b@
                &&& inv.branch is None ==> args@[2]@.len() == 0
                &&& inv.descriptor matches Some(d) ==> args@[3]@ == d@
                &&& inv.descriptor is None ==> args@[3]@.len() == 0
            },
    {
        if !has_stub {
            return FirePlan::Skip(FireOutcome::NoStub);
        }
        let key = in_flight_key(inv.session_id.as_str(), inv.state);
        if !self.claim(key.as_str()) {
            assert(self@ =~= old(self)@);
            return FirePlan::Skip(FireOutcome::Busy);
        }
        let args: Vec<String> = vec![
            state_slug(inv.state).to_owned(),
            inv.project,
            text_or_empty(inv.branch),
            text_or_empty(inv.descriptor),
        ];
        assert(string_texts(args@) =~= arguments(inv));
        FirePlan::Run { key, args }
    }

    /// Says what came of handing a script to a thread of its own. When no thread
    /// could be had, the key is given back and the outcome is `NoStub`, as it is
    /// for a state without a script.
    pub fn handed_over(&mut self, key: &str, started: bool) -> (r: FireOutcome)
        requires
            old(self).wf(),
        ensures
            final(self).wf(),
            started ==> r == FireOutcome::Fired && final(self)@ == old(self)@,
            !started ==> r == FireOutcome::NoStub && final(self)@ == old(self)@.remove(key@),
    {
        if started {
            FireOutcome::Fired
        } else {
            self.release(key);
            FireOutcome::NoStub
        }
    }
}

/// How a look at a running script went.
#[derive(Clone, Copy, Debug, PartialEq, Eq, Structural)]
pub enum Glance {
    Exited,
    Running,
    /// It could not be told.
    Failed,
}

/// What to do after a look at a running script.
#[derive(Clone, Copy, Debug, PartialEq, Eq, Structural)]
pub enum Reap {
    /// Stop looking.
    Done,
    /// Kill it, and stop looking.
    Kill,
    /// Look again later.
    Wait,
}

/// What to do after a look at a script that has run for so long.
pub fn reap(glance: Glance, ran: Duration) -> (r: Reap)
    ensures
        r == (match glance {
            Glance::Exited | Glance::Failed => Reap::Done,
            Glance::Running => if ran.nanos >= MAX_STUB_RUNTIME_SECS * NANOS_PER_SEC {
                Reap::Kill
            } else {
                Reap::Wait
            },
        }),
{
    match glance {
        Glance::Exited | Glance::Failed => Reap::Done,
        Glance::Running => if ran.nanos >= Duration::from_secs(MAX_STUB_RUNTIME_SECS).nanos {
            Reap::Kill
        } else {
            Reap::Wait
        },
    }
}

/// The word for an outcome.
pub open spec fn outcome_word(outcome: FireOutcome) -> Seq<char> {
    match outcome {
        FireOutcome::Fired => "fired"@,
        FireOutcome::NoStub => "no_stub"@,
        FireOutcome::Busy => "busy"@,
    }
}

/// The word for an outcome.
pub fn outcome_text(outcome: FireOutcome) -> (r: &'static str)
    ensures
        r@ == outcome_word(outcome),
{
    match outcome {
        FireOutcome::Fired => "fired",
        FireOutcome::NoStub => "no_stub",
        FireOutcome::Busy => "busy",
    }
}

/// What a trial run from the settings is for.
pub fn test_invocation(state: State) -> (r: StubInvocation)
    ensures
        r.session_id@ == "test"@,
        r.state == state,
        r.project@ == "Session Signals"@,
        r.branch is None,
        r.descriptor.deep_view() == Some("Manual test from Settings"@),
{
    StubInvocation {
        session_id: "test".to_owned(),
        state,
        project: "Session Signals".to_owned(),
        branch: None,
        descriptor: Some("Manual test from Settings".to_owned()),
    }
}

} // verus!
