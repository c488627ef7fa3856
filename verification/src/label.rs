//! Where a session runs and what it is called: the repository or folder name
//! that stands for its working directory, and the branch it has checked out.
//!
//! What a disk holds is handed in as plain values; nothing here reads it.
use crate::text::{
    begins_with, is_white, strip_prefix, trim, trimmed, trimmed_end, trimmed_start,
};
use vstd::prelude::*;
use vstd::string::*;

verus! {

/// The operating system that the program runs on.
#[derive(Clone, Copy, PartialEq, Eq, Debug, Structural)]
pub enum Platform {
    Windows,
    MacOs,
    Other,
}

/// Where a session runs.
#[derive(Clone, Copy, PartialEq, Eq, Debug, Structural)]
pub enum Origin {
    /// On this machine.
    Host,
    /// In a Linux guest that reaches this machine.
    Remote,
}

/// The origin that a working directory tells of. A directory that begins with a
/// slash cannot be one of a Windows host; on any other host the path alone does
/// not tell, and nothing is guessed.
pub open spec fn origin(cwd: Seq<char>, platform: Platform) -> Origin {
    if platform == Platform::Windows && cwd.len() > 0 && cwd[0] == '/' {
        Origin::Remote
    } else {
        Origin::Host
    }
}

/// The origin that a working directory tells of on a host of this platform.
pub fn origin_from_cwd(cwd: &str, platform: Platform) -> (r: Origin)
    ensures
        r == origin(cwd@, platform),
{
    let slash = begins_with(cwd, "/");
    proof {
        reveal_strlit("/");
        if cwd@.len() > 0 {
            assert(cwd@.subrange(0, 1)[0] == cwd@[0]);
            assert(cwd@[0] == '/' ==> cwd@.subrange(0, 1) =~= "/"@);
        }
    }
    if platform == Platform::Windows && slash {
        Origin::Remote
    } else {
        Origin::Host
    }
}

/// The repository that a working directory lies in.
#[derive(Debug)]
pub struct GitInfo {
    /// The repository's name. For a linked worktree it is the main
    /// repository's, not that of the worktree's folder.
    pub base: String,
    /// The branch that is checked out, when `HEAD` names one.
    pub branch: Option<String>,
    /// Whether the directory lies in a linked worktree.
    pub worktree: bool,
}

pub struct GitModel {
    pub base: Seq<char>,
    pub branch: Option<Seq<char>>,
    pub worktree: bool,
}

impl View for GitInfo {
    type V = GitModel;

    open spec fn view(&self) -> GitModel {
        GitModel {
            base: self.base@,
            branch: self.branch.deep_view(),
            worktree: self.worktree,
        }
    }
}

/// Copies an optional text.
pub fn copy_text(s: &Option<String>) -> (r: Option<String>)
    ensures
        r.deep_view() == s.deep_view(),
{
    match s {
        Some(t) => Some(t.clone()),
        None => None,
    }
}

/// The text of an optional string slice.
pub open spec fn opt_text(s: Option<&str>) -> Option<Seq<char>> {
    match s {
        Some(t) => Some(t@),
        None => None,
    }
}

// ---------------------------------------------------------------------------
// The last component of a path.
/// Whether every platform reads `path` alike: it has no backslash and no drive
/// letter, and does not begin with the two slashes of a network share.
pub open spec fn portable(path: Seq<char>) -> bool {
    &&& forall|i: int| 0 <= i < path.len() ==> path[i] != '\\' && path[i] != ':'
    &&& !(path.len() >= 2 && path[0] == '/' && path[1] == '/')
}

/// Whether `tail` adds no component to the path that it follows: it holds
/// slashes, and dots that stand alone behind one.
pub open spec fn adds_nothing(tail: Seq<char>) -> bool {
    forall|i: int|
        0 <= i < tail.len() ==> {
            ||| #[trigger] tail[i] == '/'
            ||| tail[i] == '.' && i > 0 && tail[i - 1] == '/' && (i + 1 == tail.len() || tail[i + 1]
                == '/')
        }
}

/// Whether the characters from `a` to `b` are the last component of `path` and a
/// proper name, neither `.` nor `..`.
pub open spec fn final_component(path: Seq<char>, a: int, b: int) -> bool {
    &&& 0 <= a < b <= path.len()
    &&& a == 0 || path[a - 1] == '/'
    &&& !path.subrange(a, b).contains('/')
    &&& path.subrange(a, b) != seq!['.']
    &&& path.subrange(a, b) != seq!['.', '.']
    &&& adds_nothing(path.skip(b))
}

/// Whether some platform takes `c` to part the components of a path.
pub open spec fn is_separator(c: char) -> bool {
    c == '/' || c == '\\'
}

/// Whether `tail` adds no component to the path that it follows, on any platform:
/// it holds separators, and dots that stand alone behind one.
pub open spec fn adds_nothing_anywhere(tail: Seq<char>) -> bool {
    forall|i: int|
        0 <= i < tail.len() ==> {
            ||| is_separator(#[trigger] tail[i])
            ||| tail[i] == '.' && i > 0 && is_separator(tail[i - 1]) && (i + 1 == tail.len()
                || is_separator(tail[i + 1]))
        }
}

/// Whether the characters from `a` to `b` may be the last component of `path` on
/// some platform, and a proper name: they begin the path or stand right behind a
/// separator or a drive's colon, and nothing that follows is a component.
pub open spec fn possible_component(path: Seq<char>, a: int, b: int) -> bool {
    &&& 0 <= a < b <= path.len()
    &&& a == 0 || is_separator(path[a - 1]) || path[a - 1] == ':'
    &&& path.subrange(a, b) != seq!['.']
    &&& path.subrange(a, b) != seq!['.', '.']
    &&& adds_nothing_anywhere(path.skip(b))
}

/// Whether `name` can be the file name of `path`. On a path that every platform
/// reads alike it is its last component, and there is none only where the path
/// has no such component; on any other path it is what some platform may take to
/// be the last component.
pub open spec fn file_name_fits(path: Seq<char>, name: Option<Seq<char>>) -> bool {
    &&& name matches Some(n) ==> exists|a: int, b: int|
        #[trigger] possible_component(path, a, b) && n == path.subrange(a, b)
    &&& portable(path) ==> match name {
        Some(n) => exists|a: int, b: int|
            #[trigger] final_component(path, a, b) && n == path.subrange(a, b),
        None => forall|a: int, b: int| !#[trigger] final_component(path, a, b),
    }
}

/// The last component of a path, as `std::path::Path::file_name` gives it. On a
/// path without backslash, colon or two leading slashes it is the last component
/// that is neither empty nor `.`, and none where that is `..` or missing. What
/// is a component of any other path is for the platform to say; there it is
/// said that the name is neither `.` nor `..`, that it begins the path or stands
/// right behind a slash, a backslash or a colon, and that only slashes,
/// backslashes and lone dots follow it.
#[verifier::external_body]
fn path_file_name(path: &str) -> (r: Option<String>)
    ensures
        file_name_fits(path@, r.deep_view()),
{
    std::path::Path::new(path).file_name().and_then(|s| s.to_str()).map(|s| s.to_string())
}

/// Whether `name` goes with the directory `cwd`: it can be its file name, and the
/// empty directory has none.
pub open spec fn dir_named(cwd: Seq<char>, name: Option<Seq<char>>) -> bool {
    if cwd.len() == 0 {
        name is None
    } else {
        file_name_fits(cwd, name)
    }
}

/// The file name of a directory.
pub fn dir_name(cwd: &str) -> (r: Option<String>)
    ensures
        dir_named(cwd@, r.deep_view()),
{
    if cwd.is_empty() {
        None
    } else {
        path_file_name(cwd)
    }
}

/// What stands for a directory outside any repository, given its file name: that,
/// the directory itself where it has none, and `session` when it is empty.
pub open spec fn fallback(cwd: Seq<char>, name: Option<Seq<char>>) -> Seq<char> {
    if cwd.len() == 0 {
        "session"@
    } else {
        match name {
            Some(n) => n,
            None => cwd,
        }
    }
}

/// Whether `folder` can stand for a directory outside any repository.
pub open spec fn fallback_fits(cwd: Seq<char>, folder: Seq<char>) -> bool {
    exists|name: Option<Seq<char>>|
        #[trigger] dir_named(cwd, name) && folder == fallback(cwd, name)
}

/// What stands for a directory outside any repository, given its file name.
pub fn fallback_from(cwd: &str, name: Option<&str>) -> (r: String)
    ensures
        r@ == fallback(cwd@, opt_text(name)),
{
    if cwd.is_empty() {
        return "session".to_owned();
    }
    match name {
        Some(n) => n.to_owned(),
        None => cwd.to_owned(),
    }
}

/// The name for a directory outside any repository: its file name, the directory
/// itself where it has none, and `session` when it is empty.
pub fn fallback_basename(cwd: &str) -> (r: String)
    ensures
        fallback_fits(cwd@, r@),
{
    let name = dir_name(cwd);
    let r = fallback_from(cwd, as_text(&name));
    assert(dir_named(cwd@, name.deep_view()));
    r
}

// ---------------------------------------------------------------------------
// Labels.
/// The folder that stands for a directory with this file name, where `repo` is
/// the repository that it lies in.
pub open spec fn folder_of(
    cwd: Seq<char>,
    name: Option<Seq<char>>,
    repo: Option<GitModel>,
) -> Seq<char> {
    match repo {
        Some(g) => g.base,
        None => fallback(cwd, name),
    }
}

/// The branch that is checked out in a repository.
pub open spec fn branch_in(repo: Option<GitModel>) -> Option<Seq<char>> {
    match repo {
        Some(g) => g.branch,
        None => None,
    }
}

/// Whether a repository is a linked worktree.
pub open spec fn worktree_in(repo: Option<GitModel>) -> bool {
    match repo {
        Some(g) => g.worktree,
        None => false,
    }
}

/// Whether folder, branch and worktree mark are those of `cwd`, where `repo` is
/// the repository that it lies in.
pub open spec fn parts_fit(
    cwd: Seq<char>,
    repo: Option<GitModel>,
    folder: Seq<char>,
    branch: Option<Seq<char>>,
    worktree: bool,
) -> bool {
    &&& exists|name: Option<Seq<char>>|
        #[trigger] dir_named(cwd, name) && folder == folder_of(cwd, name, repo)
    &&& branch == branch_in(repo)
    &&& worktree == worktree_in(repo)
}

/// `folder (branch)`, or `folder` alone.
pub open spec fn combined(folder: Seq<char>, branch: Option<Seq<char>>) -> Seq<char> {
    match branch {
        Some(b) => folder + " ("@ + b + ")"@,
        None => folder,
    }
}

/// Whether folder and branch are those of `cwd`.
pub open spec fn names_fit(
    cwd: Seq<char>,
    repo: Option<GitModel>,
    folder: Seq<char>,
    branch: Option<Seq<char>>,
) -> bool {
    exists|worktree: bool| #[trigger] parts_fit(cwd, repo, folder, branch, worktree)
}

/// Whether folder, branch and label are those of `cwd`.
pub open spec fn label_fits(
    cwd: Seq<char>,
    repo: Option<GitModel>,
    folder: Seq<char>,
    branch: Option<Seq<char>>,
    label: Seq<char>,
) -> bool {
    &&& names_fit(cwd, repo, folder, branch)
    &&& label == combined(folder, branch)
}

/// The view of a repository that may not be there.
pub open spec fn repo_view(repo: Option<&GitInfo>) -> Option<GitModel> {
    match repo {
        Some(g) => Some(g@),
        None => None,
    }
}

/// Folder, branch and worktree mark of a working directory with this file name:
/// those of the repository that it lies in, or its own name.
pub fn label_from(cwd: &str, name: Option<&str>, repo: Option<&GitInfo>) -> (r: (
    String,
    Option<String>,
    bool,
))
    ensures
        r.0@ == folder_of(cwd@, opt_text(name), repo_view(repo)),
        r.1.deep_view() == branch_in(repo_view(repo)),
        r.2 == worktree_in(repo_view(repo)),
{
    match repo {
        Some(g) => (g.base.clone(), copy_text(&g.branch), g.worktree),
        None => (fallback_from(cwd, name), None, false),
    }
}

/// Folder, branch and worktree mark of a working directory: those of the
/// repository that it lies in, or its own name.
pub fn label_parts_worktree(cwd: &str, repo: Option<&GitInfo>) -> (r: (
    String,
    Option<String>,
    bool,
))
    ensures
        parts_fit(cwd@, repo_view(repo), r.0@, r.1.deep_view(), r.2),
{
    let name = dir_name(cwd);
    let r = label_from(cwd, as_text(&name), repo);
    assert(dir_named(cwd@, name.deep_view()));
    r
}

/// Folder and branch of a working directory.
pub fn label_parts(cwd: &str, repo: Option<&GitInfo>) -> (r: (String, Option<String>))
    ensures
        names_fit(cwd@, repo_view(repo), r.0@, r.1.deep_view()),
{
    let (folder, branch, worktree) = label_parts_worktree(cwd, repo);
    assert(names_fit(cwd@, repo_view(repo), folder@, branch.deep_view()));
    (folder, branch)
}

/// The one-line label `folder (branch)`, or `folder` alone.
pub fn combine_label(folder: String, branch: Option<&str>) -> (r: String)
    ensures
        r@ == combined(folder@, opt_text(branch)),
{
    match branch {
        Some(b) => {
            let mut out = folder;
            out.append(" (");
            out.append(b);
            out.append(")");
            out
        },
        None => folder,
    }
}

/// The text of an optional string, borrowed.
pub fn as_text(s: &Option<String>) -> (r: Option<&str>)
    ensures
        opt_text(r) == s.deep_view(),
{
    match s {
        Some(t) => Some(t.as_str()),
        None => None,
    }
}

/// The one-line label of a working directory.
pub fn label_for(cwd: &str, repo: Option<&GitInfo>) -> (r: String)
    ensures
        exists|folder: Seq<char>, branch: Option<Seq<char>>| #[trigger]
            label_fits(cwd@, repo_view(repo), folder, branch, r@),
{
    let (folder, branch) = label_parts(cwd, repo);
    let ghost f = folder@;
    let ghost b = branch.deep_view();
    let r = combine_label(folder, as_text(&branch));
    assert(label_fits(cwd@, repo_view(repo), f, b, r@));
    r
}

// ---------------------------------------------------------------------------
// The files of a repository.
/// The branch that the text of a `HEAD` file names.
pub open spec fn branch_of(head: Seq<char>) -> Option<Seq<char>> {
    let line = trimmed(head);
    if "ref: refs/heads/"@.is_prefix_of(line) {
        Some(line.skip("ref: refs/heads/"@.len() as int))
    } else {
        None
    }
}

/// The branch that the text of a `HEAD` file names, none when it is detached.
pub fn head_branch(head: &str) -> (r: Option<String>)
    ensures
        r.deep_view() == branch_of(head@),
{
    match strip_prefix(trim(head), "ref: refs/heads/") {
        Some(rest) => Some(rest.to_owned()),
        None => None,
    }
}

/// The directory that the text of a `.git` file points at.
pub open spec fn pointer_of(text: Seq<char>) -> Option<Seq<char>> {
    let line = trimmed(text);
    if "gitdir:"@.is_prefix_of(line) {
        Some(trimmed(line.skip("gitdir:"@.len() as int)))
    } else {
        None
    }
}

/// The directory that the text of a `.git` file points at, when it has the form
/// of a pointer.
pub fn gitdir_pointer(text: &str) -> (r: Option<String>)
    ensures
        r.deep_view() == pointer_of(text@),
{
    match strip_prefix(trim(text), "gitdir:") {
        Some(rest) => Some(trim(rest).to_owned()),
        None => None,
    }
}

/// The directory that the text of a `commondir` file points at.
pub fn commondir_pointer(text: &str) -> (r: String)
    ensures
        r@ == trimmed(text@),
{
    trim(text).to_owned()
}

/// The nearest directory that holds a `.git` entry, where `has_git` says of a
/// directory and each of its ancestors, nearest first, whether it does.
pub fn find_git_root(has_git: &Vec<bool>) -> (r: Option<usize>)
    ensures
        match r {
            Some(i) => i < has_git.len() && has_git[i as int] && forall|j: int|
                0 <= j < i ==> !#[trigger] has_git[j],
            None => forall|j: int| 0 <= j < has_git.len() ==> !#[trigger] has_git[j],
        },
{
    let mut i: usize = 0;
    while i < has_git.len()
        invariant
            i <= has_git.len(),
            forall|j: int| 0 <= j < i ==> !#[trigger] has_git[j],
        decreases has_git.len() - i,
    {
        if has_git[i] {
            return Some(i);
        }
        i += 1;
    }
    None
}

/// What a repository root's `.git` entry turned out to be.
#[derive(Debug)]
pub enum Checkout {
    /// A directory; the text of its `HEAD`, when that could be read.
    Own { head: Option<String> },
    /// A file that could not be read or points nowhere.
    Unresolved,
    /// A file that points at a git directory elsewhere: the text of the `HEAD`
    /// there, and, when that directory's `commondir` leads to a shared
    /// repository, the path of that repository's root, where it is text.
    Linked { head: Option<String>, shared: Option<Option<String>> },
}

pub enum CheckoutModel {
    Own { head: Option<Seq<char>> },
    Unresolved,
    Linked { head: Option<Seq<char>>, shared: Option<Option<Seq<char>>> },
}

impl View for Checkout {
    type V = CheckoutModel;

    open spec fn view(&self) -> CheckoutModel {
        match self {
            Checkout::Own { head } => CheckoutModel::Own { head: head.deep_view() },
            Checkout::Unresolved => CheckoutModel::Unresolved,
            Checkout::Linked { head, shared } => CheckoutModel::Linked {
                head: head.deep_view(),
                shared: shared.deep_view(),
            },
        }
    }
}

/// The branch of a checkout, given the text of its `HEAD`.
pub open spec fn checked_out(head: Option<Seq<char>>) -> Option<Seq<char>> {
    match head {
        Some(h) => branch_of(h),
        None => None,
    }
}

/// The repository that a checkout belongs to, where `name` is the file name of
/// its root, and `shared` that of the shared repository's root. A linked worktree
/// carries the shared repository's name.
pub open spec fn repository(
    name: Option<Seq<char>>,
    shared: Option<Seq<char>>,
    checkout: CheckoutModel,
) -> Option<GitModel> {
    match checkout {
        CheckoutModel::Own { head } => root_named(name, checked_out(head), false),
        CheckoutModel::Unresolved => None,
        CheckoutModel::Linked { head, shared: None } => root_named(name, checked_out(head), false),
        CheckoutModel::Linked { head, shared: Some(_) } => root_named(
            if shared is Some {
                shared
            } else {
                name
            },
            checked_out(head),
            true,
        ),
    }
}

/// A repository by this name; none without one.
pub open spec fn root_named(
    name: Option<Seq<char>>,
    branch: Option<Seq<char>>,
    worktree: bool,
) -> Option<GitModel> {
    match name {
        Some(base) => Some(GitModel { base, branch, worktree }),
        None => None,
    }
}

/// The path of the shared repository's root.
pub open spec fn shared_path(checkout: CheckoutModel) -> Seq<char> {
    match checkout {
        CheckoutModel::Linked { shared: Some(Some(path)), .. } => path,
        _ => Seq::empty(),
    }
}

fn branch_from(head: Option<String>) -> (r: Option<String>)
    ensures
        r.deep_view() == checked_out(head.deep_view()),
{
    match head {
        Some(h) => head_branch(h.as_str()),
        None => None,
    }
}

fn named(base: Option<String>, branch: Option<String>, worktree: bool) -> (r: Option<GitInfo>)
    ensures
        opt_repo(r) == root_named(base.deep_view(), branch.deep_view(), worktree),
{
    match base {
        Some(base) => Some(GitInfo { base, branch, worktree }),
        None => None,
    }
}

/// The view of a repository that may not be there.
pub open spec fn opt_repo(repo: Option<GitInfo>) -> Option<GitModel> {
    match repo {
        Some(g) => Some(g@),
        None => None,
    }
}

/// The repository that a checkout belongs to, given the file names of its root
/// and of the shared repository's root.
pub fn git_info_from(name: Option<String>, shared: Option<String>, checkout: Checkout) -> (r:
    Option<GitInfo>)
    ensures
        opt_repo(r) == repository(name.deep_view(), shared.deep_view(), checkout@),
{
    match checkout {
        Checkout::Own { head } => named(name, branch_from(head), false),
        Checkout::Unresolved => None,
        Checkout::Linked { head, shared: root } => {
            let linked = root.is_some();
            let base = if linked && shared.is_some() {
                shared
            } else {
                name
            };
            named(base, branch_from(head), linked)
        },
    }
}

/// Whether `repo` is the repository of a root at this path with this checkout.
pub open spec fn repository_fits(
    path: Seq<char>,
    checkout: CheckoutModel,
    repo: Option<GitModel>,
) -> bool {
    exists|name: Option<Seq<char>>, shared: Option<Seq<char>>|
        #![trigger dir_named(path, name), dir_named(shared_path(checkout), shared)]
        dir_named(path, name) && dir_named(shared_path(checkout), shared) && repo == repository(
            name,
            shared,
            checkout,
        )
}

/// The repository that a working directory lies in, given the path of the
/// nearest root with a `.git` entry and what that entry is; none without a root.
pub fn git_info(root: Option<(String, Checkout)>) -> (r: Option<GitInfo>)
    ensures
        match root {
            Some((path, checkout)) => repository_fits(path@, checkout@, opt_repo(r)),
            None => r is None,
        },
{
    match root {
        Some((path, checkout)) => {
            let name = dir_name(path.as_str());
            let shared = match &checkout {
                Checkout::Linked { shared: Some(Some(root)), .. } => dir_name(root.as_str()),
                _ => None,
            };
            assert(dir_named(path@, name.deep_view()));
            assert(dir_named(shared_path(checkout@), shared.deep_view()));
            git_info_from(name, shared, checkout)
        },
        None => None,
    }
}

// ---------------------------------------------------------------------------
// What holds of names.
/// A path has at most one last component.
pub proof fn law_one_final_component(path: Seq<char>, a: int, b: int, c: int, d: int)
    requires
        final_component(path, a, b),
        final_component(path, c, d),
    ensures
        a == c,
        b == d,
{
    lemma_final_component_ends(path, a, b, c, d);
    lemma_final_component_ends(path, c, d, a, b);
    if a < c {
        assert(path.subrange(a, b)[c - 1 - a] == '/');
    }
    if c < a {
        assert(path.subrange(c, d)[a - 1 - c] == '/');
    }
}

proof fn lemma_final_component_ends(path: Seq<char>, a: int, b: int, c: int, d: int)
    requires
        final_component(path, a, b),
        final_component(path, c, d),
    ensures
        d <= b,
{
    if b < d {
        let tail = path.skip(b);
        let i = d - 1 - b;
        assert(tail[i] == path[d - 1]);
        assert(path.subrange(c, d)[d - 1 - c] == path[d - 1]);
        assert(tail[i - 1] == path[d - 2]);
        if c < d - 1 {
            assert(path.subrange(c, d)[d - 2 - c] == path[d - 2]);
        } else {
            assert(path.subrange(c, d) =~= seq!['.']);
        }
    }
}

/// On a path that every platform reads alike the file name is determined.
pub proof fn law_file_name_is_determined(
    path: Seq<char>,
    n1: Option<Seq<char>>,
    n2: Option<Seq<char>>,
)
    requires
        portable(path),
        file_name_fits(path, n1),
        file_name_fits(path, n2),
    ensures
        n1 == n2,
{
    if n1 is Some && n2 is Some {
        let (a, b) = choose|a: int, b: int|
            #[trigger] final_component(path, a, b) && n1->0 == path.subrange(a, b);
        let (c, d) = choose|c: int, d: int|
            #[trigger] final_component(path, c, d) && n2->0 == path.subrange(c, d);
        law_one_final_component(path, a, b, c, d);
    }
}

/// A `HEAD` file that names a branch is read as that branch, whatever the branch
/// is called.
pub proof fn law_head_names_its_branch(branch: Seq<char>)
    requires
        branch.len() > 0,
        !is_white(branch.last()),
    ensures
        branch_of("ref: refs/heads/"@ + branch + "\n"@) == Some(branch),
{
    reveal_strlit("ref: refs/heads/");
    reveal_strlit("\n");
    let key = "ref: refs/heads/"@;
    assert(key.len() == 16 && key[0] == 'r');
    assert("\n"@.len() == 1 && "\n"@[0] == '\n');
    let text = key + branch + "\n"@;
    assert(trimmed_start(text) == text);
    assert(text.drop_last() =~= key + branch);
    assert((key + branch).last() == branch.last());
    assert(trimmed_end(key + branch) == key + branch);
    assert(trimmed_end(text) == key + branch);
    assert((key + branch).subrange(0, 16) =~= key);
    assert((key + branch).skip(16) =~= branch);
}

} // verus!
