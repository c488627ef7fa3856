//! What sessions are called.
use crate::label::{
    branch_in, branch_of, combined, dir_named, fallback, fallback_fits, final_component,
    folder_of, label_fits, law_one_final_component, names_fit, origin, parts_fit, pointer_of,
    portable, repository, repository_fits, worktree_in, CheckoutModel, GitModel, Origin, Platform,
};
use crate::model::EngineModel;
use crate::session::SessionModel;
use crate::text::trimmed;
use vstd::prelude::*;

verus! {

/// A label is the folder and, where there is a branch, a space and the branch in
/// brackets.
pub proof fn law_labels_read(folder: Seq<char>, branch: Seq<char>)
    ensures
        ({
            let label = combined(folder, Some(branch));
            let n = folder.len() as int;
            &&& label.len() == folder.len() + branch.len() + 3
            &&& label.take(n) == folder
            &&& label[n] == ' '
            &&& label[n + 1] == '('
            &&& label.subrange(n + 2, n + 2 + branch.len()) == branch
            &&& label.last() == ')'
        }),
        combined(folder, None) == folder,
{
    reveal_strlit(" (");
    reveal_strlit(")");
    assert(" ("@.len() == 2 && " ("@[0] == ' ' && " ("@[1] == '(');
    assert(")"@.len() == 1 && ")"@[0] == ')');
    let label = combined(folder, Some(branch));
    let n = folder.len() as int;
    assert(label.take(n) =~= folder);
    assert(label.subrange(n + 2, n + 2 + branch.len()) =~= branch);
}

/// A session in a repository goes by the repository and its branch; one outside by
/// the name of its directory, by the directory where that has no name, and by
/// `session` where there is none, and has no branch.
pub proof fn law_folder_and_branch(m: EngineModel, s: SessionModel)
    ensures
        m.repos.contains_key(s.cwd) ==> {
            &&& m.folder(s) == m.repos[s.cwd].base
            &&& m.branch(s) == m.repos[s.cwd].branch
            &&& worktree_in(m.repo(s.cwd)) == m.repos[s.cwd].worktree
        },
        !m.repos.contains_key(s.cwd) ==> {
            &&& m.branch(s) is None
            &&& !worktree_in(m.repo(s.cwd))
            &&& s.cwd.len() == 0 ==> m.folder(s) == "session"@
            &&& s.cwd.len() > 0 && s.name is Some ==> m.folder(s) == s.name->0
            &&& s.cwd.len() > 0 && s.name is None ==> m.folder(s) == s.cwd
        },
        m.label(s) == combined(m.folder(s), m.branch(s)),
{
}

/// The same of a directory and the repository that it lies in, if any.
pub proof fn law_folder_of_a_directory(cwd: Seq<char>, name: Option<Seq<char>>, g: GitModel)
    ensures
        folder_of(cwd, name, Some(g)) == g.base,
        branch_in(Some(g)) == g.branch,
        worktree_in(Some(g)) == g.worktree,
        folder_of(cwd, name, None) == fallback(cwd, name),
        branch_in(None) is None,
        !worktree_in(None),
        cwd.len() == 0 ==> fallback(cwd, name) == "session"@,
        cwd.len() > 0 && name is Some ==> fallback(cwd, name) == name->0,
        cwd.len() > 0 && name is None ==> fallback(cwd, name) == cwd,
{
}

/// A directory is called by what stands behind its last slash.
pub proof fn law_directories_go_by_their_last_part(
    parents: Seq<char>,
    word: Seq<char>,
    name: Option<Seq<char>>,
)
    requires
        portable(parents + seq!['/'] + word),
        word.len() > 0,
        !word.contains('/'),
        word != seq!['.'],
        word != seq!['.', '.'],
        dir_named(parents + seq!['/'] + word, name),
    ensures
        name == Some(word),
{
    let path = parents + seq!['/'] + word;
    let a = parents.len() + 1;
    let b = path.len() as int;
    assert(path.subrange(a as int, b) =~= word);
    assert(path[a - 1] == '/');
    assert(path.skip(b).len() == 0);
    assert(final_component(path, a as int, b));
    if name is Some {
        let (c, d) = choose|c: int, d: int|
            #[trigger] final_component(path, c, d) && name->0 == path.subrange(c, d);
        law_one_final_component(path, a as int, b, c, d);
    }
}

/// What is given as folder, branch and worktree mark of a directory is the
/// repository's where it lies in one, and otherwise its name, or itself, or
/// `session`, without a branch.
pub proof fn law_given_parts(
    cwd: Seq<char>,
    repo: Option<GitModel>,
    folder: Seq<char>,
    branch: Option<Seq<char>>,
    worktree: bool,
)
    requires
        parts_fit(cwd, repo, folder, branch, worktree),
    ensures
        repo is Some ==> {
            &&& folder == repo->0.base
            &&& branch == repo->0.branch
            &&& worktree == repo->0.worktree
        },
        repo is None ==> fallback_fits(cwd, folder) && branch is None && !worktree,
{
    let name = choose|name: Option<Seq<char>>|
        #[trigger] dir_named(cwd, name) && folder == folder_of(cwd, name, repo);
    assert(dir_named(cwd, name));
}

/// The same of folder and branch, and of the label made of them.
pub proof fn law_given_labels(
    cwd: Seq<char>,
    repo: Option<GitModel>,
    folder: Seq<char>,
    branch: Option<Seq<char>>,
    label: Seq<char>,
)
    ensures
        names_fit(cwd, repo, folder, branch) ==> {
            &&& repo is Some ==> folder == repo->0.base && branch == repo->0.branch
            &&& repo is None ==> fallback_fits(cwd, folder) && branch is None
        },
        label_fits(cwd, repo, folder, branch, label) ==> {
            &&& names_fit(cwd, repo, folder, branch)
            &&& label == combined(folder, branch)
        },
{
    if names_fit(cwd, repo, folder, branch) {
        let worktree = choose|worktree: bool| #[trigger]
            parts_fit(cwd, repo, folder, branch, worktree);
        law_given_parts(cwd, repo, folder, branch, worktree);
    }
}

/// What stands for a directory outside any repository: `session` for none, what
/// stands behind its last slash, or the whole where that is no name.
pub proof fn law_given_fallbacks(cwd: Seq<char>, folder: Seq<char>)
    requires
        fallback_fits(cwd, folder),
    ensures
        cwd.len() == 0 ==> folder == "session"@,
        cwd.len() > 0 ==> (folder == cwd && dir_named(cwd, None)) || dir_named(cwd, Some(folder)),
{
    let name = choose|name: Option<Seq<char>>|
        #[trigger] dir_named(cwd, name) && folder == fallback(cwd, name);
    assert(dir_named(cwd, name));
}

/// The repository that is given for a root is called by a name that its root can
/// have or, for a linked worktree, the root of the repository that it shares; its
/// branch is the one that its `HEAD` names.
pub proof fn law_given_repositories(
    path: Seq<char>,
    head: Option<Seq<char>>,
    root: Seq<char>,
    g: GitModel,
)
    ensures
        ({
            let branch = if head is Some {
                branch_of(head->0)
            } else {
                None
            };
            let linked = CheckoutModel::Linked { head, shared: Some(Some(root)) };
            &&& repository_fits(path, CheckoutModel::Own { head }, Some(g)) ==> dir_named(
                path,
                Some(g.base),
            ) && g.branch == branch && !g.worktree
            &&& repository_fits(path, linked, Some(g)) ==> (dir_named(root, Some(g.base))
                || dir_named(path, Some(g.base))) && g.branch == branch && g.worktree
            &&& !repository_fits(path, CheckoutModel::Unresolved, Some(g))
        }),
{
}

/// On a Windows host a directory that begins with a slash is a guest's, and nothing
/// else is anywhere.
pub proof fn law_guests(cwd: Seq<char>, platform: Platform)
    ensures
        origin(cwd, platform) == Origin::Remote <==> platform == Platform::Windows && cwd.len() > 0
            && cwd[0] == '/',
        origin(cwd, platform) == Origin::Host <==> platform != Platform::Windows || cwd.len() == 0
            || cwd[0] != '/',
{
}

/// A `HEAD` that names no branch is read as none, and one that does as what stands
/// behind the key.
pub proof fn law_heads(head: Seq<char>, branch: Seq<char>)
    ensures
        branch_of(head) == Some(branch) <==> trimmed(head) == "ref: refs/heads/"@ + branch,
        branch_of(head) is None <==> !"ref: refs/heads/"@.is_prefix_of(trimmed(head)),
{
    let key = "ref: refs/heads/"@;
    let line = trimmed(head);
    let n = key.len() as int;
    if key.is_prefix_of(line) {
        assert(line =~= key + line.skip(n));
    }
    if line == key + branch {
        assert((key + branch).take(n) =~= key);
        assert((key + branch).subrange(0, n) =~= key);
        assert((key + branch).skip(n) =~= branch);
    }
}

/// A `.git` file points at what stands behind its key, without white space around
/// it; one without the key points nowhere.
pub proof fn law_pointers(text: Seq<char>, rest: Seq<char>)
    ensures
        trimmed(text) == "gitdir:"@ + rest ==> pointer_of(text) == Some(trimmed(rest)),
        pointer_of(text) is None <==> !"gitdir:"@.is_prefix_of(trimmed(text)),
{
    let key = "gitdir:"@;
    let n = key.len() as int;
    if trimmed(text) == key + rest {
        assert((key + rest).subrange(0, n) =~= key);
        assert((key + rest).skip(n) =~= rest);
    }
}

/// A repository goes by the name of its root, and a linked worktree by that of the
/// repository that it shares, its own where that has none. Its branch is the one
/// that its `HEAD` names. Without a name, or with a pointer that leads nowhere,
/// there is none.
pub proof fn law_repositories(
    name: Option<Seq<char>>,
    shared: Option<Seq<char>>,
    head: Option<Seq<char>>,
    root: Option<Seq<char>>,
)
    ensures
        ({
            let own = repository(name, shared, CheckoutModel::Own { head });
            let plain = repository(name, shared, CheckoutModel::Linked { head, shared: None });
            let linked = repository(name, shared, CheckoutModel::Linked { head, shared: Some(root) });
            let branch = if head is Some {
                branch_of(head->0)
            } else {
                None
            };
            &&& own is Some <==> name is Some
            &&& own is Some ==> own->0.base == name->0 && own->0.branch == branch
                && !own->0.worktree
            &&& plain == own
            &&& linked is Some <==> name is Some || shared is Some
            &&& linked is Some ==> linked->0.branch == branch && linked->0.worktree
            &&& shared is Some ==> linked->0.base == shared->0
            &&& shared is None && name is Some ==> linked->0.base == name->0
            &&& repository(name, shared, CheckoutModel::Unresolved) is None
        }),
{
}

} // verus!
