//! Names derived from a bootstrap request: the repository name taken from
//! the URL, and the directories the checkout and its build live in.

use vstd::prelude::*;
use vstd::string::*;
use crate::text::chars_of;

verus! {

/// The suffix that a repository URL may carry and its name does not.
pub open spec fn git_suffix() -> Seq<char> {
    seq!['.', 'g', 'i', 't']
}

/// `s` without a trailing `.git`, if it has one.
pub open spec fn without_git_suffix(s: Seq<char>) -> Seq<char> {
    if git_suffix().is_suffix_of(s) {
        s.take(s.len() - 4)
    } else {
        s
    }
}

/// The repository name of a URL: what follows its last slash, without a
/// trailing `.git`. A URL without a slash names no repository.
pub open spec fn repo_name_of(url: Seq<char>) -> Option<Seq<char>> {
    match url.index_of_last('/') {
        Some(i) => Some(without_git_suffix(url.skip(i + 1))),
        None => None,
    }
}

/// The checkout directory for a repository name and a revision:
/// the name, a slash, the revision.
pub open spec fn outdir_of(name: Seq<char>, rev: Seq<char>) -> Seq<char> {
    name + seq!['/'] + rev
}

/// The directory in which a checkout is configured and built.
pub open spec fn build_dir_of(outdir: Seq<char>) -> Seq<char> {
    outdir + seq!['/', 'b', 'u', 'i', 'l', 'd']
}

/// The checkout directory that a request for `url` at `rev` works in.
pub open spec fn checkout_of(url: Seq<char>, rev: Seq<char>) -> Option<Seq<char>> {
    match repo_name_of(url) {
        Some(name) => Some(outdir_of(name, rev)),
        None => None,
    }
}

/// A URL names a repository exactly when it holds a slash.
pub proof fn law_name_needs_slash(url: Seq<char>)
    ensures
        repo_name_of(url) is Some <==> url.contains('/'),
{
    url.index_of_last_ensures('/');
}

/// With the last slash of the URL at `i`: a URL that ends in `.git` is
/// named by what stands between that slash and the suffix, any other URL
/// by all that follows the slash. Either way the name holds no slash.
pub proof fn law_repo_name(url: Seq<char>, i: int)
    requires
        0 <= i < url.len(),
        url[i] == '/',
        forall|j: int| i < j < url.len() ==> url[j] != '/',
    ensures
        git_suffix().is_suffix_of(url) ==> i + 5 <= url.len() && repo_name_of(url) == Some(
            url.subrange(i + 1, url.len() - 4),
        ),
        !git_suffix().is_suffix_of(url) ==> repo_name_of(url) == Some(url.skip(i + 1)),
        repo_name_of(url) matches Some(name) && !name.contains('/'),
{
    url.index_of_last_ensures('/');
    let tail = url.skip(i + 1);
    let n = url.len() as int;
    if git_suffix().is_suffix_of(url) {
        let end = url.subrange(n - 4, n);
        assert(end =~= git_suffix());
        assert forall|k: int| n - 4 <= k < n implies url[k] != '/' by {
            assert(url[k] == end[k - (n - 4)]);
        }
        assert(tail.subrange(tail.len() - 4, tail.len() as int) =~= end);
        assert(tail.take(tail.len() - 4) =~= url.subrange(i + 1, n - 4));
    } else {
        if git_suffix().is_suffix_of(tail) {
            assert(url.subrange(n - 4, n) =~= tail.subrange(tail.len() - 4, tail.len() as int));
        }
    }
    let name = repo_name_of(url)->0;
    if name.contains('/') {
        let k = choose|k: int| 0 <= k < name.len() && name[k] == '/';
        assert(name[k] == url[i + 1 + k]);
    }
}

/// Derives the repository name from a URL; `None` for a URL without a
/// slash.
pub fn repo_name(url: &str) -> (name: Option<String>)
    ensures
        name.deep_view() == repo_name_of(url@),
{
    let chars = chars_of(url);
    let n = chars.len();
    let mut start: usize = n;
    while start > 0 && chars[start - 1] != '/'
        invariant
            start <= n,
            n == chars.len(),
            forall|j: int| start <= j < n ==> chars@[j] != '/',
        decreases start,
    {
        start -= 1;
    }
    proof {
        url@.index_of_last_ensures('/');
    }
    if start == 0 {
        return None;
    }
    let ghost tail = url@.skip(start as int);
    let has_suffix = n - start >= 4 && chars[n - 4] == '.' && chars[n - 3] == 'g' && chars[n - 2]
        == 'i' && chars[n - 1] == 't';
    proof {
        if has_suffix {
            assert(tail.subrange(tail.len() - 4, tail.len() as int) =~= git_suffix());
        } else if git_suffix().is_suffix_of(tail) {
            let end = tail.subrange(tail.len() - 4, tail.len() as int);
            assert(end[0] == chars@[n - 4]);
            assert(end[1] == chars@[n - 3]);
            assert(end[2] == chars@[n - 2]);
            assert(end[3] == chars@[n - 1]);
        }
    }
    let end = if has_suffix {
        n - 4
    } else {
        n
    };
    let name = url.substring_char(start, end).to_owned();
    proof {
        assert(name@ =~= without_git_suffix(tail));
    }
    Some(name)
}

/// Builds the checkout directory `<name>/<rev>`.
pub fn repo_outdir(name: &str, rev: &str) -> (outdir: String)
    ensures
        outdir@ == outdir_of(name@, rev@),
{
    let mut outdir = name.to_owned();
    outdir.append("/");
    outdir.append(rev);
    proof {
        reveal_strlit("/");
        assert("/"@ =~= seq!['/']);
    }
    outdir
}

/// Builds the build directory of a checkout, `<outdir>/build`.
pub fn build_dir(outdir: &str) -> (dir: String)
    ensures
        dir@ == build_dir_of(outdir@),
{
    let mut dir = outdir.to_owned();
    dir.append("/build");
    proof {
        reveal_strlit("/build");
        assert("/build"@ =~= seq!['/', 'b', 'u', 'i', 'l', 'd']);
    }
    dir
}

} // verus!
