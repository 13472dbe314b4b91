//! PR command: GitHub PRs and the local repositories they touch.
//!
//! ```text
//! GitHub API --> PrMatch (PR + path) --> local fetch+checkout
//! ```
//!
//! | Type             | Purpose                         |
//! |------------------|---------------------------------|
//! | `PrInfo`         | GitHub PR data from API         |
//! | `PrMatch`        | Matched PR with local repo path |
//! | `SearchResponse` | GitHub search API response      |

use vstd::prelude::*;

use crate::path::{answers, first_answered};

use crate::text::{
    concat2, concat3, dec, opt_view, owned, parse_u64, replace_char, replaced, rsplit_once, spec_parse_u64,
    spec_rsplit_once, spec_split_once, split_once, u64_to_string,
};

verus! {

/// GitHub PR information from the API.
#[derive(Debug, Clone)]
pub struct PrInfo {
    pub number: u64,
    pub title: String,
    pub state: String,
    pub head: PrHead,
}

/// PR head information (branch details).
#[derive(Debug, Clone)]
pub struct PrHead {
    pub repo: Option<PrRepo>,
    pub ref_name: String,
    pub sha: String,
}

/// PR repository information.
#[derive(Debug, Clone)]
pub struct PrRepo {
    pub clone_url: String,
    pub full_name: String,
}

/// Search result for PRs.
#[derive(Debug, Clone)]
pub struct SearchResponse {
    pub total_count: u64,
    pub items: Vec<SearchItem>,
}

/// Individual search result item.
#[derive(Debug, Clone)]
pub struct SearchItem {
    pub number: u64,
    pub title: String,
    pub repository_url: String,
    pub state: String,
    pub pull_request: Option<PullRequestLink>,
}

/// Pull request link in search results.
#[derive(Debug, Clone)]
pub struct PullRequestLink {
    pub url: String,
}

/// Matched PR across repositories.
#[derive(Debug)]
pub struct PrMatch {
    repo: String,
    pr_number: u64,
    title: String,
    head_ref: String,
    head_sha: String,
    clone_url: String,
    local_path: Option<String>,
}

impl PrMatch {
    /// The repository name.
    pub closed spec fn repo_view(&self) -> Seq<char> {
        self.repo@
    }

    /// The PR number.
    pub closed spec fn number(&self) -> u64 {
        self.pr_number
    }

    /// The PR title.
    pub closed spec fn title_view(&self) -> Seq<char> {
        self.title@
    }

    /// The head ref (branch name).
    pub closed spec fn head_ref_view(&self) -> Seq<char> {
        self.head_ref@
    }

    /// The head SHA.
    pub closed spec fn head_sha_view(&self) -> Seq<char> {
        self.head_sha@
    }

    /// The clone URL.
    pub closed spec fn clone_url_view(&self) -> Seq<char> {
        self.clone_url@
    }

    /// The local path, if the repo was found locally.
    pub closed spec fn local_path_view(&self) -> Option<Seq<char>> {
        opt_view(self.local_path)
    }

    /// Creates a new `PrMatch`.
    pub fn new(
        repo: String,
        pr_number: u64,
        title: String,
        head_ref: String,
        head_sha: String,
        clone_url: String,
        local_path: Option<String>,
    ) -> (r: Self)
        ensures
            r.repo_view() == repo@,
            r.number() == pr_number,
            r.title_view() == title@,
            r.head_ref_view() == head_ref@,
            r.head_sha_view() == head_sha@,
            r.clone_url_view() == clone_url@,
            r.local_path_view() == opt_view(local_path),
    {
        PrMatch { repo, pr_number, title, head_ref, head_sha, clone_url, local_path }
    }

    /// Returns the repository name.
    pub fn repo(&self) -> (r: &str)
        ensures
            r@ == self.repo_view(),
    {
        self.repo.as_str()
    }

    /// Returns the PR number.
    pub fn pr_number(&self) -> (r: u64)
        ensures
            r == self.number(),
    {
        self.pr_number
    }

    /// Returns the PR title.
    pub fn title(&self) -> (r: &str)
        ensures
            r@ == self.title_view(),
    {
        self.title.as_str()
    }

    /// Returns the head ref (branch name).
    pub fn head_ref(&self) -> (r: &str)
        ensures
            r@ == self.head_ref_view(),
    {
        self.head_ref.as_str()
    }

    /// Returns the head SHA.
    pub fn head_sha(&self) -> (r: &str)
        ensures
            r@ == self.head_sha_view(),
    {
        self.head_sha.as_str()
    }

    /// Returns the clone URL.
    pub fn clone_url(&self) -> (r: &str)
        ensures
            r@ == self.clone_url_view(),
    {
        self.clone_url.as_str()
    }

    /// Returns the local path, if the repo is found locally.
    pub fn local_path(&self) -> (r: Option<&String>)
        ensures
            match r {
                Some(p) => self.local_path_view() == Some(p@),
                None => self.local_path_view() is None,
            },
    {
        match &self.local_path {
            Some(p) => Some(p),
            None => None,
        }
    }
}

/// A PR argument that could not be read.
#[derive(Debug)]
pub enum PrArgError {
    /// The PR number is not an unsigned integer.
    InvalidNumber(String),
}

impl PrArgError {
    /// The text shown to the user.
    pub fn message(&self) -> (r: String)
        ensures
            self matches PrArgError::InvalidNumber(n) ==> r@ == "invalid PR number: "@ + n@,
    {
        match self {
            PrArgError::InvalidNumber(n) => concat2("invalid PR number: ", n.as_str()),
        }
    }
}

/// What a PR argument says: `task/123` names a repository and a number,
/// `123` a number alone; anything else is rejected.
pub open spec fn pr_arg(pr: Seq<char>) -> Option<(Option<Seq<char>>, u64)> {
    match spec_split_once(pr, '/') {
        Some((repo, num)) => match spec_parse_u64(num) {
            Some(n) => Some((Some(repo), n)),
            None => None,
        },
        None => match spec_parse_u64(pr) {
            Some(n) => Some((None, n)),
            None => None,
        },
    }
}

/// Parses a PR argument: `"task/123"` or just `"123"`; the text after the
/// first `/` must be the number.
///
/// # Errors
///
/// Returns `PrArgError::InvalidNumber` if the number is not a valid
/// unsigned integer.
pub fn parse_pr_arg(pr: &str) -> (r: Result<(Option<String>, u64), PrArgError>)
    ensures
        match pr_arg(pr@) {
            Some((repo, n)) => r matches Ok((rr, rn)) && opt_view(rr) == repo && rn == n,
            None => r is Err,
        },
{
    match split_once(pr, '/') {
        Some((repo, num)) => match parse_u64(num.as_str()) {
            Some(n) => Ok((Some(repo), n)),
            None => Err(PrArgError::InvalidNumber(num)),
        },
        None => match parse_u64(pr) {
            Some(n) => Ok((None, n)),
            None => Err(PrArgError::InvalidNumber(owned(pr))),
        },
    }
}

/// The API address of one pull request.
pub open spec fn pr_info_url_text(org: Seq<char>, repo: Seq<char>, pr: u64) -> Seq<char> {
    "https://api.github.com/repos/"@ + org + "/"@ + repo + "/pulls/"@ + dec(pr as nat)
}

/// The API address of pull request `pr` of `org/repo`.
pub fn pr_info_url(org: &str, repo: &str, pr: u64) -> (r: String)
    ensures
        r@ == pr_info_url_text(org@, repo@, pr),
{
    let mut r = concat3("https://api.github.com/repos/", org, "/");
    r.append(repo);
    r.append("/pulls/");
    let n = u64_to_string(pr);
    r.append(n.as_str());
    r
}

/// The search query for PRs of `org`, optionally by `author` and
/// mentioning `number`.
pub open spec fn search_query_text(org: Seq<char>, author: Option<Seq<char>>, number: Option<u64>) -> Seq<char> {
    "org:"@ + org + " type:pr"@ + match author {
        Some(a) => " author:"@ + a,
        None => Seq::empty(),
    } + match number {
        Some(n) => " "@ + dec(n as nat) + " in:title,body"@,
        None => Seq::empty(),
    }
}

/// The search query always starts with the organisation and the PR filter;
/// a given author follows right after it as ` author:<author>`, whether or
/// not a number is given; a given number only appends ` <number>
/// in:title,body` to the query without it; and with neither, the query is
/// just the organisation and the filter.
pub proof fn lemma_search_query_filters(org: Seq<char>, author: Option<Seq<char>>, number: Option<u64>)
    ensures
        ({
            let q = search_query_text(org, author, number);
            let head = "org:"@ + org + " type:pr"@;
            &&& q.len() >= head.len()
            &&& q.subrange(0, head.len() as int) == head
            &&& (author matches Some(a) ==> q.len() >= head.len() + (" author:"@ + a).len() && q.subrange(
                head.len() as int,
                head.len() + (" author:"@ + a).len() as int,
            ) == " author:"@ + a)
            &&& (number matches Some(n) ==> q == search_query_text(org, author, None) + " "@ + dec(n as nat)
                + " in:title,body"@)
            &&& (author is None && number is None ==> q == head)
            &&& (number is None ==> q.len() == head.len() + match author {
                Some(a) => (" author:"@ + a).len(),
                None => 0,
            })
        }),
{
    let q = search_query_text(org, author, number);
    let head = "org:"@ + org + " type:pr"@;
    let mid: Seq<char> = match author {
        Some(a) => " author:"@ + a,
        None => Seq::empty(),
    };
    let tail: Seq<char> = match number {
        Some(n) => " "@ + dec(n as nat) + " in:title,body"@,
        None => Seq::empty(),
    };
    assert(q == head + mid + tail);
    assert(q.subrange(0, head.len() as int) =~= head);
    assert(q.subrange(head.len() as int, head.len() + mid.len() as int) =~= mid);
    assert(search_query_text(org, author, None) =~= head + mid);
    if number is Some {
        assert(q =~= search_query_text(org, author, None) + tail);
    }
    if author is None && number is None {
        assert(q =~= head);
    }
}

/// The search address for a query: spaces as `+` and colons as `%3A`.
pub open spec fn search_url_text(query: Seq<char>) -> Seq<char> {
    "https://api.github.com/search/issues?q="@ + replaced(replaced(query, ' ', "+"@), ':', "%3A"@)
        + "&per_page=100"@
}

/// The search query for PRs of `org`.
pub fn search_query(org: &str, author: Option<&str>, number: Option<u64>) -> (r: String)
    ensures
        r@ == search_query_text(
            org@,
            match author {
                Some(a) => Some(a@),
                None => None,
            },
            number,
        ),
{
    let mut r = concat3("org:", org, " type:pr");
    match author {
        Some(a) => {
            r.append(" author:");
            r.append(a);
        },
        None => {},
    }
    match number {
        Some(n) => {
            r.append(" ");
            let t = u64_to_string(n);
            r.append(t.as_str());
            r.append(" in:title,body");
        },
        None => {},
    }
    r
}

/// The search address for `query`.
pub fn search_url(query: &str) -> (r: String)
    ensures
        r@ == search_url_text(query@),
{
    let a = replace_char(query, ' ', "+");
    let b = replace_char(a.as_str(), ':', "%3A");
    let mut r = concat2("https://api.github.com/search/issues?q=", b.as_str());
    r.append("&per_page=100");
    r
}

/// The organization and repository named by the last two `/`-separated
/// parts of a repository address (`https://api.github.com/repos/{org}/{repo}`),
/// or `None` without a `/`.
pub open spec fn repo_of_url(url: Seq<char>) -> Option<(Seq<char>, Seq<char>)> {
    match spec_rsplit_once(url, '/') {
        Some((before, repo)) => match spec_rsplit_once(before, '/') {
            Some((_, org)) => Some((org, repo)),
            None => Some((before, repo)),
        },
        None => None,
    }
}

/// Splits a repository address into organization and repository.
pub fn split_repository_url(url: &str) -> (r: Option<(String, String)>)
    ensures
        match r {
            Some((org, repo)) => repo_of_url(url@) == Some((org@, repo@)),
            None => repo_of_url(url@) is None,
        },
{
    match rsplit_once(url, '/') {
        Some((before, repo)) => match rsplit_once(before.as_str(), '/') {
            Some((_, org)) => Some((org, repo)),
            None => Some((before, repo)),
        },
        None => None,
    }
}

/// The refspec that fetches the head of PR `n`.
pub fn pr_refspec(n: u64) -> (r: String)
    ensures
        r@ == "refs/pull/"@ + dec(n as nat) + "/head"@,
{
    let t = u64_to_string(n);
    concat3("refs/pull/", t.as_str(), "/head")
}

/// The clone address of a PR's head repository, empty where it has none.
pub fn head_clone_url(info: &PrInfo) -> (r: String)
    ensures
        r@ == match info.head.repo {
            Some(repo) => repo.clone_url@,
            None => Seq::empty(),
        },
{
    match &info.head.repo {
        Some(repo) => repo.clone_url.clone(),
        None => String::new(),
    }
}

/// The places where a repository may be checked out under the build
/// directory, in the order they are tried: `usvfs` first for `usvfs`, then
/// `modorganizer_super/<repo>`.
pub open spec fn local_repo_candidates_spec(build: Seq<char>, repo: Seq<char>, sep: char) -> Seq<Seq<char>> {
    let sup = crate::path::path_join(crate::path::path_join(build, "modorganizer_super"@, sep), repo, sep);
    if repo == "usvfs"@ {
        seq![crate::path::path_join(build, "usvfs"@, sep), sup]
    } else {
        seq![sup]
    }
}

/// The places where `repo` may be checked out under `build`.
pub fn local_repo_candidates(build: &str, repo: &str, sep: char) -> (r: Vec<String>)
    ensures
        crate::text::views(r@) == local_repo_candidates_spec(build@, repo@, sep),
{
    let mut out: Vec<String> = Vec::new();
    if crate::text::str_eq(repo, "usvfs") {
        out.push(crate::path::join_with(build, "usvfs", sep));
    }
    let s = crate::path::join_with(build, "modorganizer_super", sep);
    out.push(crate::path::join_with(s.as_str(), repo, sep));
    assert(crate::text::views(out@) =~= local_repo_candidates_spec(build@, repo@, sep));
    out
}

/// The first place where `repo_name` is checked out under `paths.build`:
/// of its candidate places, in order, the first that `is_git_repo` takes
/// for a git checkout (it answers no where nothing exists). `None` when the
/// build directory is not set or no place qualifies.
pub fn find_local_repo<F: Fn(&str) -> bool>(config: &crate::config::Config, repo_name: &str, is_git_repo: F) -> (r:
    Option<String>)
    requires
        forall|p: &str| #[trigger] is_git_repo.requires((p,)),
    ensures
        match config.paths.build {
            None => r is None,
            Some(b) => exists|sep: char|
                (sep == '/' || sep == '\\') && first_answered(
                    local_repo_candidates_spec(b@, repo_name@, sep),
                    is_git_repo,
                    r,
                ),
        },
{
    let build = match &config.paths.build {
        Some(b) => b,
        None => return None,
    };
    let sep = crate::path::main_separator();
    let candidates = local_repo_candidates(build.as_str(), repo_name, sep);
    let ghost cands = local_repo_candidates_spec(build@, repo_name@, sep);
    let mut i: usize = 0;
    while i < candidates.len()
        invariant
            i <= candidates@.len(),
            forall|p: &str| #[trigger] is_git_repo.requires((p,)),
            crate::text::views(candidates@) == cands,
            config.paths.build matches Some(b) && b@ == build@,
            cands == local_repo_candidates_spec(build@, repo_name@, sep),
            sep == '/' || sep == '\\',
            forall|j: int| 0 <= j < i ==> answers(is_git_repo, #[trigger] cands[j], false),
        decreases candidates.len() - i,
    {
        let c = &candidates[i];
        let cs: &str = c.as_str();
        let yes = is_git_repo(cs);
        proof {
            assert(crate::text::views(candidates@)[i as int] == c@);
            assert(cands[i as int] == cs@);
            assert(answers(is_git_repo, cands[i as int], yes));
        }
        if yes {
            let found = c.clone();
            proof {
                assert(cands[i as int] == found@);
                assert(first_answered(cands, is_git_repo, Some(found)));
            }
            return Some(found);
        }
        i = i + 1;
    }
    proof {
        assert(first_answered(cands, is_git_repo, None::<String>));
    }
    None
}

} // verus!
