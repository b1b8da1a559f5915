//! What the library knows of GitHub: how a repository is named in an
//! address, where its releases are asked for, how an answer becomes a
//! release, and which asset of a release is the one to install.

use crate::models::{InstallType, Release, ReleaseAsset};
use crate::resolver::{candidates_for, candidates_of, select, selection};
use crate::text::{
    chars_of, contains, has_char, has_infix, has_prefix, split, split_at_char, starts_with,
    string_of, strip_prefixes, strip_suffixes, trim, trim_end, trimmed, trimmed_end,
    without_prefixes, without_suffixes, CharClass,
};
use crate::time::{instant_of, parse_optional_timestamp};
use vstd::prelude::*;

verus! {

/// The settings of the client that talks to GitHub.
#[derive(Debug)]
pub struct GitHubApi {
    user_agent: String,
    timeout_secs: u64,
}

/// A release as GitHub reports it, its date still text.
#[derive(Debug)]
pub struct GitHubRelease {
    pub tag_name: String,
    pub name: Option<String>,
    pub body: Option<String>,
    pub published_at: Option<String>,
    pub prerelease: bool,
    pub draft: bool,
    pub assets: Vec<GitHubAsset>,
}

/// An asset as GitHub reports it.
#[derive(Debug)]
pub struct GitHubAsset {
    pub name: String,
    pub browser_download_url: String,
    pub content_type: String,
    pub size: u64,
}

/// What GitHub reports of a repository.
#[derive(Debug)]
pub struct RepoInfo {
    pub name: String,
    pub full_name: String,
    pub description: Option<String>,
    pub html_url: String,
}

/// The asset of the library that holds what `raw` holds.
pub open spec fn asset_of(raw: GitHubAsset) -> ReleaseAsset {
    ReleaseAsset {
        name: raw.name,
        browser_download_url: raw.browser_download_url,
        content_type: raw.content_type,
        size: raw.size,
    }
}

/// The date of a release: what its text, if it has one, spells as RFC 3339.
pub open spec fn published_of(text: Option<String>) -> Option<crate::time::Timestamp> {
    match text {
        Some(t) => instant_of(t@),
        None => None,
    }
}

/// `release` holds what `raw` holds: every field as it is, the date read
/// from its text, and the assets one for one in their order.
pub open spec fn is_release_of(release: Release, raw: GitHubRelease) -> bool {
    &&& release.tag_name == raw.tag_name
    &&& release.name == raw.name
    &&& release.body == raw.body
    &&& release.published_at == published_of(raw.published_at)
    &&& release.prerelease == raw.prerelease
    &&& release.draft == raw.draft
    &&& release.assets@ == raw.assets@.map_values(|a: GitHubAsset| asset_of(a))
}

/// The owner and the name of the repository that `path` names: its first
/// two pieces between slashes, neither empty, the name without `.git` at
/// its end.
pub open spec fn repo_of_path(path: Seq<char>) -> Option<(Seq<char>, Seq<char>)> {
    let parts = split(path, '/');
    if parts.len() >= 2 && parts[0].len() > 0 && parts[1].len() > 0 {
        Some((parts[0], strip_suffixes(parts[1], ".git"@)))
    } else {
        None
    }
}

/// An address as it is read: without white space around it and without
/// slashes at its end.
pub open spec fn tidied(url: Seq<char>) -> Seq<char> {
    trim_end(trim(url), CharClass::Exactly('/'))
}

/// The owner and the name of the repository that `url` names. Three forms
/// are read: a full address of github.com, the same without its scheme, and
/// the bare `owner/name`.
pub open spec fn repo_of_url(url: Seq<char>) -> Option<(Seq<char>, Seq<char>)> {
    let u = tidied(url);
    if starts_with(u, "https://github.com/"@) || starts_with(u, "http://github.com/"@) {
        repo_of_path(
            strip_prefixes(strip_prefixes(u, "https://github.com/"@), "http://github.com/"@),
        )
    } else if starts_with(u, "github.com/"@) {
        repo_of_path(strip_prefixes(u, "github.com/"@))
    } else if u.contains('/') && !u.contains(':') && !contains(u, "://"@) {
        repo_of_path(u)
    } else {
        None
    }
}

/// The texts of a pair of strings.
pub open spec fn pair_view(pair: Option<(String, String)>) -> Option<(Seq<char>, Seq<char>)> {
    match pair {
        Some((a, b)) => Some((a@, b@)),
        None => None,
    }
}

/// The owner and the name of the repository that `url` names.
pub fn parse_github_url(url: &str) -> (repo: Option<(String, String)>)
    ensures
        pair_view(repo) == repo_of_url(url@),
{
    let all = chars_of(url);
    let inner = trimmed(&all);
    let u = trimmed_end(&inner, CharClass::Exactly('/'));
    let https = chars_of("https://github.com/");
    let http = chars_of("http://github.com/");
    let bare = chars_of("github.com/");
    if has_prefix(&u, &https) || has_prefix(&u, &http) {
        let rest = without_prefixes(&u, &https);
        let path = without_prefixes(&rest, &http);
        return parse_repo_chars(&path);
    }
    if has_prefix(&u, &bare) {
        let path = without_prefixes(&u, &bare);
        return parse_repo_chars(&path);
    }
    if has_char(&u, '/') && !has_char(&u, ':') && !has_infix(&u, &chars_of("://")) {
        return parse_repo_chars(&u);
    }
    None
}

/// The owner and the name of the repository that `path` names.
pub fn parse_repo_path(path: &str) -> (repo: Option<(String, String)>)
    ensures
        pair_view(repo) == repo_of_path(path@),
{
    let chars = chars_of(path);
    parse_repo_chars(&chars)
}

fn parse_repo_chars(path: &Vec<char>) -> (repo: Option<(String, String)>)
    ensures
        pair_view(repo) == repo_of_path(path@),
{
    let parts = split_at_char(path, '/');
    if parts.len() >= 2 && parts[0].len() > 0 && parts[1].len() > 0 {
        let owner = string_of(&parts[0]);
        let name = without_suffixes(&parts[1], &chars_of(".git"));
        Some((owner, string_of(&name)))
    } else {
        None
    }
}

impl GitHubApi {
    /// The settings with which GitHub is asked.
    pub fn new() -> (api: Self)
        ensures
            api.agent() == "Autonomix/0.2.0"@,
            api.timeout() == 30,
    {
        GitHubApi { user_agent: String::from_str("Autonomix/0.2.0"), timeout_secs: 30 }
    }

    /// The name under which the client presents itself.
    pub closed spec fn agent(&self) -> Seq<char> {
        self.user_agent@
    }

    /// The name under which the client presents itself.
    pub fn user_agent(&self) -> (agent: &str)
        ensures
            agent@ == self.agent(),
    {
        self.user_agent.as_str()
    }

    /// The seconds after which a request is given up.
    pub closed spec fn timeout(&self) -> u64 {
        self.timeout_secs
    }

    /// The seconds after which a request is given up.
    pub fn timeout_secs(&self) -> (seconds: u64)
        ensures
            seconds == self.timeout(),
    {
        self.timeout_secs
    }

    /// The address under which GitHub's API describes a repository.
    pub open spec fn repo_address(owner: Seq<char>, repo: Seq<char>) -> Seq<char> {
        "https://api.github.com/repos/"@ + owner + "/"@ + repo
    }

    /// The address that answers with what GitHub knows of a repository.
    pub fn repo_info_url(&self, owner: &str, repo: &str) -> (url: String)
        ensures
            url@ == Self::repo_address(owner@, repo@),
    {
        let mut url = String::from_str("https://api.github.com/repos/");
        url.append(owner);
        url.append("/");
        url.append(repo);
        url
    }

    /// The address that answers with the latest release of a repository.
    pub fn latest_release_url(&self, owner: &str, repo: &str) -> (url: String)
        ensures
            url@ == Self::repo_address(owner@, repo@) + "/releases/latest"@,
    {
        let mut url = self.repo_info_url(owner, repo);
        url.append("/releases/latest");
        url
    }

    /// The address that answers with the ten most recent releases of a
    /// repository.
    pub fn releases_url(&self, owner: &str, repo: &str) -> (url: String)
        ensures
            url@ == Self::repo_address(owner@, repo@) + "/releases?per_page=10"@,
    {
        let mut url = self.repo_info_url(owner, repo);
        url.append("/releases?per_page=10");
        url
    }

    /// The release that holds what GitHub reported.
    pub fn convert_release(&self, gh: GitHubRelease) -> (release: Release)
        ensures
            is_release_of(release, gh),
    {
        let published_at = parse_optional_timestamp(&gh.published_at);
        let mut assets: Vec<ReleaseAsset> = Vec::new();
        let mut i: usize = 0;
        while i < gh.assets.len()
            invariant
                i <= gh.assets.len(),
                assets@.len() == i,
                forall|j: int| 0 <= j < i ==> assets@[j] == asset_of(gh.assets@[j]),
            decreases gh.assets.len() - i,
        {
            let raw = &gh.assets[i];
            assets.push(
                ReleaseAsset {
                    name: raw.name.clone(),
                    browser_download_url: raw.browser_download_url.clone(),
                    content_type: raw.content_type.clone(),
                    size: raw.size,
                },
            );
            i += 1;
        }
        assert(assets@ =~= gh.assets@.map_values(|a: GitHubAsset| asset_of(a)));
        Release {
            tag_name: gh.tag_name,
            name: gh.name,
            body: gh.body,
            published_at,
            prerelease: gh.prerelease,
            draft: gh.draft,
            assets,
        }
    }

    /// The asset of a release to install on a host of architecture `arch`,
    /// `preferred_type` being the format of what is installed already.
    pub fn find_best_asset<'a>(
        &self,
        assets: &'a [ReleaseAsset],
        preferred_type: Option<InstallType>,
        arch: &str,
    ) -> (best: Option<&'a ReleaseAsset>)
        ensures
            match selection(candidates_of(assets@, arch@), preferred_type) {
                Some(i) => 0 <= i < assets@.len() && best == Some(&assets@[i]),
                None => best is None,
            },
    {
        let candidates = candidates_for(assets, arch);
        proof {
            crate::resolver::lemma_selection_is_compatible(candidates@, preferred_type);
        }
        match select(&candidates, preferred_type) {
            Some(i) => Some(&assets[i]),
            None => None,
        }
    }
}

} // verus!
