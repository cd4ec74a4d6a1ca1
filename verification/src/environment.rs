//! Where a copy of the tool itself can be obtained from, decided from facts
//! about the running executable that the caller has collected.

use crate::text::{
    after, ends_with, has_prefix, has_suffix, join, optional_text, same_text, starts_with,
    strip_prefix,
};
use vstd::prelude::*;
use vstd::string::StrSliceExecFns;
use vstd::string::StringExecFns;

verus! {

/// The address of the canonical Git repository.
pub open spec fn canonical_git_repo_url() -> Seq<char> {
    "https://github.com/silverjam/PyOxidizer.git"@
}

/// The identifier of the first commit of the canonical repository.
pub open spec fn root_commit() -> Seq<char> {
    "66e694ca1466a9056047a359396b79466d3051b7"@
}

/// The mathematical value of a [`PyOxidizerSource`].
pub enum SourceView {
    LocalPath { path: Seq<char> },
    GitUrl { url: Seq<char>, commit: Option<Seq<char>>, tag: Option<Seq<char>> },
}

/// Describes the location of the tool's source files.
#[derive(Debug, PartialEq, Eq)]
pub enum PyOxidizerSource {
    /// A local filesystem path.
    LocalPath { path: String },
    /// A Git repository somewhere, by its address and a commit or a tag.
    GitUrl { url: String, commit: Option<String>, tag: Option<String> },
}

impl View for PyOxidizerSource {
    type V = SourceView;

    open spec fn view(&self) -> SourceView {
        match self {
            PyOxidizerSource::LocalPath { path } => SourceView::LocalPath { path: path@ },
            PyOxidizerSource::GitUrl { url, commit, tag } => SourceView::GitUrl {
                url: url@,
                commit: optional_text(*commit),
                tag: optional_text(*tag),
            },
        }
    }
}

/// The mathematical value of a [`PyembedLocation`].
pub enum PyembedView {
    Version(Seq<char>),
    Path(Seq<char>),
    Git(Seq<char>, Seq<char>),
}

/// Where the embedding library is referenced from.
#[derive(Debug, PartialEq, Eq)]
pub enum PyembedLocation {
    /// A published version.
    Version(String),
    /// A local filesystem path.
    Path(String),
    /// A Git repository and a commit in it.
    Git(String, String),
}

impl View for PyembedLocation {
    type V = PyembedView;

    open spec fn view(&self) -> PyembedView {
        match self {
            PyembedLocation::Version(v) => PyembedView::Version(v@),
            PyembedLocation::Path(p) => PyembedView::Path(p@),
            PyembedLocation::Git(url, commit) => PyembedView::Git(url@, commit@),
        }
    }
}

/// The fields by which a package manifest refers to the embedding library:
/// its version, its path, or its repository and revision, each value in
/// double quotes.
pub open spec fn manifest_fields(location: PyembedView) -> Seq<char> {
    match location {
        PyembedView::Version(version) => "version = \""@ + version + "\""@,
        PyembedView::Path(path) => "path = \""@ + path + "\""@,
        PyembedView::Git(url, commit) => "git = \""@ + url + "\", rev = \""@ + commit + "\""@,
    }
}

impl PyembedLocation {
    /// The fields by which a package manifest refers to the embedding
    /// library.
    pub fn cargo_manifest_fields(&self) -> (r: String)
        ensures
            r@ == manifest_fields(self@),
    {
        match self {
            PyembedLocation::Version(version) => join("version = \"", version.as_str()).concat(
                "\"",
            ),
            PyembedLocation::Path(path) => join("path = \"", path.as_str()).concat("\""),
            PyembedLocation::Git(url, commit) => {
                let mut r = join("git = \"", url.as_str());
                r.append("\", rev = \"");
                r.append(commit.as_str());
                r.append("\"");
                r
            },
        }
    }
}

/// Describes the run-time environment of the tool.
#[derive(Debug, PartialEq, Eq)]
pub struct Environment {
    /// Where a copy of the tool can be obtained from.
    pub pyoxidizer_source: PyOxidizerSource,
}

/// The text with every backslash turned into a slash.
pub open spec fn slashed(s: Seq<char>) -> Seq<char> {
    s.map_values(|c: char| if c == '\\' { '/' } else { c })
}

/// The canonical text of a resolved path. On Windows every backslash
/// becomes a slash and a leading `//?/` is taken off; elsewhere the text is
/// kept as it is.
pub open spec fn canonical_text(resolved: Seq<char>, windows: bool) -> Seq<char> {
    if windows {
        if has_prefix(slashed(resolved), "//?/"@) {
            after(slashed(resolved), "//?/"@.len())
        } else {
            slashed(resolved)
        }
    } else {
        resolved
    }
}

/// The text with every backslash turned into a slash.
fn with_slashes(s: &str) -> (r: String)
    ensures
        r@ == slashed(s@),
{
    let n = s.unicode_len();
    let mut r = String::new();
    let mut i: usize = 0;
    while i < n
        invariant
            n == s@.len(),
            i <= n,
            r@ == slashed(s@.subrange(0, i as int)),
        decreases n - i,
    {
        let ghost before = r@;
        if s.get_char(i) == '\\' {
            r.append("/");
            proof {
                reveal_strlit("/");
                assert("/"@ =~= seq!['/']);
            }
        } else {
            r.append(s.substring_char(i, i + 1));
        }
        proof {
            assert(r@ =~= slashed(s@.subrange(0, i + 1)));
        }
        i += 1;
    }
    proof {
        assert(s@.subrange(0, n as int) =~= s@);
    }
    r
}

/// Puts the text of a path that the file system has resolved into its
/// canonical form: unchanged, or on Windows with slashes for backslashes and
/// without the `//?/` in front.
pub fn canonicalize_path(resolved: &str, windows: bool) -> (r: String)
    ensures
        r@ == canonical_text(resolved@, windows),
{
    if windows {
        let s = with_slashes(resolved);
        match strip_prefix(s.as_str(), "//?/") {
            Some(rest) => rest,
            None => s,
        }
    } else {
        String::from_str(resolved)
    }
}

/// The version text of a build: a release carries the package version, and
/// a version that ends in `-pre` carries the commit behind it.
pub open spec fn version_text(package_version: Seq<char>, build_git_commit: Seq<char>) -> Seq<
    char,
> {
    if has_suffix(package_version, "-pre"@) {
        package_version + "-"@ + build_git_commit
    } else {
        package_version
    }
}

/// The version text of a build, from its package version and the commit
/// that the build recorded.
pub fn pyoxidizer_version(package_version: &str, build_git_commit: &str) -> (r: String)
    ensures
        r@ == version_text(package_version@, build_git_commit@),
{
    if ends_with(package_version, "-pre") {
        join(package_version, "-").concat(build_git_commit)
    } else {
        String::from_str(package_version)
    }
}

/// The commit that a build records, if it records one: an empty text and
/// `UNKNOWN` stand for none.
pub open spec fn recorded_commit(build_git_commit: Seq<char>) -> Option<Seq<char>> {
    if build_git_commit == ""@ || build_git_commit == "UNKNOWN"@ {
        None
    } else {
        Some(build_git_commit)
    }
}

/// The tag of a version: the version itself where it begins with `v`, and
/// the version behind a `v` otherwise.
pub open spec fn version_tag(build_semver: Seq<char>) -> Seq<char> {
    if has_prefix(build_semver, "v"@) {
        build_semver
    } else {
        "v"@ + build_semver
    }
}

/// The source that a build of the tool points to: the canonical repository
/// at the commit that the build records, or at the tag of its version where
/// it records no commit. Commit and tag exclude each other.
pub open spec fn built_source(build_git_commit: Seq<char>, build_semver: Seq<char>) -> SourceView {
    SourceView::GitUrl {
        url: canonical_git_repo_url(),
        commit: recorded_commit(build_git_commit),
        tag: if recorded_commit(build_git_commit) is Some {
            None
        } else {
            Some(version_tag(build_semver))
        },
    }
}

/// The source of the repository that the tool was built from, given the
/// commit and the version that the build recorded.
pub fn built_git_url(build_git_commit: &str, build_semver: &str) -> (r: PyOxidizerSource)
    ensures
        r@ == built_source(build_git_commit@, build_semver@),
{
    let commit = if same_text(build_git_commit, "") || same_text(build_git_commit, "UNKNOWN") {
        None
    } else {
        Some(String::from_str(build_git_commit))
    };
    let tag = if commit.is_some() {
        None
    } else if !starts_with(build_semver, "v") {
        Some(join("v", build_semver))
    } else {
        Some(String::from_str(build_semver))
    };
    PyOxidizerSource::GitUrl {
        url: String::from_str("https://github.com/silverjam/PyOxidizer.git"),
        commit,
        tag,
    }
}

/// What was found out about the Git repository that holds the running
/// executable.
#[derive(Debug, PartialEq, Eq)]
pub struct DiscoveredRepository {
    /// The identifier of the commit without parents that the head descends
    /// from.
    pub root_commit: String,
    /// The canonical path of the working directory, if there is one.
    pub workdir: Option<String>,
}

/// What a repository without a working directory is answered with.
pub open spec fn no_workdir_message() -> Seq<char> {
    "unable to resolve Git workdir"@
}

/// The source of the tool, from what was found around the executable. In a
/// checkout of the canonical repository it is the working directory, which
/// has to exist. In any other repository, and outside of one, it is what
/// the build recorded.
pub open spec fn resolved_source(
    repository: Option<(Seq<char>, Option<Seq<char>>)>,
    build_git_commit: Seq<char>,
    build_semver: Seq<char>,
) -> Result<SourceView, Seq<char>> {
    match repository {
        Some((root, workdir)) => if root == root_commit() {
            match workdir {
                Some(path) => Ok(SourceView::LocalPath { path: path }),
                None => Err(no_workdir_message()),
            }
        } else {
            Ok(built_source(build_git_commit, build_semver))
        },
        None => Ok(built_source(build_git_commit, build_semver)),
    }
}

/// The view of what was found out about a repository.
pub open spec fn repository_view(r: Option<DiscoveredRepository>) -> Option<
    (Seq<char>, Option<Seq<char>>),
> {
    match r {
        Some(d) => Some((d.root_commit@, optional_text(d.workdir))),
        None => None,
    }
}

/// Whether a commit without parents is the first commit of the canonical
/// repository. Only then is the working directory of a repository looked at.
pub fn is_canonical_root(commit: &str) -> (r: bool)
    ensures
        r == (commit@ == root_commit()),
{
    same_text(commit, "66e694ca1466a9056047a359396b79466d3051b7")
}

/// Decides where the tool was obtained from. `repository` is what the
/// caller found out about the Git repository around the executable, if it
/// lies in one; the other two are what the build recorded.
pub fn resolve_environment(
    repository: Option<DiscoveredRepository>,
    build_git_commit: &str,
    build_semver: &str,
) -> (r: Result<Environment, String>)
    ensures
        match r {
            Ok(e) => resolved_source(repository_view(repository), build_git_commit@, build_semver@)
                == Ok::<SourceView, Seq<char>>(e.pyoxidizer_source@),
            Err(m) => resolved_source(repository_view(repository), build_git_commit@, build_semver@)
                == Err::<SourceView, Seq<char>>(m@),
        },
{
    let pyoxidizer_source = match repository {
        Some(found) => {
            if is_canonical_root(found.root_commit.as_str()) {
                match found.workdir {
                    Some(path) => PyOxidizerSource::LocalPath { path },
                    None => {
                        return Err(String::from_str("unable to resolve Git workdir"));
                    },
                }
            } else {
                built_git_url(build_git_commit, build_semver)
            }
        },
        None => built_git_url(build_git_commit, build_semver),
    };
    Ok(Environment { pyoxidizer_source })
}

/// Where the embedding library is referenced from: the local directory in a
/// checkout, the repository at its commit where one is known, and the
/// published version otherwise.
pub open spec fn pyembed_location(
    source: SourceView,
    local_pyembed: Seq<char>,
    version: Seq<char>,
) -> PyembedView {
    match source {
        SourceView::LocalPath { .. } => PyembedView::Path(local_pyembed),
        SourceView::GitUrl { url, commit, .. } => match commit {
            Some(c) => PyembedView::Git(url, c),
            None => PyembedView::Version(version),
        },
    }
}

/// The long form of the version information: the version, the commit, the
/// source and the manifest fields of the embedding library, one to a line.
pub open spec fn long_version(
    source: SourceView,
    version: Seq<char>,
    build_git_commit: Seq<char>,
    local_pyembed: Seq<char>,
) -> Seq<char> {
    version + "\ncommit: "@ + build_git_commit + "\nsource: "@ + (match source {
        SourceView::LocalPath { path } => path,
        SourceView::GitUrl { url, .. } => url,
    }) + "\npyembed crate location: "@ + manifest_fields(
        pyembed_location(source, local_pyembed, version),
    )
}

impl Environment {
    /// Determines where the embedding library is referenced from.
    /// `local_pyembed` is the canonical path of its directory in a local
    /// checkout, which is used for a local source only; `version` is the
    /// published version of this build.
    pub fn as_pyembed_location(&self, local_pyembed: &str, version: &str) -> (r: PyembedLocation)
        ensures
            r@ == pyembed_location(self.pyoxidizer_source@, local_pyembed@, version@),
    {
        match &self.pyoxidizer_source {
            PyOxidizerSource::LocalPath { .. } => PyembedLocation::Path(
                String::from_str(local_pyembed),
            ),
            PyOxidizerSource::GitUrl { url, commit, .. } => match commit {
                Some(commit) => PyembedLocation::Git(url.clone(), commit.clone()),
                None => PyembedLocation::Version(String::from_str(version)),
            },
        }
    }

    /// The long form of the version information of the executable: the
    /// version, the commit, the source and the reference to the embedding
    /// library, one to a line. `local_pyembed` is the canonical path of the
    /// library's directory in a local checkout, which is used for a local
    /// source only.
    pub fn version_long(&self, version: &str, build_git_commit: &str, local_pyembed: &str) -> (r:
        String)
        ensures
            r@ == long_version(self.pyoxidizer_source@, version@, build_git_commit@, local_pyembed@),
    {
        let mut r = join(version, "\ncommit: ");
        r.append(build_git_commit);
        r.append("\nsource: ");
        match &self.pyoxidizer_source {
            PyOxidizerSource::LocalPath { path } => {
                r.append(path.as_str());
            },
            PyOxidizerSource::GitUrl { url, .. } => {
                r.append(url.as_str());
            },
        }
        r.append("\npyembed crate location: ");
        r.append(self.as_pyembed_location(local_pyembed, version).cargo_manifest_fields().as_str());
        r
    }
}

} // verus!
