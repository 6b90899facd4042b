use vstd::prelude::*;

use crate::errors::ResolutionError;
use vstd::string::StrSliceExecFns;
use vstd::string::StringExecFns;

verus! {

/// What local package metadata records about one package: its name, the
/// source repository it declares (if any), and the path of its on-disk
/// manifest, beside which the recorded source-control revision lives.
pub struct PackageRecord {
    pub name: String,
    pub repository: Option<String>,
    pub manifest_path: String,
}

/// A user-supplied reference, classified: either a raw repository URL used
/// directly, or a package name to be resolved through local metadata.
#[derive(Debug)]
pub enum PackageReference {
    Url(String),
    Package(String),
}

/// Whether a text looks like a URL: it holds a `://` scheme separator.
pub open spec fn is_url_spec(s: Seq<char>) -> bool {
    exists|i: int|
        0 <= i && i + 2 < s.len() && #[trigger] s[i] == ':' && s[i + 1] == '/' && s[i + 2] == '/'
}

/// Whether an identifier is a syntactically plausible URL.
pub fn is_url(s: &String) -> (r: bool)
    ensures
        r == is_url_spec(s@),
{
    let text = s.as_str();
    let n = text.unicode_len();
    if n < 3 {
        assert(!is_url_spec(s@));
        return false;
    }
    let mut i: usize = 0;
    while i + 2 < n
        invariant
            n == s@.len(),
            text@ == s@,
            i + 2 <= n,
            forall|w: int|
                0 <= w < i ==> !(#[trigger] s@[w] == ':' && s@[w + 1] == '/' && s@[w + 2]
                    == '/'),
        decreases n - i,
    {
        let c0 = text.get_char(i);
        let c1 = text.get_char(i + 1);
        let c2 = text.get_char(i + 2);
        if c0 == ':' && c1 == '/' && c2 == '/' {
            assert(is_url_spec(s@));
            return true;
        }
        i = i + 1;
    }
    assert(forall|w: int|
        0 <= w && w + 2 < s@.len() ==> !(#[trigger] s@[w] == ':' && s@[w + 1] == '/' && s@[w + 2]
            == '/'));
    false
}

/// Classifies a user-supplied identifier: a syntactically plausible URL is
/// used directly, anything else is treated as a package name.
pub fn classify_reference(ident: String) -> (r: PackageReference)
    ensures
        is_url_spec(ident@) ==> r == PackageReference::Url(ident),
        !is_url_spec(ident@) ==> r == PackageReference::Package(ident),
{
    if is_url(&ident) {
        PackageReference::Url(ident)
    } else {
        PackageReference::Package(ident)
    }
}

/// How many of the packages carry the given name.
pub open spec fn matches_count(pkgs: Seq<PackageRecord>, name: Seq<char>) -> int
    decreases pkgs.len(),
{
    if pkgs.len() == 0 {
        0
    } else {
        matches_count(pkgs.drop_last(), name) + if pkgs.last().name@ == name {
            1int
        } else {
            0int
        }
    }
}

/// Selects the one local package carrying the requested name.  Exactly one
/// match yields its position; none yields `PackageNotFound`, several yield
/// `AmbiguousPackage`.
pub fn select_package(packages: &Vec<PackageRecord>, name: &String) -> (r: Result<
    usize,
    ResolutionError,
>)
    ensures
        r is Ok <==> matches_count(packages@, name@) == 1,
        r is Ok ==> r->Ok_0 < packages@.len() && packages@[r->Ok_0 as int].name@ == name@,
        r is Err ==> (r->Err_0 == ResolutionError::PackageNotFound <==> matches_count(
            packages@,
            name@,
        ) == 0),
        r is Err ==> (r->Err_0 == ResolutionError::AmbiguousPackage <==> matches_count(
            packages@,
            name@,
        ) >= 2),
{
    let mut count: usize = 0;
    let mut found: usize = 0;
    let mut i: usize = 0;
    while i < packages.len()
        invariant
            i <= packages.len(),
            count == matches_count(packages@.take(i as int), name@),
            count <= i,
            count >= 1 ==> found < i && packages@[found as int].name@ == name@,
        decreases packages.len() - i,
    {
        let ghost prefix = packages@.take(i as int);
        if packages[i].name == *name {
            if count == 0 {
                found = i;
            }
            count = count + 1;
        }
        proof {
            assert(packages@.take(i + 1).drop_last() =~= prefix);
            assert(packages@.take(i + 1).last() == packages@[i as int]);
        }
        i = i + 1;
    }
    proof {
        assert(packages@.take(packages@.len() as int) == packages@);
    }
    if count == 0 {
        Err(ResolutionError::PackageNotFound)
    } else if count > 1 {
        Err(ResolutionError::AmbiguousPackage)
    } else {
        Ok(found)
    }
}

/// The repository URL the checkout will clone: the package's declared
/// repository with `.git` appended, or `MissingRepositoryMetadata` when the
/// package declares none.
pub fn repository_url(pkg: &PackageRecord) -> (r: Result<String, ResolutionError>)
    ensures
        r is Ok <==> pkg.repository is Some,
        r is Ok ==> r->Ok_0@ == pkg.repository->0@ + ".git"@,
        r is Err ==> r->Err_0 == ResolutionError::MissingRepositoryMetadata,
{
    match &pkg.repository {
        Some(url) => {
            let mut full = url.clone();
            full.append(".git");
            Ok(full)
        },
        None => Err(ResolutionError::MissingRepositoryMetadata),
    }
}

/// The string at the JSON document's field `k1.k2`, if the text parses as
/// JSON and holds a string there.
pub uninterp spec fn json_string_at(s: Seq<char>, k1: Seq<char>, k2: Seq<char>) -> Option<
    Seq<char>,
>;

/// Relies on `serde_json::from_str`, `serde_json::Value::get` and
/// `serde_json::Value::as_str`: the string stored under the two keys, if
/// the text parses and holds one there.  The result depends on the three
/// arguments alone.
#[verifier::external_body]
fn json_lookup_string(text: &str, k1: &str, k2: &str) -> (r: Option<String>)
    ensures
        r is Some <==> json_string_at(text@, k1@, k2@) is Some,
        r is Some ==> Some(r->0@) == json_string_at(text@, k1@, k2@),
{
    let v: serde_json::Value = serde_json::from_str(text).ok()?;
    let s = v.get(k1)?.get(k2)?.as_str()?;
    Some(s.to_owned())
}

/// The recorded source-control revision of a published package: the string
/// under `git.sha1` in the package's revision-info document, or
/// `MissingRevisionMetadata` when the document does not hold one.
pub fn parse_vcs_revision(vcs_text: &String) -> (r: Result<String, ResolutionError>)
    ensures
        r is Ok <==> json_string_at(vcs_text@, "git"@, "sha1"@) is Some,
        r is Ok ==> Some(r->Ok_0@) == json_string_at(vcs_text@, "git"@, "sha1"@),
        r is Err ==> r->Err_0 == ResolutionError::MissingRevisionMetadata,
{
    match json_lookup_string(vcs_text.as_str(), "git", "sha1") {
        Some(sha) => Ok(sha),
        None => Err(ResolutionError::MissingRevisionMetadata),
    }
}

/// Resolves one selected package to its `(repository-url, revision)` pair:
/// the declared repository with `.git` appended, and the recorded revision
/// from the package's revision-info document.
pub fn resolve_record(pkg: &PackageRecord, vcs_text: &String) -> (r: Result<
    (String, String),
    ResolutionError,
>)
    ensures
        r is Ok <==> (pkg.repository is Some && json_string_at(vcs_text@, "git"@, "sha1"@)
            is Some),
        r is Ok ==> r->Ok_0.0@ == pkg.repository->0@ + ".git"@,
        r is Ok ==> Some(r->Ok_0.1@) == json_string_at(vcs_text@, "git"@, "sha1"@),
        r is Err ==> (r->Err_0 == ResolutionError::MissingRepositoryMetadata <==> pkg.repository
            is None),
        r is Err ==> (r->Err_0 == ResolutionError::MissingRevisionMetadata <==> (pkg.repository
            is Some && json_string_at(vcs_text@, "git"@, "sha1"@) is None)),
{
    let url = match repository_url(pkg) {
        Ok(u) => u,
        Err(e) => {
            return Err(e);
        },
    };
    let sha = match parse_vcs_revision(vcs_text) {
        Ok(s) => s,
        Err(e) => {
            return Err(e);
        },
    };
    Ok((url, sha))
}

} // verus!
