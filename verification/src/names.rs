//! Naming convention of the install root: how a version directory's name is
//! built from a version string and the architecture tag, how the download URL
//! is built, and how the installed-version set is derived back out of a
//! directory listing. The filesystem is the single source of truth: the set of
//! installed versions is exactly what `installed_versions_spec` derives from
//! the install root's entries.

use vstd::prelude::*;
use vstd::string::StrSliceExecFns;
use vstd::string::StringExecFns;

use crate::strutil::str_eq;

verus! {

/// The name of the version directory for `version` on `arch`:
/// `node-v<version>-<arch>`.
pub open spec fn dir_name_spec(version: Seq<char>, arch: Seq<char>) -> Seq<char> {
    "node-v"@ + version + "-"@ + arch
}

/// The full path of the version directory under the install root `root`
/// (which carries its trailing separator).
pub open spec fn dir_path_spec(root: Seq<char>, version: Seq<char>, arch: Seq<char>) -> Seq<char> {
    root + dir_name_spec(version, arch)
}

/// The download URL for `version` on `arch` under the remote base `remote`:
/// `<remote>v<version>/node-v<version>-<arch>.tar.gz`.
pub open spec fn url_spec(remote: Seq<char>, version: Seq<char>, arch: Seq<char>) -> Seq<char> {
    remote + "v"@ + version + "/"@ + dir_name_spec(version, arch) + ".tar.gz"@
}

/// Whether `name` follows the version-directory naming convention for `arch`.
pub open spec fn is_version_dir_name(name: Seq<char>, arch: Seq<char>) -> bool {
    &&& name.len() >= 7 + arch.len()
    &&& name.subrange(0, 6) == "node-v"@
    &&& name[name.len() - 1 - arch.len()] == '-'
    &&& name.subrange(name.len() - arch.len(), name.len() as int) == arch
}

/// The version substring between the fixed prefix and the architecture
/// suffix of a version-directory name.
pub open spec fn version_of_dir_name(name: Seq<char>, arch: Seq<char>) -> Seq<char> {
    name.subrange(6, name.len() - 1 - arch.len())
}

/// A name built by the convention parses back: the convention holds of it and
/// the version read out of it is the one it was built from.
pub proof fn lemma_dir_name_parses(version: Seq<char>, arch: Seq<char>)
    ensures
        is_version_dir_name(dir_name_spec(version, arch), arch),
        version_of_dir_name(dir_name_spec(version, arch), arch) == version,
{
    reveal_strlit("node-v");
    reveal_strlit("-");
    let n = dir_name_spec(version, arch);
    assert(n.len() == 7 + version.len() + arch.len());
    assert(n.subrange(0, 6) =~= "node-v"@);
    assert(n[n.len() - 1 - arch.len()] == '-');
    assert(n.subrange(n.len() - arch.len(), n.len() as int) =~= arch);
    assert(n.subrange(6, n.len() - 1 - arch.len()) =~= version);
}

/// A name that follows the convention is exactly the one built from the
/// version read out of it: parsing loses nothing.
pub proof fn lemma_parsed_dir_name(name: Seq<char>, arch: Seq<char>)
    requires
        is_version_dir_name(name, arch),
    ensures
        name == dir_name_spec(version_of_dir_name(name, arch), arch),
{
    reveal_strlit("node-v");
    reveal_strlit("-");
    assert(name =~= dir_name_spec(version_of_dir_name(name, arch), arch));
}

/// For a fixed architecture tag, distinct versions give distinct directory
/// names: the naming convention is injective.
pub proof fn lemma_dir_name_injective(v1: Seq<char>, v2: Seq<char>, arch: Seq<char>)
    requires
        dir_name_spec(v1, arch) == dir_name_spec(v2, arch),
    ensures
        v1 == v2,
{
    lemma_dir_name_parses(v1, arch);
    lemma_dir_name_parses(v2, arch);
}

/// Builds the version-directory name for `version` and `arch`.
pub fn version_dir_name(version: &str, arch: &str) -> (r: String)
    ensures
        r@ == dir_name_spec(version@, arch@),
{
    let mut s = String::new();
    s.append("node-v");
    s.append(version);
    s.append("-");
    s.append(arch);
    proof {
        assert(s@ =~= dir_name_spec(version@, arch@));
    }
    s
}

/// Builds the full path of the version directory under `root`.
pub fn version_dir_path(root: &str, version: &str, arch: &str) -> (r: String)
    ensures
        r@ == dir_path_spec(root@, version@, arch@),
{
    let mut s = String::new();
    s.append(root);
    s.append("node-v");
    s.append(version);
    s.append("-");
    s.append(arch);
    proof {
        assert(s@ =~= dir_path_spec(root@, version@, arch@));
    }
    s
}

/// Builds the download URL for `version` and `arch` under `remote`.
pub fn download_url(remote: &str, version: &str, arch: &str) -> (r: String)
    ensures
        r@ == url_spec(remote@, version@, arch@),
{
    let mut s = String::new();
    s.append(remote);
    s.append("v");
    s.append(version);
    s.append("/");
    s.append("node-v");
    s.append(version);
    s.append("-");
    s.append(arch);
    s.append(".tar.gz");
    proof {
        assert(s@ =~= url_spec(remote@, version@, arch@));
    }
    s
}

/// Reads the version back out of a directory-entry name, or returns `None`
/// when the entry does not follow the naming convention for `arch`.
pub fn parse_dir_name(name: &str, arch: &str) -> (r: Option<String>)
    ensures
        r is Some <==> is_version_dir_name(name@, arch@),
        r is Some ==> r->Some_0@ == version_of_dir_name(name@, arch@),
{
    proof {
        reveal_strlit("node-v");
    }
    let n = name.unicode_len();
    let a = arch.unicode_len();
    if n < 7 || n - 7 < a {
        return None;
    }
    let prefix = name.substring_char(0, 6);
    if !str_eq(prefix, "node-v") {
        return None;
    }
    if name.get_char(n - 1 - a) != '-' {
        return None;
    }
    let suffix = name.substring_char(n - a, n);
    if !str_eq(suffix, arch) {
        return None;
    }
    let version = name.substring_char(6, n - 1 - a).to_owned();
    Some(version)
}

/// The versions derivable from a directory listing: each entry that follows
/// the naming convention contributes the version read out of it, in listing
/// order.
pub open spec fn installed_versions_spec(entries: Seq<Seq<char>>, arch: Seq<char>) -> Seq<
    Seq<char>,
>
    decreases entries.len(),
{
    if entries.len() == 0 {
        Seq::empty()
    } else {
        let rest = installed_versions_spec(entries.drop_last(), arch);
        if is_version_dir_name(entries.last(), arch) {
            rest.push(version_of_dir_name(entries.last(), arch))
        } else {
            rest
        }
    }
}

/// The derived set is exact: a version is derived from a listing if and only
/// if some entry is its version-directory name.
pub proof fn lemma_installed_versions_exact(
    entries: Seq<Seq<char>>,
    arch: Seq<char>,
    v: Seq<char>,
)
    ensures
        installed_versions_spec(entries, arch).contains(v) <==> (exists|i: int|
            0 <= i < entries.len() && entries[i] == dir_name_spec(v, arch)),
    decreases entries.len(),
{
    if entries.len() == 0 {
    } else {
        let rest = entries.drop_last();
        lemma_installed_versions_exact(rest, arch, v);
        if installed_versions_spec(entries, arch).contains(v) {
            if is_version_dir_name(entries.last(), arch) && version_of_dir_name(
                entries.last(),
                arch,
            ) == v {
                lemma_parsed_dir_name(entries.last(), arch);
                assert(entries[entries.len() - 1] == dir_name_spec(v, arch));
            } else {
                assert(installed_versions_spec(rest, arch).contains(v));
                let i = choose|i: int| 0 <= i < rest.len() && rest[i] == dir_name_spec(v, arch);
                assert(entries[i] == dir_name_spec(v, arch));
            }
        }
        if exists|i: int| 0 <= i < entries.len() && entries[i] == dir_name_spec(v, arch) {
            let i = choose|i: int| 0 <= i < entries.len() && entries[i] == dir_name_spec(v, arch);
            lemma_dir_name_parses(v, arch);
            if i == entries.len() - 1 {
                assert(installed_versions_spec(entries, arch).last() == v);
                assert(installed_versions_spec(entries, arch).contains(v));
            } else {
                assert(rest[i] == dir_name_spec(v, arch));
                assert(installed_versions_spec(rest, arch).contains(v));
                let j = choose|j: int|
                    0 <= j < installed_versions_spec(rest, arch).len()
                        && installed_versions_spec(rest, arch)[j] == v;
                assert(installed_versions_spec(entries, arch)[j] == v);
            }
        }
    }
}

/// Derives the installed versions from the install root's directory listing.
/// This is the explicit re-scan: callers re-derive after every mutating
/// operation rather than trusting a cached set.
pub fn installed_from_entries(entries: &Vec<String>, arch: &str) -> (r: Vec<String>)
    ensures
        r.deep_view() == installed_versions_spec(entries.deep_view(), arch@),
{
    let mut r: Vec<String> = Vec::new();
    let mut i: usize = 0;
    while i < entries.len()
        invariant
            i <= entries.len(),
            r.deep_view() == installed_versions_spec(
                entries.deep_view().subrange(0, i as int),
                arch@,
            ),
        decreases entries.len() - i,
    {
        let ghost pre = entries.deep_view().subrange(0, i as int);
        let ghost post = entries.deep_view().subrange(0, i + 1 as int);
        match parse_dir_name(entries[i].as_str(), arch) {
            Some(v) => {
                let ghost old_r = r.deep_view();
                r.push(v);
                proof {
                    assert(r.deep_view() =~= old_r.push(version_of_dir_name(post.last(), arch@)));
                }
            },
            None => {},
        }
        proof {
            assert(post.drop_last() =~= pre);
            assert(post.last() == entries.deep_view()[i as int]);
        }
        i += 1;
    }
    proof {
        assert(entries.deep_view().subrange(0, entries.len() as int) =~= entries.deep_view());
    }
    r
}

} // verus!
