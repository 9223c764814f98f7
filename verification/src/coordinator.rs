//! The version coordinator: the one stateful object of the core. It holds the
//! install root path, the remote base URL, the architecture tag and the
//! installed-version set derived from the install root, validates every
//! command before anything mutating is planned, and produces the plans for
//! `add`, `set` and `remove`.

use vstd::prelude::*;
use vstd::string::StringExecFns;

use crate::errors::ValidationError;
use crate::names::dir_path_spec;
use crate::names::download_url;
use crate::names::installed_from_entries;
use crate::names::installed_versions_spec;
use crate::names::version_dir_name;
use crate::names::version_dir_path;
use crate::plan::add_plan_spec;
use crate::plan::switch_plan;
use crate::plan::switch_plan_spec;
use crate::plan::AddPlan;
use crate::plan::SymlinkAction;
use crate::strutil::str_eq;

verus! {

broadcast use vstd::string::group_string_axioms;

/// What `validate` must decide for `command` with extra arguments `args`
/// against the installed-version set: `info` and `list` take no argument,
/// `add`, `set` and `remove` take exactly one, `set` and `remove` further
/// require the named version to be installed, and any other command token is
/// unknown. Wrong arity is reported before the installed-set is consulted.
pub open spec fn validate_spec(
    command: Seq<char>,
    args: Seq<Seq<char>>,
    installed: Seq<Seq<char>>,
) -> Result<(), ValidationError> {
    if command == "info"@ || command == "list"@ {
        if args.len() == 0 {
            Ok(())
        } else {
            Err(ValidationError::UsageError)
        }
    } else if command == "add"@ {
        if args.len() == 1 {
            Ok(())
        } else {
            Err(ValidationError::UsageError)
        }
    } else if command == "set"@ || command == "remove"@ {
        if args.len() != 1 {
            Err(ValidationError::UsageError)
        } else if installed.contains(args[0]) {
            Ok(())
        } else {
            Err(ValidationError::VersionNotInstalled)
        }
    } else {
        Err(ValidationError::UnknownCommand)
    }
}

/// The versions joined for display, separated by `", "`.
pub open spec fn join_versions(vs: Seq<Seq<char>>) -> Seq<char>
    decreases vs.len(),
{
    if vs.len() == 0 {
        Seq::empty()
    } else if vs.len() == 1 {
        vs[0]
    } else {
        join_versions(vs.drop_last()) + ", "@ + vs.last()
    }
}

/// What `info` must return: the install root path and the installed versions.
pub open spec fn info_spec(root: Seq<char>, installed: Seq<Seq<char>>) -> Seq<char> {
    "Path: "@ + root + "\nInstalled: "@ + join_versions(installed)
}

/// What `list` must return: the installed versions alone.
pub open spec fn list_spec(installed: Seq<Seq<char>>) -> Seq<char> {
    join_versions(installed)
}

/// Joins the versions for display.
fn join_versions_exec(vs: &Vec<String>) -> (r: String)
    ensures
        r@ == join_versions(vs.deep_view()),
{
    let mut s = String::new();
    let mut i: usize = 0;
    while i < vs.len()
        invariant
            i <= vs.len(),
            s@ == join_versions(vs.deep_view().subrange(0, i as int)),
        decreases vs.len() - i,
    {
        if i > 0 {
            s.append(", ");
        }
        s.append(vs[i].as_str());
        proof {
            let pre = vs.deep_view().subrange(0, i as int);
            let post = vs.deep_view().subrange(0, i + 1 as int);
            assert(post.drop_last() =~= pre);
            assert(post.last() == vs.deep_view()[i as int]);
            if i == 0 {
                assert(s@ =~= join_versions(post));
            }
        }
        i += 1;
    }
    proof {
        assert(vs.deep_view().subrange(0, vs.len() as int) =~= vs.deep_view());
    }
    s
}

/// Whether `v` is one of the installed versions.
fn contains_version(installed: &Vec<String>, v: &str) -> (r: bool)
    ensures
        r == installed.deep_view().contains(v@),
{
    let mut i: usize = 0;
    while i < installed.len()
        invariant
            i <= installed.len(),
            forall|j: int| 0 <= j < i ==> installed.deep_view()[j] != v@,
        decreases installed.len() - i,
    {
        if str_eq(installed[i].as_str(), v) {
            proof {
                assert(installed.deep_view()[i as int] == v@);
            }
            return true;
        }
        i += 1;
    }
    false
}

/// The coordinator's capability surface. Exactly one implementation exists;
/// the trait stands as the contract boundary for the command shell.
pub trait Manager: Sized {
    /// The install root path, with its trailing separator.
    spec fn root_path(&self) -> Seq<char>;

    /// The remote base URL the archives are fetched from.
    spec fn remote_base(&self) -> Seq<char>;

    /// The architecture tag of the one supported target.
    spec fn arch_tag(&self) -> Seq<char>;

    /// The installed versions, as last derived from the install root.
    spec fn installed_versions(&self) -> Seq<Seq<char>>;

    /// Describes the coordinator: the install root path and the installed
    /// versions.
    fn info(&self) -> (r: String)
        ensures
            r@ == info_spec(self.root_path(), self.installed_versions()),
    ;

    /// Validates `command` with extra arguments `args` against the current
    /// installed-version set, before any mutating operation runs. Read-only:
    /// a rejected command has had no side effects.
    fn validate(&self, command: &str, args: &Vec<String>) -> (r: Result<(), ValidationError>)
        ensures
            r == validate_spec(command@, args.deep_view(), self.installed_versions()),
    ;

    /// Enumerates the installed versions.
    fn list(&self) -> (r: String)
        ensures
            r@ == list_spec(self.installed_versions()),
    ;

    /// Plans the installation of `version`: the download URL, the extraction
    /// target and the version-directory name the archive is expected to
    /// create. Re-adding an installed version is allowed and overwrites, so
    /// there is no precondition on the installed set.
    fn add(&self, version: &str) -> (r: AddPlan)
        ensures
            r@ == add_plan_spec(
                self.remote_base(),
                self.root_path(),
                version@,
                self.arch_tag(),
            ),
    ;

    /// Plans the active-version switch to `version`: one symlink rewrite per
    /// logical executable name. The caller must already have validated that
    /// the version is installed; the switch does not re-validate.
    fn set(&self, version: &str) -> (r: Vec<SymlinkAction>)
        requires
            self.installed_versions().contains(version@),
        ensures
            r.deep_view() == switch_plan_spec(self.root_path(), version@, self.arch_tag()),
    ;

    /// Plans the removal of `version`: the version directory to delete
    /// recursively. The caller must already have validated that the version
    /// is installed. Nothing in the active directory is touched: symlinks
    /// into the removed version are left dangling.
    fn remove(&self, version: &str) -> (r: String)
        requires
            self.installed_versions().contains(version@),
        ensures
            r@ == dir_path_spec(self.root_path(), version@, self.arch_tag()),
    ;
}

/// The one coordinator implementation.
pub struct Coordinator {
    /// The install root path, with its trailing separator.
    pub path: String,
    /// The installed versions, derived from the install root's entries.
    pub installed: Vec<String>,
    /// The remote base URL to fetch archives from.
    pub remote: String,
    /// The architecture tag of the one supported target.
    pub architecture: String,
}

impl Coordinator {
    /// Builds a coordinator over the install root at `path`, deriving the
    /// installed-version set from the root's directory listing `entries`.
    pub fn new(path: String, remote: String, architecture: String, entries: &Vec<String>) -> (c:
        Coordinator)
        ensures
            c.path == path,
            c.remote == remote,
            c.architecture == architecture,
            c.installed.deep_view() == installed_versions_spec(
                entries.deep_view(),
                architecture@,
            ),
    {
        let installed = installed_from_entries(entries, architecture.as_str());
        Coordinator { path, installed, remote, architecture }
    }

    /// Re-derives the installed-version set from a fresh directory listing of
    /// the install root. Callers re-scan after every mutating operation, so
    /// `info` and `list` never reflect a stale cached set.
    pub fn rescan(&mut self, entries: &Vec<String>)
        ensures
            final(self).path == old(self).path,
            final(self).remote == old(self).remote,
            final(self).architecture == old(self).architecture,
            final(self).installed.deep_view() == installed_versions_spec(
                entries.deep_view(),
                old(self).architecture@,
            ),
    {
        let installed = installed_from_entries(entries, self.architecture.as_str());
        self.installed = installed;
    }
}

impl Manager for Coordinator {
    open spec fn root_path(&self) -> Seq<char> {
        self.path@
    }

    open spec fn remote_base(&self) -> Seq<char> {
        self.remote@
    }

    open spec fn arch_tag(&self) -> Seq<char> {
        self.architecture@
    }

    open spec fn installed_versions(&self) -> Seq<Seq<char>> {
        self.installed.deep_view()
    }

    fn info(&self) -> (r: String) {
        let mut s = String::new();
        s.append("Path: ");
        s.append(self.path.as_str());
        s.append("\nInstalled: ");
        let joined = join_versions_exec(&self.installed);
        s.append(joined.as_str());
        proof {
            assert(s@ =~= info_spec(self.root_path(), self.installed_versions()));
        }
        s
    }

    fn validate(&self, command: &str, args: &Vec<String>) -> (r: Result<(), ValidationError>) {
        if str_eq(command, "info") || str_eq(command, "list") {
            if args.len() == 0 {
                Ok(())
            } else {
                Err(ValidationError::UsageError)
            }
        } else if str_eq(command, "add") {
            if args.len() == 1 {
                Ok(())
            } else {
                Err(ValidationError::UsageError)
            }
        } else if str_eq(command, "set") || str_eq(command, "remove") {
            if args.len() != 1 {
                Err(ValidationError::UsageError)
            } else if contains_version(&self.installed, args[0].as_str()) {
                Ok(())
            } else {
                Err(ValidationError::VersionNotInstalled)
            }
        } else {
            Err(ValidationError::UnknownCommand)
        }
    }

    fn list(&self) -> (r: String) {
        join_versions_exec(&self.installed)
    }

    fn add(&self, version: &str) -> (r: AddPlan) {
        let url = download_url(self.remote.as_str(), version, self.architecture.as_str());
        let dir_name = version_dir_name(version, self.architecture.as_str());
        let unpack_root = self.path.clone();
        AddPlan { url, unpack_root, dir_name }
    }

    fn set(&self, version: &str) -> (r: Vec<SymlinkAction>) {
        switch_plan(self.path.as_str(), version, self.architecture.as_str())
    }

    fn remove(&self, version: &str) -> (r: String) {
        version_dir_path(self.path.as_str(), version, self.architecture.as_str())
    }
}

/// Law: every command token outside `info`, `list`, `add`, `set` and `remove`
/// is rejected as unknown, for every argument list and every installed set —
/// and validation is read-only, so no mutation has happened.
pub proof fn lemma_unknown_command_rejected(
    command: Seq<char>,
    args: Seq<Seq<char>>,
    installed: Seq<Seq<char>>,
)
    requires
        command != "info"@,
        command != "list"@,
        command != "add"@,
        command != "set"@,
        command != "remove"@,
    ensures
        validate_spec(command, args, installed) == Err::<(), ValidationError>(
            ValidationError::UnknownCommand,
        ),
{
}

/// Law: `add`, `set` and `remove` with zero or two-or-more version arguments
/// are rejected as usage errors, whatever the installed set — before any
/// mutation is planned.
pub proof fn lemma_wrong_arity_rejected(
    command: Seq<char>,
    args: Seq<Seq<char>>,
    installed: Seq<Seq<char>>,
)
    requires
        command == "add"@ || command == "set"@ || command == "remove"@,
        args.len() != 1,
    ensures
        validate_spec(command, args, installed) == Err::<(), ValidationError>(
            ValidationError::UsageError,
        ),
{
    lemma_command_tokens_distinct();
}

/// Law: `set` and `remove` with exactly one argument pass validation if and
/// only if that version is installed, and otherwise fail as not installed.
pub proof fn lemma_set_remove_need_installed(
    command: Seq<char>,
    version: Seq<char>,
    installed: Seq<Seq<char>>,
)
    requires
        command == "set"@ || command == "remove"@,
    ensures
        validate_spec(command, seq![version], installed) == if installed.contains(version) {
            Ok::<(), ValidationError>(())
        } else {
            Err::<(), ValidationError>(ValidationError::VersionNotInstalled)
        },
{
    lemma_command_tokens_distinct();
}

/// Law: `add` with exactly one argument passes validation whether or not the
/// version is already installed — re-adding is allowed and overwrites.
pub proof fn lemma_add_has_no_install_precondition(version: Seq<char>, installed: Seq<Seq<char>>)
    ensures
        validate_spec("add"@, seq![version], installed) == Ok::<(), ValidationError>(()),
{
    lemma_command_tokens_distinct();
}

/// The five command tokens are pairwise distinct.
pub proof fn lemma_command_tokens_distinct()
    ensures
        "info"@ != "list"@,
        "info"@ != "add"@,
        "info"@ != "set"@,
        "info"@ != "remove"@,
        "list"@ != "add"@,
        "list"@ != "set"@,
        "list"@ != "remove"@,
        "add"@ != "set"@,
        "add"@ != "remove"@,
        "set"@ != "remove"@,
{
    reveal_strlit("info");
    reveal_strlit("list");
    reveal_strlit("add");
    reveal_strlit("set");
    reveal_strlit("remove");
    assert("info"@.len() == 4);
    assert("list"@.len() == 4);
    assert("add"@.len() == 3);
    assert("set"@.len() == 3);
    assert("remove"@.len() == 6);
    assert("info"@[0] == 'i' && "list"@[0] == 'l');
    assert("add"@[0] == 'a' && "set"@[0] == 's');
}

} // verus!
