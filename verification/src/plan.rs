//! Plans for the mutating operations. The coordinator decides every path,
//! URL and symlink here; the shell around the library only carries the plans
//! out against the filesystem and the network.

use vstd::prelude::*;
use vstd::string::StringExecFns;

use crate::names::dir_name_spec;
use crate::names::dir_path_spec;
use crate::names::url_spec;

verus! {

/// The three logical executable names whose symlinks the active directory
/// holds.
pub open spec fn bin_names() -> Seq<Seq<char>> {
    seq!["node"@, "npm"@, "npx"@]
}

/// What `add` asks the shell to do: fetch `url` and extract the archive
/// directly into `unpack_root`; the archive's own top-level directory is
/// expected to be `dir_name`.
pub struct AddPlan {
    /// The download URL of the archive.
    pub url: String,
    /// The install root the archive is extracted into.
    pub unpack_root: String,
    /// The version-directory name the extraction is expected to create.
    pub dir_name: String,
}

/// The view of an [`AddPlan`].
pub ghost struct AddPlanV {
    /// View of the download URL.
    pub url: Seq<char>,
    /// View of the extraction target.
    pub unpack_root: Seq<char>,
    /// View of the expected version-directory name.
    pub dir_name: Seq<char>,
}

impl View for AddPlan {
    type V = AddPlanV;

    open spec fn view(&self) -> AddPlanV {
        AddPlanV { url: self.url@, unpack_root: self.unpack_root@, dir_name: self.dir_name@ }
    }
}

/// The plan `add` must produce for `version` on `arch` under `root` and
/// `remote`.
pub open spec fn add_plan_spec(
    remote: Seq<char>,
    root: Seq<char>,
    version: Seq<char>,
    arch: Seq<char>,
) -> AddPlanV {
    AddPlanV {
        url: url_spec(remote, version, arch),
        unpack_root: root,
        dir_name: dir_name_spec(version, arch),
    }
}

/// One step of the active-version switch: remove any entry at `dest`
/// (tolerating that none exists), then create a symlink `dest -> source`.
pub struct SymlinkAction {
    /// The logical executable name this step is for.
    pub name: String,
    /// The symlink target, inside the chosen version directory's `bin/`.
    pub source: String,
    /// The symlink's own path, inside the active directory.
    pub dest: String,
}

/// The view of a [`SymlinkAction`].
pub ghost struct SymlinkActionV {
    /// View of the logical executable name.
    pub name: Seq<char>,
    /// View of the symlink target.
    pub source: Seq<char>,
    /// View of the symlink's own path.
    pub dest: Seq<char>,
}

impl View for SymlinkAction {
    type V = SymlinkActionV;

    open spec fn view(&self) -> SymlinkActionV {
        SymlinkActionV { name: self.name@, source: self.source@, dest: self.dest@ }
    }
}

impl DeepView for SymlinkAction {
    type V = SymlinkActionV;

    open spec fn deep_view(&self) -> SymlinkActionV {
        self.view()
    }
}

/// Where the symlink for `name` must point when `version` is active:
/// `<version directory>/bin/<name>`.
pub open spec fn switch_source_spec(
    root: Seq<char>,
    version: Seq<char>,
    arch: Seq<char>,
    name: Seq<char>,
) -> Seq<char> {
    dir_path_spec(root, version, arch) + "/bin/"@ + name
}

/// Where the symlink for `name` lives: `<root>using/<name>`.
pub open spec fn switch_dest_spec(root: Seq<char>, name: Seq<char>) -> Seq<char> {
    root + "using/"@ + name
}

/// The switch step for one logical executable name.
pub open spec fn switch_action_spec(
    root: Seq<char>,
    version: Seq<char>,
    arch: Seq<char>,
    name: Seq<char>,
) -> SymlinkActionV {
    SymlinkActionV {
        name: name,
        source: switch_source_spec(root, version, arch, name),
        dest: switch_dest_spec(root, name),
    }
}

/// The whole switch plan: one step per logical executable name, each step
/// independent of the others (no cross-name atomicity).
pub open spec fn switch_plan_spec(root: Seq<char>, version: Seq<char>, arch: Seq<char>) -> Seq<
    SymlinkActionV,
> {
    bin_names().map_values(|n: Seq<char>| switch_action_spec(root, version, arch, n))
}

/// Builds the switch step for one executable name.
pub fn switch_action(root: &str, version: &str, arch: &str, name: &str) -> (r: SymlinkAction)
    ensures
        r@ == switch_action_spec(root@, version@, arch@, name@),
{
    let mut source = String::new();
    source.append(root);
    source.append("node-v");
    source.append(version);
    source.append("-");
    source.append(arch);
    source.append("/bin/");
    source.append(name);
    let mut dest = String::new();
    dest.append(root);
    dest.append("using/");
    dest.append(name);
    let mut owned_name = String::new();
    owned_name.append(name);
    proof {
        assert(source@ =~= switch_source_spec(root@, version@, arch@, name@));
        assert(dest@ =~= switch_dest_spec(root@, name@));
        assert(owned_name@ =~= name@);
    }
    SymlinkAction { name: owned_name, source, dest }
}

/// Builds the whole switch plan for `version`.
pub fn switch_plan(root: &str, version: &str, arch: &str) -> (r: Vec<SymlinkAction>)
    ensures
        r.deep_view() == switch_plan_spec(root@, version@, arch@),
{
    let mut r: Vec<SymlinkAction> = Vec::new();
    r.push(switch_action(root, version, arch, "node"));
    r.push(switch_action(root, version, arch, "npm"));
    r.push(switch_action(root, version, arch, "npx"));
    proof {
        assert(r.deep_view() =~= switch_plan_spec(root@, version@, arch@));
    }
    r
}

} // verus!
