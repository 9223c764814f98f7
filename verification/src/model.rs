//! An abstract model of the install root, and the laws the planned
//! operations obey on it. The model holds what the filesystem holds: which
//! version directories exist, and where each active-directory symlink points.
//! Applying a plan to the model says what the shell's faithful execution of
//! that plan does to the install root.

use vstd::prelude::*;

use crate::plan::bin_names;
use crate::plan::switch_action_spec;
use crate::plan::switch_plan_spec;
use crate::plan::switch_source_spec;
use crate::plan::SymlinkActionV;

verus! {

broadcast use vstd::string::group_string_axioms;

/// An abstract install root: the set of installed versions (the version
/// directories that exist) and the active directory's symlinks, keyed by
/// logical executable name.
pub ghost struct RootModel {
    /// The versions whose version directories exist.
    pub installed: Set<Seq<char>>,
    /// Each active-directory symlink's target, by logical executable name.
    pub active: Map<Seq<char>, Seq<char>>,
}

/// A successful `add` of `version`: its version directory exists afterwards
/// (re-adding overwrites in place), and the active directory is untouched.
pub open spec fn apply_add(m: RootModel, version: Seq<char>) -> RootModel {
    RootModel { installed: m.installed.insert(version), active: m.active }
}

/// One switch step: the symlink for the action's name now points at the
/// action's source, overwriting any previous entry.
pub open spec fn apply_action(m: RootModel, a: SymlinkActionV) -> RootModel {
    RootModel { installed: m.installed, active: m.active.insert(a.name, a.source) }
}

/// A switch plan applied step by step, in order. The steps are independent:
/// there is no cross-name atomicity, and a prefix of the plan is a possible
/// interrupted state.
pub open spec fn apply_plan(m: RootModel, plan: Seq<SymlinkActionV>) -> RootModel
    decreases plan.len(),
{
    if plan.len() == 0 {
        m
    } else {
        apply_action(apply_plan(m, plan.drop_last()), plan.last())
    }
}

/// A `remove` of `version`: its version directory is gone, and the active
/// directory is untouched — symlinks that pointed into the removed version
/// are left dangling.
pub open spec fn apply_remove(m: RootModel, version: Seq<char>) -> RootModel {
    RootModel { installed: m.installed.remove(version), active: m.active }
}

/// The three logical executable names are pairwise distinct.
pub proof fn lemma_bin_names_distinct()
    ensures
        "node"@ != "npm"@,
        "node"@ != "npx"@,
        "npm"@ != "npx"@,
{
    reveal_strlit("node");
    reveal_strlit("npm");
    reveal_strlit("npx");
    assert("node"@.len() == 4);
    assert("npm"@.len() == 3);
    assert("npx"@.len() == 3);
    assert("npm"@[2] == 'm' && "npx"@[2] == 'x');
}

/// Law: after a successful `add` of `version`, its version directory exists;
/// every other version's presence and the whole active directory are
/// untouched.
pub proof fn lemma_add_installs(m: RootModel, version: Seq<char>)
    ensures
        apply_add(m, version).installed.contains(version),
        apply_add(m, version).active == m.active,
        forall|v: Seq<char>|
            v != version ==> (apply_add(m, version).installed.contains(v) <==> m.installed.contains(
                v,
            )),
{
}

/// Law: re-adding an already installed version needs no prior `remove` and
/// leaves the installed set as it was — the version directory is overwritten
/// in place.
pub proof fn lemma_re_add_overwrites(m: RootModel, version: Seq<char>)
    requires
        m.installed.contains(version),
    ensures
        apply_add(m, version).installed =~= m.installed,
        apply_add(m, version).active == m.active,
{
}

/// Law: after the switch to `version`, the symlink for each of the fixed
/// executable names points exactly at `<version directory>/bin/<name>`, every
/// other active-directory entry is untouched, and no version directory is
/// created or removed.
pub proof fn lemma_switch_points_into_version(
    m: RootModel,
    root: Seq<char>,
    version: Seq<char>,
    arch: Seq<char>,
)
    ensures
        ({
            let m2 = apply_plan(m, switch_plan_spec(root, version, arch));
            &&& forall|n: Seq<char>| #[trigger]
                bin_names().contains(n) ==> m2.active.dom().contains(n) && m2.active[n]
                    == switch_source_spec(root, version, arch, n)
            &&& forall|n: Seq<char>|
                !bin_names().contains(n) ==> (#[trigger] m2.active.dom().contains(n)
                    <==> m.active.dom().contains(n))
            &&& forall|n: Seq<char>|
                !bin_names().contains(n) && m.active.dom().contains(n) ==> #[trigger] m2.active[n]
                    == m.active[n]
            &&& m2.installed == m.installed
        }),
{
    lemma_bin_names_distinct();
    let p = switch_plan_spec(root, version, arch);
    let a0 = switch_action_spec(root, version, arch, "node"@);
    let a1 = switch_action_spec(root, version, arch, "npm"@);
    let a2 = switch_action_spec(root, version, arch, "npx"@);
    assert(p.len() == 3);
    assert(p.last() == a2);
    assert(p.drop_last().len() == 2);
    assert(p.drop_last().last() == a1);
    assert(p.drop_last().drop_last().len() == 1);
    assert(p.drop_last().drop_last().last() == a0);
    assert(p.drop_last().drop_last().drop_last().len() == 0);
    let p1 = p.drop_last().drop_last();
    let p2 = p.drop_last();
    assert(apply_plan(m, p1.drop_last()) == m);
    assert(apply_plan(m, p1) == apply_action(m, a0));
    assert(apply_plan(m, p2) == apply_action(apply_plan(m, p1), a1));
    assert(apply_plan(m, p) == apply_action(apply_plan(m, p2), a2));
    let m2 = apply_plan(m, p);
    assert(m2.active == m.active.insert("node"@, a0.source).insert("npm"@, a1.source).insert(
        "npx"@,
        a2.source,
    ));
    assert forall|n: Seq<char>| #[trigger] bin_names().contains(n) implies m2.active.dom().contains(
        n,
    ) && m2.active[n] == switch_source_spec(root, version, arch, n) by {
        assert(n == "node"@ || n == "npm"@ || n == "npx"@);
    }
}

/// Law: switching to one version and then to another leaves the active
/// directory exactly as the single switch to the second version leaves it —
/// no stale symlink from the first survives.
pub proof fn lemma_switch_twice_no_stale(
    m: RootModel,
    root: Seq<char>,
    v1: Seq<char>,
    v2: Seq<char>,
    arch: Seq<char>,
)
    ensures
        apply_plan(
            apply_plan(m, switch_plan_spec(root, v1, arch)),
            switch_plan_spec(root, v2, arch),
        ).active =~= apply_plan(m, switch_plan_spec(root, v2, arch)).active,
{
    let m1 = apply_plan(m, switch_plan_spec(root, v1, arch));
    lemma_switch_points_into_version(m, root, v1, arch);
    lemma_switch_points_into_version(m1, root, v2, arch);
    lemma_switch_points_into_version(m, root, v2, arch);
}

/// Law: `remove` deletes exactly the named version's directory and touches
/// nothing else: the active directory keeps whatever symlinks it had,
/// dangling or not, and a later switch to another version behaves exactly as
/// it would have without the removal.
pub proof fn lemma_remove_keeps_active(
    m: RootModel,
    root: Seq<char>,
    version: Seq<char>,
    v2: Seq<char>,
    arch: Seq<char>,
)
    ensures
        !apply_remove(m, version).installed.contains(version),
        apply_remove(m, version).active == m.active,
        forall|v: Seq<char>|
            v != version ==> (apply_remove(m, version).installed.contains(v)
                <==> m.installed.contains(v)),
        apply_plan(apply_remove(m, version), switch_plan_spec(root, v2, arch)).active
            =~= apply_plan(m, switch_plan_spec(root, v2, arch)).active,
{
    lemma_switch_points_into_version(apply_remove(m, version), root, v2, arch);
    lemma_switch_points_into_version(m, root, v2, arch);
}

/// The shape the active directory keeps: entries exist only for the fixed
/// logical executable names.
pub open spec fn active_names_ok(m: RootModel) -> bool {
    forall|n: Seq<char>| #[trigger] m.active.dom().contains(n) ==> bin_names().contains(n)
}

/// Law: every operation preserves the active directory's shape — no
/// operation creates a symlink outside the fixed executable-name set.
pub proof fn lemma_operations_preserve_active_names(
    m: RootModel,
    root: Seq<char>,
    version: Seq<char>,
    arch: Seq<char>,
)
    requires
        active_names_ok(m),
    ensures
        active_names_ok(apply_add(m, version)),
        active_names_ok(apply_remove(m, version)),
        active_names_ok(apply_plan(m, switch_plan_spec(root, version, arch))),
{
    lemma_switch_points_into_version(m, root, version, arch);
    let m2 = apply_plan(m, switch_plan_spec(root, version, arch));
    assert forall|n: Seq<char>| #[trigger] m2.active.dom().contains(n) implies bin_names().contains(
        n,
    ) by {
        if !bin_names().contains(n) {
            assert(m.active.dom().contains(n));
        }
    }
}

} // verus!
