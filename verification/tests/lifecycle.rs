use std::collections::HashMap;

use noot::coordinator::Coordinator;
use noot::coordinator::Manager;
use noot::names::parse_dir_name;
use noot::plan::SymlinkAction;

const ARCH: &str = "darwin-arm64";
const ROOT: &str = "/home/me/.config/noot/";
const REMOTE: &str = "https://nodejs.org/dist/";

fn coordinator_with(entries: Vec<&str>) -> Coordinator {
    let entries: Vec<String> = entries.into_iter().map(|e| e.to_owned()).collect();
    Coordinator::new(ROOT.to_owned(), REMOTE.to_owned(), ARCH.to_owned(), &entries)
}

/// Carries a switch plan out on a map standing for the active directory:
/// each step overwrites the entry for its name, independently of the others.
fn apply_switch(active: &mut HashMap<String, String>, plan: &[SymlinkAction]) {
    for action in plan {
        active.remove(&action.name);
        active.insert(action.name.clone(), action.source.clone());
    }
}

#[test]
fn add_plan_names_the_version_directory() {
    let c = coordinator_with(vec!["using"]);
    let plan = c.add("1.2.3");
    assert_eq!(
        plan.url,
        "https://nodejs.org/dist/v1.2.3/node-v1.2.3-darwin-arm64.tar.gz"
    );
    assert_eq!(plan.unpack_root, ROOT);
    assert_eq!(plan.dir_name, "node-v1.2.3-darwin-arm64");
    // The directory the extraction creates is derived back as this version.
    assert_eq!(parse_dir_name(&plan.dir_name, ARCH), Some("1.2.3".to_owned()));
}

#[test]
fn re_add_needs_no_prior_remove() {
    let absent = coordinator_with(vec!["using"]);
    let present = coordinator_with(vec!["using", "node-v1.2.3-darwin-arm64"]);
    assert_eq!(absent.validate("add", &vec!["1.2.3".to_owned()]), Ok(()));
    assert_eq!(present.validate("add", &vec!["1.2.3".to_owned()]), Ok(()));
    // The overwrite targets the same directory either way.
    assert_eq!(absent.add("1.2.3").dir_name, present.add("1.2.3").dir_name);
}

#[test]
fn switch_plan_points_every_name_into_the_version_bin() {
    let c = coordinator_with(vec!["using", "node-v1.2.3-darwin-arm64"]);
    let plan = c.set("1.2.3");
    assert_eq!(plan.len(), 3);
    let bin_prefix = "/home/me/.config/noot/node-v1.2.3-darwin-arm64/bin/";
    let names: Vec<&str> = plan.iter().map(|a| a.name.as_str()).collect();
    assert_eq!(names, vec!["node", "npm", "npx"]);
    for action in &plan {
        assert_eq!(action.source, format!("{}{}", bin_prefix, action.name));
        assert_eq!(
            action.dest,
            format!("/home/me/.config/noot/using/{}", action.name)
        );
    }
}

#[test]
fn switch_twice_leaves_no_stale_symlink() {
    let c = coordinator_with(vec![
        "using",
        "node-v1.2.3-darwin-arm64",
        "node-v4.5.6-darwin-arm64",
    ]);
    let mut active: HashMap<String, String> = HashMap::new();
    apply_switch(&mut active, &c.set("1.2.3"));
    apply_switch(&mut active, &c.set("4.5.6"));
    assert_eq!(active.len(), 3);
    for (name, target) in &active {
        assert!(target.starts_with("/home/me/.config/noot/node-v4.5.6-darwin-arm64/bin/"));
        assert!(target.ends_with(name.as_str()));
    }
}

#[test]
fn remove_names_only_the_version_directory() {
    let c = coordinator_with(vec!["using", "node-v1.2.3-darwin-arm64"]);
    assert_eq!(c.validate("remove", &vec!["1.2.3".to_owned()]), Ok(()));
    assert_eq!(
        c.remove("1.2.3"),
        "/home/me/.config/noot/node-v1.2.3-darwin-arm64"
    );
}

#[test]
fn set_after_remove_tolerates_dangling_symlinks() {
    // Activate 1.2.3, remove it (its symlinks dangle), then switch to 4.5.6:
    // afterwards everything points at 4.5.6, as if the removal had not
    // happened.
    let before = coordinator_with(vec![
        "using",
        "node-v1.2.3-darwin-arm64",
        "node-v4.5.6-darwin-arm64",
    ]);
    let mut active: HashMap<String, String> = HashMap::new();
    apply_switch(&mut active, &before.set("1.2.3"));

    // The listing after `remove 1.2.3`; the active entries are untouched.
    let after = coordinator_with(vec!["using", "node-v4.5.6-darwin-arm64"]);
    let dangling = active.clone();
    assert_eq!(dangling.len(), 3);

    apply_switch(&mut active, &after.set("4.5.6"));
    for target in active.values() {
        assert!(target.starts_with("/home/me/.config/noot/node-v4.5.6-darwin-arm64/bin/"));
    }
}

#[test]
fn info_and_list_reflect_the_current_listing() {
    let mut c = coordinator_with(vec!["using", "node-v16.11.0-darwin-arm64"]);
    assert_eq!(
        c.info(),
        "Path: /home/me/.config/noot/\nInstalled: 16.11.0"
    );
    assert_eq!(c.list(), "16.11.0");

    // After a mutating command the shell re-scans; the derived set follows
    // the new listing, never the one from construction time.
    let entries: Vec<String> = vec![
        "using".to_owned(),
        "node-v16.11.0-darwin-arm64".to_owned(),
        "node-v14.17.3-darwin-arm64".to_owned(),
    ];
    c.rescan(&entries);
    assert_eq!(
        c.info(),
        "Path: /home/me/.config/noot/\nInstalled: 16.11.0, 14.17.3"
    );
    assert_eq!(c.list(), "16.11.0, 14.17.3");

    let emptied: Vec<String> = vec!["using".to_owned()];
    c.rescan(&emptied);
    assert_eq!(c.info(), "Path: /home/me/.config/noot/\nInstalled: ");
    assert_eq!(c.list(), "");
}
