use polyfjord3d::locate::Probe;
use polyfjord3d::search_path::{
    add_entry, list_contains, plan_publication, Publication, Scope, ToolProbes,
};

const NONE: Probe = Probe { primary_exists: false, bin_exists: false };
const PRIMARY: Probe = Probe { primary_exists: true, bin_exists: false };
const BIN: Probe = Probe { primary_exists: false, bin_exists: true };

#[test]
fn list_contains_compares_whole_entries() {
    let list = "C:\\Windows;C:\\tools\\colmap;C:\\tools";
    assert!(list_contains(list, "C:\\Windows"));
    assert!(list_contains(list, "C:\\tools\\colmap"));
    assert!(list_contains(list, "C:\\tools"));
    assert!(!list_contains(list, "C:\\tools\\"));
    assert!(!list_contains(list, "C:\\tool"));
    assert!(!list_contains(list, "c:\\windows"));
    assert!(!list_contains(list, "C:\\Windows;C:\\tools\\colmap"));
}

#[test]
fn list_contains_knows_empty_entries() {
    assert!(list_contains("", ""));
    assert!(list_contains("a;;b", ""));
    assert!(list_contains("a;", ""));
    assert!(!list_contains("a;b", ""));
    assert!(!list_contains("", "a"));
}

#[test]
fn add_entry_appends_what_is_missing() {
    assert_eq!(add_entry("C:\\Windows", "C:\\tools"), "C:\\Windows;C:\\tools");
    assert_eq!(add_entry("", "C:\\tools"), ";C:\\tools");
}

#[test]
fn add_entry_leaves_a_list_that_names_the_entry() {
    assert_eq!(add_entry("C:\\tools;C:\\Windows", "C:\\tools"), "C:\\tools;C:\\Windows");
    assert_eq!(add_entry("C:\\Windows;C:\\tools", "C:\\tools"), "C:\\Windows;C:\\tools");
}

#[test]
fn adding_the_same_directory_twice_names_it_once() {
    let once = add_entry("C:\\Windows;C:\\Users\\me\\bin", "C:\\tools\\colmap\\bin");
    let twice = add_entry(&once, "C:\\tools\\colmap\\bin");
    assert_eq!(once, twice);
    assert_eq!(twice.split(';').filter(|entry| *entry == "C:\\tools\\colmap\\bin").count(), 1);
}

#[test]
fn add_entry_does_not_remove_doubles_that_were_there() {
    assert_eq!(add_entry("a;b;a", "a"), "a;b;a");
}

#[test]
fn plan_publication_adds_the_install_dir_and_the_tools_that_are_there() {
    let probes = ToolProbes { colmap: BIN, glomap: NONE, ffmpeg: PRIMARY };
    let plan = plan_publication("C:\\Windows", "C:\\app", "C:\\data\\polyfjord3d", true, probes);
    assert_eq!(
        plan,
        Publication {
            value: "C:\\Windows;C:\\app;C:\\data\\polyfjord3d/colmap/bin;C:\\data\\polyfjord3d/ffmpeg"
                .to_string(),
            changed: true,
        }
    );
}

#[test]
fn plan_publication_changes_nothing_where_all_is_published() {
    let probes = ToolProbes { colmap: PRIMARY, glomap: NONE, ffmpeg: NONE };
    let current = "C:\\app;root/colmap";
    let plan = plan_publication(current, "C:\\app", "root", true, probes);
    assert_eq!(plan, Publication { value: current.to_string(), changed: false });
    assert!(!plan.announces(true));
}

#[test]
fn plan_publication_adds_a_directory_once_where_two_tools_share_it() {
    let probes = ToolProbes { colmap: PRIMARY, glomap: NONE, ffmpeg: NONE };
    let plan = plan_publication("x", "root/colmap", "root", true, probes);
    assert_eq!(plan.value, "x;root/colmap");
    assert!(plan.changed);
}

#[test]
fn plan_publication_does_nothing_without_a_tools_directory() {
    let probes = ToolProbes { colmap: PRIMARY, glomap: PRIMARY, ffmpeg: PRIMARY };
    let plan = plan_publication("C:\\Windows", "C:\\app", "root", false, probes);
    assert_eq!(plan, Publication { value: "C:\\Windows".to_string(), changed: false });
}

#[test]
fn publication_is_idempotent() {
    let probes = ToolProbes { colmap: BIN, glomap: PRIMARY, ffmpeg: BIN };
    let first = plan_publication("C:\\Windows", "C:\\app", "root", true, probes);
    assert!(first.changed);
    let second = plan_publication(&first.value, "C:\\app", "root", true, probes);
    assert!(!second.changed);
    assert_eq!(second.value, first.value);
}

#[test]
fn a_change_is_announced_only_on_request() {
    let changed = Publication { value: "a;b".to_string(), changed: true };
    assert!(changed.announces(true));
    assert!(!changed.announces(false));
    let same = Publication { value: "a".to_string(), changed: false };
    assert!(!same.announces(true));
    assert!(!same.announces(false));
}

#[test]
fn each_scope_has_its_registry_key() {
    assert_eq!(Scope::User.environment_key(), "Environment");
    assert_eq!(
        Scope::System.environment_key(),
        "System\\CurrentControlSet\\Control\\Session Manager\\Environment"
    );
}
