use plux::cleanup::{remove_orphaned_plugins, Cleanup, Listing, Removal};
use plux::plugin::{PluginSpec, PluginSpecFile};
use plux::report::{ReportLine, Stream};

fn declared(names: &[&str]) -> PluginSpecFile {
    let mut file = PluginSpecFile::new();
    for name in names {
        file.insert(name.to_string(), PluginSpec::Url(format!("https://example.com/{}", name)));
    }
    file
}

fn directories(names: &[&str]) -> Listing {
    Listing::Directories(names.iter().map(|name| name.to_string()).collect())
}

#[test]
fn exactly_the_orphan_is_removed() {
    let plan = remove_orphaned_plugins(
        "/plugins",
        &directories(&["kept", "old_plugin", "other"]),
        &declared(&["kept", "other", "not_yet_installed"]),
    );
    assert_eq!(
        plan,
        Cleanup {
            removals: vec![Removal {
                name: "old_plugin".to_string(),
                path: "/plugins/old_plugin".to_string(),
            }],
            complaint: None,
        }
    );
}

#[test]
fn all_orphans_are_removed_in_listing_order() {
    let plan = remove_orphaned_plugins("/plugins/", &directories(&["z", "a", "m"]), &declared(&["a"]));
    assert_eq!(
        plan.removals,
        vec![
            Removal { name: "z".to_string(), path: "/plugins/z".to_string() },
            Removal { name: "m".to_string(), path: "/plugins/m".to_string() },
        ]
    );
}

#[test]
fn nothing_is_removed_where_all_is_declared() {
    let plan = remove_orphaned_plugins("/plugins", &directories(&["a", "b"]), &declared(&["b", "a"]));
    assert_eq!(plan, Cleanup { removals: vec![], complaint: None });
}

#[test]
fn an_empty_spec_orphans_every_directory() {
    let plan = remove_orphaned_plugins("/plugins", &directories(&["a"]), &PluginSpecFile::new());
    assert_eq!(
        plan.removals,
        vec![Removal { name: "a".to_string(), path: "/plugins/a".to_string() }]
    );
}

#[test]
fn a_missing_root_is_a_no_op() {
    let plan = remove_orphaned_plugins("/plugins", &Listing::Missing, &declared(&["a"]));
    assert_eq!(plan, Cleanup { removals: vec![], complaint: None });
}

#[test]
fn an_unreadable_root_is_reported() {
    let plan = remove_orphaned_plugins("/plugins", &Listing::Unreadable, &declared(&["a"]));
    assert_eq!(
        plan,
        Cleanup {
            removals: vec![],
            complaint: Some(ReportLine {
                stream: Stream::Error,
                text: "Could not read plugins directory at /plugins".to_string(),
            }),
        }
    );
}

#[test]
fn removals_are_reported_one_by_one() {
    let removal = Removal { name: "old".to_string(), path: "/plugins/old".to_string() };
    assert_eq!(
        removal.report(None),
        ReportLine { stream: Stream::Standard, text: "  Removed orphaned plugin: old".to_string() }
    );
    assert_eq!(
        removal.report(Some("Permission denied (os error 13)")),
        ReportLine {
            stream: Stream::Error,
            text: "  Failed to remove orphaned plugin 'old': Permission denied (os error 13)"
                .to_string(),
        }
    );
}
