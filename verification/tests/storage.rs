//! Master and snapshot operations: referential-integrity guards, the step
//! machines, and the storage-listing parser.
use diskless::config::{Client, Config};
use diskless::machine::{Action, Event, Outcome, Step};
use diskless::zfs::{
    check_valid_size, create_master, create_snapshot, dataset_names, delete_master,
    delete_snapshot, filter_master_names, find_dataset_used, parse_zfs_list, sort_dedup_names,
};

fn client_using(master: &str, snapshot: Option<&str>) -> Client {
    Client {
        id: "pc1".to_string(),
        name: "PC1".to_string(),
        mac: "AA:BB:CC:00:00:01".to_string(),
        ip: "10.0.0.11".to_string(),
        master: master.to_string(),
        snapshot: snapshot.map(|s| s.to_string()),
        block_store: None,
        target_iqn: None,
        writeback: None,
        created_at: None,
        last_modified: None,
        block_device: None,
        status: None,
        mode: None,
    }
}

#[test]
fn delete_master_with_dependent_clients_is_refused() {
    // P4: the error names the dependents and no destroy step exists
    let mut cfg = Config::default();
    cfg.clients = vec![client_using("diskless/win10-master", None)];
    let e = delete_master(cfg, "diskless/win10-master").err().unwrap();
    assert_eq!(
        e,
        "Cannot delete master: It is being used by the following clients: PC1"
    );
}

#[test]
fn delete_master_without_dependents_destroys_and_unrecords() {
    let cfg = Config::default();
    let (mut m, a) = delete_master(cfg, "diskless/old-master").unwrap();
    match a {
        Action::ZfsDestroy { dataset } => assert_eq!(dataset, "diskless/old-master"),
        _ => panic!("expected the destroy step"),
    }
    let st = m.step(Event::Done);
    assert!(matches!(st, Step::Run(Action::PersistConfig)));
    let st = m.step(Event::Done);
    match st {
        Step::Done(Outcome::Success { message, .. }) => {
            assert_eq!(message, "Master diskless/old-master deleted successfully");
        },
        _ => panic!("expected success"),
    }
}

#[test]
fn delete_master_surfaces_dependent_clones_distinctly() {
    let (mut m, _a) = delete_master(Config::default(), "diskless/old-master").unwrap();
    let st = m.step(Event::Failed(
        "cannot destroy 'diskless/old-master': filesystem has dependent clones".to_string(),
    ));
    match st {
        Step::Done(Outcome::Failure { message }) => {
            assert_eq!(
                message,
                "Cannot delete master 'diskless/old-master': It has dependent clones."
            );
        },
        _ => panic!("expected the dependent-clones failure"),
    }
}

#[test]
fn delete_snapshot_with_dependent_clients_is_refused() {
    // P5: the error names the dependents and no destroy step exists
    let mut cfg = Config::default();
    cfg.clients = vec![client_using(
        "diskless/win10-master",
        Some("diskless/win10-master@base"),
    )];
    let e = delete_snapshot(cfg, "diskless/win10-master@base").err().unwrap();
    assert_eq!(
        e,
        "Cannot delete snapshot: It is being used by the following clients: PC1"
    );
}

#[test]
fn delete_snapshot_rejects_malformed_names() {
    let e = delete_snapshot(Config::default(), "nopool@x").err().unwrap();
    assert_eq!(e, "Invalid snapshot name format.");
    let e = delete_snapshot(Config::default(), "diskless/noat").err().unwrap();
    assert_eq!(e, "Invalid snapshot name format.");
}

#[test]
fn delete_snapshot_removes_it_from_its_master_record() {
    let (mut m, a) = create_master(Config::default(), "win10", "50G").unwrap();
    assert!(matches!(a, Action::ZfsProbe { .. }));
    let st = m.step(Event::Flag(false));
    match st {
        Step::Run(Action::ZfsCreateVolume { name, size }) => {
            assert_eq!(name, "diskless/win10-master");
            assert_eq!(size, "50G");
        },
        _ => panic!("expected the volume creation"),
    }
    let _ = m.step(Event::Done);
    let st = m.step(Event::Done);
    assert!(matches!(st, Step::Done(Outcome::Success { .. })));
    // record a snapshot under the master, then delete it again
    let cfg = m.into_config();
    let (mut ms, _a) = create_snapshot(cfg, "diskless/win10-master@base").unwrap();
    let _ = ms.step(Event::Flag(true));
    let _ = ms.step(Event::Done);
    let st = ms.step(Event::Done);
    match st {
        Step::Done(Outcome::Success { message, .. }) => {
            assert_eq!(message, "Snapshot diskless/win10-master@base created");
        },
        _ => panic!("expected success"),
    }
    assert_eq!(
        ms.config().masters[0].snapshots,
        vec!["diskless/win10-master@base".to_string()]
    );
    let cfg = ms.into_config();
    let (mut md, _a) = delete_snapshot(cfg, "diskless/win10-master@base").unwrap();
    let _ = md.step(Event::Done);
    let st = md.step(Event::Done);
    match st {
        Step::Done(Outcome::Success { message, .. }) => {
            assert_eq!(message, "Snapshot diskless/win10-master@base deleted successfully");
        },
        _ => panic!("expected success"),
    }
    assert!(md.config().masters[0].snapshots.is_empty());
}

#[test]
fn create_master_rejects_bad_name_and_size() {
    let e = create_master(Config::default(), "bad name", "50G").err().unwrap();
    assert_eq!(e, "Invalid master base name format (use alphanumeric, _, -).");
    let e = create_master(Config::default(), "win10", "50X").err().unwrap();
    assert_eq!(e, "Invalid size format (e.g., '50G')");
    assert!(check_valid_size("50g"));
    assert!(check_valid_size("1T"));
    assert!(!check_valid_size("G"));
    assert!(!check_valid_size("12"));
}

#[test]
fn create_master_refuses_existing_volume() {
    let (mut m, _a) = create_master(Config::default(), "win10", "50G").unwrap();
    let st = m.step(Event::Flag(true));
    match st {
        Step::Done(Outcome::Failure { message }) => {
            assert_eq!(message, "ZFS volume 'diskless/win10-master' already exists.");
        },
        _ => panic!("expected the conflict failure"),
    }
}

#[test]
fn create_snapshot_rejects_bad_name_and_missing_master() {
    let e = create_snapshot(Config::default(), "win10@base").err().unwrap();
    assert_eq!(e, "Invalid snapshot name. Expected diskless/master@snapname");
    let (mut m, a) = create_snapshot(Config::default(), "diskless/win10-master@base").unwrap();
    match a {
        Action::ZfsProbe { dataset } => assert_eq!(dataset, "diskless/win10-master"),
        _ => panic!("expected the master probe"),
    }
    let st = m.step(Event::Flag(false));
    match st {
        Step::Done(Outcome::Failure { message }) => {
            assert_eq!(message, "Master 'diskless/win10-master' not found.");
        },
        _ => panic!("expected the missing-master failure"),
    }
}

#[test]
fn create_snapshot_surfaces_name_collision_distinctly() {
    let (mut m, _a) = create_snapshot(Config::default(), "diskless/win10-master@base").unwrap();
    let _ = m.step(Event::Flag(true));
    let st = m.step(Event::Failed("cannot create snapshot: dataset already exists".to_string()));
    match st {
        Step::Done(Outcome::Failure { message }) => {
            assert_eq!(message, "Snapshot 'diskless/win10-master@base' already exists.");
        },
        _ => panic!("expected the collision failure"),
    }
}

#[test]
fn parse_zfs_list_keeps_only_full_lines() {
    let out = "diskless\t2024\t1G\ndiskless/a-master\t2024\t2G\nbroken line\n";
    let parsed = parse_zfs_list(out);
    assert_eq!(parsed.len(), 2);
    assert_eq!(parsed[0].name, "diskless");
    assert_eq!(parsed[0].created, "2024");
    assert_eq!(parsed[0].used, "1G");
    assert_eq!(parsed[1].name, "diskless/a-master");
}

#[test]
fn master_names_are_filtered_sorted_and_deduplicated() {
    let listing = parse_zfs_list(
        "diskless\t2024\t1G\ndiskless/b-master\t2024\t2G\ndiskless/a-MASTER\t2024\t3G\n",
    );
    let mut names = dataset_names(&listing);
    names.push("diskless/b-master".to_string());
    names.push("diskless/a-data".to_string());
    let masters = filter_master_names(&names);
    assert_eq!(
        masters,
        vec![
            "diskless/b-master".to_string(),
            "diskless/a-MASTER".to_string(),
            "diskless/b-master".to_string(),
        ]
    );
    let unique = sort_dedup_names(&masters);
    assert_eq!(
        unique,
        vec!["diskless/a-MASTER".to_string(), "diskless/b-master".to_string()]
    );
    assert_eq!(find_dataset_used(&listing, "diskless/b-master"), "2G");
    assert_eq!(find_dataset_used(&listing, "diskless/none"), "-");
}
