//! End-to-end drives of the client lifecycle step machines.
use diskless::client::{
    add_client, delete_client, edit_client, reset_client, AddClientRequest, EditRequest,
};
use diskless::config::{get_client_by_id, Client, Config};
use diskless::machine::{Action, Event, Outcome, Step};

fn empty_config() -> Config {
    Config::default()
}

fn sample_client() -> Client {
    Client {
        id: "pc1".to_string(),
        name: "PC1".to_string(),
        mac: "AA:BB:CC:00:00:01".to_string(),
        ip: "10.0.0.11".to_string(),
        master: "diskless/win10-master".to_string(),
        snapshot: Some("diskless/win10-master@base".to_string()),
        block_store: Some("block_pc1".to_string()),
        target_iqn: Some("iqn.2025-04.com.nsboot:pc1".to_string()),
        writeback: Some("diskless/PC1-disk".to_string()),
        created_at: Some("2025-01-01 00:00:00".to_string()),
        last_modified: Some("2025-01-01 00:00:00".to_string()),
        block_device: Some("/dev/zvol/diskless/PC1-disk".to_string()),
        status: None,
        mode: None,
    }
}

fn config_with(clients: Vec<Client>) -> Config {
    let mut c = Config::default();
    c.clients = clients;
    c
}

#[test]
fn create_provisions_all_layers() {
    // the P8 shape: master has a base snapshot, no explicit snapshot given
    let req = AddClientRequest {
        name: " PC1 ".to_string(),
        mac: "aa:bb:cc:00:00:01".to_string(),
        ip: "10.0.0.11".to_string(),
        master: "diskless/win10-master".to_string(),
        snapshot: None,
    };
    let (mut m, a) = add_client(empty_config(), &req, "192.168.1.200").unwrap();
    match a {
        Action::ZfsProbe { dataset } => assert_eq!(dataset, "diskless/win10-master@base"),
        _ => panic!("expected a base-snapshot probe"),
    }
    // the base snapshot exists: a per-client snapshot is taken
    let st = m.step(Event::Flag(true));
    match st {
        Step::Run(Action::ZfsSnapshot { snapshot }) => {
            assert_eq!(snapshot, "diskless/win10-master@pc1_base");
        },
        _ => panic!("expected a snapshot step"),
    }
    let st = m.step(Event::Done);
    match st {
        Step::Run(Action::ZfsClone { snapshot, clone }) => {
            assert_eq!(snapshot, "diskless/win10-master@pc1_base");
            assert_eq!(clone, "diskless/PC1-disk");
        },
        _ => panic!("expected a clone step"),
    }
    let st = m.step(Event::Done);
    match st {
        Step::Run(Action::ExportSetup { target_iqn, block_store, device }) => {
            assert_eq!(target_iqn, "iqn.2025-04.com.nsboot:pc1");
            assert_eq!(block_store, "block_pc1");
            assert_eq!(device, "/dev/zvol/diskless/PC1-disk");
        },
        _ => panic!("expected an export setup step"),
    }
    let st = m.step(Event::Done);
    match st {
        Step::Run(Action::DhcpUpsert { client_id, entry, is_new }) => {
            assert_eq!(client_id, "pc1");
            assert!(is_new);
            assert!(entry.contains("host PC1 {"));
            assert!(entry.contains("hardware ethernet AA:BB:CC:00:00:01;"));
            assert!(entry.contains("fixed-address 10.0.0.11;"));
            assert!(entry.contains(
                "option root-path \"iscsi:192.168.1.200::::iqn.2025-04.com.nsboot:pc1\""
            ));
        },
        _ => panic!("expected a boot-configuration step"),
    }
    let st = m.step(Event::Done);
    assert!(matches!(st, Step::Run(Action::PersistConfig)));
    // the record is already in the machine's document: the round trip of P6
    let found = get_client_by_id(m.config(), "PC1").expect("client must be readable back");
    assert_eq!(found.id, "pc1");
    assert_eq!(found.name, "PC1");
    assert_eq!(found.mac, "AA:BB:CC:00:00:01");
    assert_eq!(found.ip, "10.0.0.11");
    assert_eq!(found.master, "diskless/win10-master");
    assert_eq!(found.snapshot, None);
    assert_eq!(found.target_iqn.as_deref(), Some("iqn.2025-04.com.nsboot:pc1"));
    assert_eq!(found.block_store.as_deref(), Some("block_pc1"));
    assert_eq!(found.writeback.as_deref(), Some("diskless/PC1-disk"));
    assert_eq!(found.block_device.as_deref(), Some("/dev/zvol/diskless/PC1-disk"));
    assert_eq!(found.created_at, found.last_modified);
    let stamp = found.created_at.clone().unwrap();
    assert!(stamp.is_ascii());
    assert_eq!(stamp.len(), 19);
    let st = m.step(Event::Done);
    assert!(matches!(st, Step::Run(Action::DhcpRestart)));
    let st = m.step(Event::Done);
    match st {
        Step::Done(Outcome::Success { message, warnings }) => {
            assert_eq!(message, "Client pc1 added successfully");
            assert!(warnings.is_empty());
        },
        _ => panic!("expected success"),
    }
}

#[test]
fn create_with_explicit_snapshot_clones_it_directly() {
    let req = AddClientRequest {
        name: "pc2".to_string(),
        mac: "aa:bb:cc:00:00:02".to_string(),
        ip: "10.0.0.12".to_string(),
        master: "diskless/win10-master".to_string(),
        snapshot: Some("diskless/win10-master@gold".to_string()),
    };
    let (_m, a) = add_client(empty_config(), &req, "192.168.1.200").unwrap();
    match a {
        Action::ZfsClone { snapshot, clone } => {
            assert_eq!(snapshot, "diskless/win10-master@gold");
            assert_eq!(clone, "diskless/PC2-disk");
        },
        _ => panic!("expected an immediate clone"),
    }
}

#[test]
fn create_rejects_missing_fields() {
    let req = AddClientRequest {
        name: "  ".to_string(),
        mac: "aa".to_string(),
        ip: "10.0.0.2".to_string(),
        master: "m".to_string(),
        snapshot: None,
    };
    let e = add_client(empty_config(), &req, "192.168.1.200").err().unwrap();
    assert_eq!(e, "Missing required fields: name, mac, ip");
    let req = AddClientRequest {
        name: "pc1".to_string(),
        mac: "aa".to_string(),
        ip: "10.0.0.2".to_string(),
        master: " ".to_string(),
        snapshot: None,
    };
    let e = add_client(empty_config(), &req, "192.168.1.200").err().unwrap();
    assert_eq!(e, "Master image is required");
}

#[test]
fn create_rejects_duplicate_name_case_insensitively() {
    // P1: a second client with a name equal up to case is a name conflict
    let cfg = config_with(vec![sample_client()]);
    let req = AddClientRequest {
        name: "Pc1".to_string(),
        mac: "aa:bb:cc:00:00:09".to_string(),
        ip: "10.0.0.99".to_string(),
        master: "diskless/win10-master".to_string(),
        snapshot: None,
    };
    let e = add_client(cfg, &req, "192.168.1.200").err().unwrap();
    assert_eq!(e, "A client with name 'pc1' already exists");
}

#[test]
fn create_rejects_duplicate_ip_and_mac() {
    // P2: duplicate address or hardware address is a conflict, before any
    // external command (the constructor rejects it without a first action)
    let cfg = config_with(vec![sample_client()]);
    let req = AddClientRequest {
        name: "pc9".to_string(),
        mac: "aa:bb:cc:00:00:09".to_string(),
        ip: "10.0.0.11".to_string(),
        master: "diskless/win10-master".to_string(),
        snapshot: None,
    };
    let e = add_client(cfg, &req, "192.168.1.200").err().unwrap();
    assert_eq!(e, "IP address 10.0.0.11 is already in use by client 'PC1'");
    let cfg = config_with(vec![sample_client()]);
    let req = AddClientRequest {
        name: "pc9".to_string(),
        mac: "aa:bb:cc:00:00:01".to_string(),
        ip: "10.0.0.99".to_string(),
        master: "diskless/win10-master".to_string(),
        snapshot: None,
    };
    let e = add_client(cfg, &req, "192.168.1.200").err().unwrap();
    assert_eq!(e, "MAC address AA:BB:CC:00:00:01 is already in use by client 'PC1'");
}

#[test]
fn edit_ip_only_touches_boot_configuration_and_record() {
    // P9: only the address changes; no storage or export step is requested
    let cfg = config_with(vec![sample_client()]);
    let req = EditRequest {
        name: None,
        mac: None,
        ip: Some("10.0.0.12".to_string()),
        master: None,
        snapshot: None,
    };
    let (mut m, st) = edit_client(cfg, "pc1", &req, "192.168.1.200").unwrap();
    match st {
        Step::Run(Action::DhcpUpsert { client_id, entry, is_new }) => {
            assert_eq!(client_id, "pc1");
            assert!(!is_new);
            assert!(entry.contains("host PC1 {"));
            assert!(entry.contains("fixed-address 10.0.0.12;"));
        },
        _ => panic!("expected a boot-configuration rewrite"),
    }
    let st = m.step(Event::Done);
    assert!(matches!(st, Step::Run(Action::PersistConfig)));
    let st = m.step(Event::Done);
    match st {
        Step::Done(Outcome::Success { message, .. }) => {
            assert_eq!(message, "Successfully updated client pc1");
        },
        _ => panic!("expected success"),
    }
    let c = &m.config().clients[0];
    assert_eq!(c.ip, "10.0.0.12");
    assert_eq!(c.mac, "AA:BB:CC:00:00:01");
    assert_ne!(c.last_modified, Some("2025-01-01 00:00:00".to_string()));
    assert_eq!(c.created_at, Some("2025-01-01 00:00:00".to_string()));
}

#[test]
fn create_fails_when_the_record_cannot_be_written() {
    // a failed primary record write is the operation's own failure
    let req = AddClientRequest {
        name: "pc1".to_string(),
        mac: "aa:bb:cc:00:00:01".to_string(),
        ip: "10.0.0.11".to_string(),
        master: "diskless/win10-master".to_string(),
        snapshot: Some("diskless/win10-master@base".to_string()),
    };
    let (mut m, _a) = add_client(empty_config(), &req, "192.168.1.200").unwrap();
    let _ = m.step(Event::Done);  // clone
    let _ = m.step(Event::Done);  // export setup
    let st = m.step(Event::Done);  // boot configuration
    assert!(matches!(st, Step::Run(Action::PersistConfig)));
    let st = m.step(Event::Failed("disk full".to_string()));
    match st {
        Step::Done(Outcome::Failure { message }) => assert_eq!(message, "disk full"),
        _ => panic!("a failed record write must fail the create"),
    }
}

#[test]
fn edit_fails_when_the_record_cannot_be_written() {
    let cfg = config_with(vec![sample_client()]);
    let req = EditRequest {
        name: None,
        mac: None,
        ip: Some("10.0.0.12".to_string()),
        master: None,
        snapshot: None,
    };
    let (mut m, _st) = edit_client(cfg, "pc1", &req, "192.168.1.200").unwrap();
    let st = m.step(Event::Done);  // boot configuration
    assert!(matches!(st, Step::Run(Action::PersistConfig)));
    let st = m.step(Event::Failed("disk full".to_string()));
    match st {
        Step::Done(Outcome::Failure { message }) => assert_eq!(message, "disk full"),
        _ => panic!("a failed record write must fail the edit"),
    }
}

#[test]
fn edit_rejects_duplicate_ip_of_another_client() {
    // P2 on the edit path
    let mut other = sample_client();
    other.id = "pc2".to_string();
    other.name = "PC2".to_string();
    other.mac = "AA:BB:CC:00:00:02".to_string();
    other.ip = "10.0.0.12".to_string();
    let cfg = config_with(vec![sample_client(), other]);
    let req = EditRequest {
        name: None,
        mac: None,
        ip: Some("10.0.0.11".to_string()),
        master: None,
        snapshot: None,
    };
    let e = edit_client(cfg, "pc2", &req, "192.168.1.200").err().unwrap();
    assert_eq!(e, "IP address 10.0.0.11 is already in use by client 'PC1'");
}

#[test]
fn edit_without_changes_is_a_no_op() {
    let cfg = config_with(vec![sample_client()]);
    let req = EditRequest { name: None, mac: None, ip: None, master: None, snapshot: None };
    let (_m, st) = edit_client(cfg, "pc1", &req, "192.168.1.200").unwrap();
    match st {
        Step::Done(Outcome::Success { message, .. }) => {
            assert_eq!(message, "No changes detected or no action required");
        },
        _ => panic!("expected an immediate no-op"),
    }
}

#[test]
fn edit_rename_reprovisions_under_new_names() {
    let cfg = config_with(vec![sample_client()]);
    let req = EditRequest {
        name: Some("lab_7".to_string()),
        mac: None,
        ip: None,
        master: None,
        snapshot: None,
    };
    let (mut m, st) = edit_client(cfg, "pc1", &req, "192.168.1.200").unwrap();
    // the retained snapshot forces the destructive re-clone path
    match st {
        Step::Run(Action::ZfsProbe { dataset }) => assert_eq!(dataset, "diskless/PC1-disk"),
        _ => panic!("expected a probe of the old clone"),
    }
    let st = m.step(Event::Flag(true));
    match st {
        Step::Run(Action::ExportTeardown { target_iqn, block_store }) => {
            assert_eq!(target_iqn, "iqn.2025-04.com.nsboot:pc1");
            assert_eq!(block_store, "block_pc1");
        },
        _ => panic!("expected the old export unit to be torn down"),
    }
    let st = m.step(Event::Warnings(vec![]));
    match st {
        Step::Run(Action::ZfsDestroy { dataset }) => assert_eq!(dataset, "diskless/PC1-disk"),
        _ => panic!("expected the old clone to be destroyed"),
    }
    let st = m.step(Event::Done);
    match st {
        Step::Run(Action::ZfsClone { snapshot, clone }) => {
            assert_eq!(snapshot, "diskless/win10-master@base");
            assert_eq!(clone, "diskless/LAB_7-disk");
        },
        _ => panic!("expected a fresh clone"),
    }
    let st = m.step(Event::Done);
    match st {
        Step::Run(Action::DhcpUpsert { client_id, is_new, .. }) => {
            assert_eq!(client_id, "pc1");
            assert!(!is_new);
        },
        _ => panic!("expected a boot-configuration rewrite"),
    }
    let st = m.step(Event::Done);
    match st {
        Step::Run(Action::ExportSetup { target_iqn, block_store, device }) => {
            // the identity derivation drops underscores and folds case
            assert_eq!(target_iqn, "iqn.2025-04.com.nsboot:lab7");
            assert_eq!(block_store, "block_lab_7");
            assert_eq!(device, "/dev/zvol/diskless/LAB_7-disk");
        },
        _ => panic!("expected the new export unit"),
    }
    let st = m.step(Event::Done);
    assert!(matches!(st, Step::Run(Action::PersistConfig)));
    // a rename is delete-plus-insert: the old id is gone
    assert!(get_client_by_id(m.config(), "pc1").is_none());
    let renamed = get_client_by_id(m.config(), "lab_7").unwrap();
    assert_eq!(renamed.name, "lab_7");
    assert_eq!(renamed.writeback.as_deref(), Some("diskless/LAB_7-disk"));
    let st = m.step(Event::Done);
    match st {
        Step::Done(Outcome::Success { message, .. }) => {
            assert_eq!(message, "Successfully updated client pc1 and associated resources");
        },
        _ => panic!("expected success"),
    }
}

#[test]
fn delete_succeeds_with_warning_when_export_was_already_gone() {
    // P10: the export teardown reports trouble, deletion still completes and
    // the record is removed
    let cfg = config_with(vec![sample_client()]);
    let (mut m, a) = delete_client(cfg, "pc1").unwrap();
    match a {
        Action::DhcpUpsert { client_id, entry, is_new } => {
            assert_eq!(client_id, "pc1");
            assert_eq!(entry, "");
            assert!(!is_new);
        },
        _ => panic!("expected the boot-configuration entry removal"),
    }
    let st = m.step(Event::Done);
    assert!(matches!(st, Step::Run(Action::DhcpRestart)));
    let st = m.step(Event::Done);
    assert!(matches!(st, Step::Run(Action::ExportTeardown { .. })));
    let st = m.step(Event::Warnings(vec![
        "could not delete target iqn.2025-04.com.nsboot:pc1: no such target".to_string(),
    ]));
    match st {
        Step::Run(Action::ZfsProbe { dataset }) => assert_eq!(dataset, "diskless/PC1-disk"),
        _ => panic!("expected the clone probe"),
    }
    let st = m.step(Event::Flag(false));
    assert!(matches!(st, Step::Run(Action::PersistConfig)));
    assert!(m.config().clients.is_empty());
    let st = m.step(Event::Done);
    match st {
        Step::Done(Outcome::Success { message, warnings }) => {
            assert_eq!(message, "Client pc1 deleted with issues");
            assert_eq!(warnings.len(), 1);
            assert!(warnings[0].starts_with("Failed to clean up iSCSI target: "));
        },
        _ => panic!("expected success with warnings"),
    }
}

#[test]
fn delete_without_trouble_reports_clean_success() {
    let cfg = config_with(vec![sample_client()]);
    let (mut m, _a) = delete_client(cfg, "pc1").unwrap();
    let _ = m.step(Event::Done);
    let _ = m.step(Event::Done);
    let _ = m.step(Event::Warnings(vec![]));
    let st = m.step(Event::Flag(true));
    match st {
        Step::Run(Action::ZfsDestroy { dataset }) => assert_eq!(dataset, "diskless/PC1-disk"),
        _ => panic!("expected the clone to be destroyed"),
    }
    let _ = m.step(Event::Done);
    let st = m.step(Event::Done);
    match st {
        Step::Done(Outcome::Success { message, warnings }) => {
            assert_eq!(message, "Client pc1 deleted successfully");
            assert!(warnings.is_empty());
        },
        _ => panic!("expected clean success"),
    }
}

#[test]
fn delete_rejects_malformed_id() {
    let e = delete_client(empty_config(), "bad id!").err().unwrap();
    assert_eq!(e, "Invalid client ID");
}

#[test]
fn reset_without_snapshot_fails_before_any_command() {
    // P11: no recorded snapshot means no storage or export step at all
    let mut c = sample_client();
    c.snapshot = None;
    let cfg = config_with(vec![c]);
    let e = reset_client(&cfg, "pc1").err().unwrap();
    assert_eq!(e, "No snapshot found for client");
    let mut c = sample_client();
    c.snapshot = Some("".to_string());
    let cfg = config_with(vec![c]);
    let e = reset_client(&cfg, "pc1").err().unwrap();
    assert_eq!(e, "No snapshot found for client");
}

#[test]
fn reset_reclones_from_recorded_snapshot() {
    let cfg = config_with(vec![sample_client()]);
    let (mut m, a) = reset_client(&cfg, "pc1").unwrap();
    match a {
        Action::ExportTeardown { target_iqn, block_store } => {
            assert_eq!(target_iqn, "iqn.2025-04.com.nsboot:pc1");
            assert_eq!(block_store, "block_pc1");
        },
        _ => panic!("expected the export teardown"),
    }
    let st = m.step(Event::Warnings(vec![]));
    assert!(matches!(st, Step::Run(Action::ZfsProbe { .. })));
    let st = m.step(Event::Flag(true));
    assert!(matches!(st, Step::Run(Action::ZfsDestroy { .. })));
    let st = m.step(Event::Done);
    match st {
        Step::Run(Action::ZfsClone { snapshot, clone }) => {
            assert_eq!(snapshot, "diskless/win10-master@base");
            assert_eq!(clone, "diskless/PC1-disk");
        },
        _ => panic!("expected the re-clone"),
    }
    let st = m.step(Event::Done);
    assert!(matches!(st, Step::Run(Action::ExportSetup { .. })));
    let st = m.step(Event::Done);
    match st {
        Step::Done(Outcome::Success { message, .. }) => {
            assert_eq!(message, "Client PC1 reset successfully");
        },
        _ => panic!("expected success"),
    }
}

#[test]
fn reset_unknown_client_is_rejected() {
    let e = reset_client(&empty_config(), "ghost").err().unwrap();
    assert_eq!(e, "Client ghost not found");
}
