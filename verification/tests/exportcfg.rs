//! Export setup/teardown sequences, name derivations and the
//! boot-configuration file transform.
use diskless::dhcp::{create_dhcp_entry, format_client_name, update_dhcp_config};
use diskless::iscsi::{cleanup_iscsi_target, setup_iscsi_target};
use diskless::machine::{Action, Event, Outcome, Step};
use diskless::naming::get_client_paths;

#[test]
fn client_paths_are_derived_from_the_id_alone() {
    let p = get_client_paths("pc_1");
    assert_eq!(p.clone, "diskless/PC_1-disk");
    assert_eq!(p.target_iqn, "iqn.2025-04.com.nsboot:pc1");
    assert_eq!(p.block_store, "block_pc_1");
}

#[test]
fn export_identity_ignores_case_and_underscores() {
    // P3: the target identity is a pure function of the folded id
    let a = get_client_paths("PC_1");
    let b = get_client_paths("pc1");
    let c = get_client_paths("pc2");
    assert_eq!(a.target_iqn, b.target_iqn);
    assert_ne!(a.target_iqn, c.target_iqn);
    // the backing store folds case but keeps underscores
    assert_eq!(get_client_paths("PC_1").block_store, get_client_paths("pc_1").block_store);
    assert_ne!(get_client_paths("pc_1").block_store, get_client_paths("pc1").block_store);
}

#[test]
fn host_names_use_the_numeric_suffix_when_present() {
    assert_eq!(format_client_name("pc_1"), "PC001");
    assert_eq!(format_client_name("lab_042"), "PC042");
    assert_eq!(format_client_name("pc_1234"), "PC1234");
    assert_eq!(format_client_name("gamer"), "GAMER");
    assert_eq!(format_client_name("a_b"), "A_B");
    // the suffix after the last underscore decides
    assert_eq!(format_client_name("a_b_7"), "PC007");
    assert_eq!(format_client_name("a_7_b"), "A_7_B");
}

#[test]
fn reservation_stanza_renders_exactly() {
    let entry = create_dhcp_entry(
        "pc1",
        "AA:BB:CC:00:00:01",
        "10.0.0.11",
        "iqn.2025-04.com.nsboot:pc1",
        "192.168.1.200",
    );
    let expected = "host PC1 {\n    hardware ethernet AA:BB:CC:00:00:01;\n    fixed-address 10.0.0.11;\n    option host-name \"PC1\";\n    if substring (option vendor-class-identifier, 15, 5) = \"00000\" {\n        filename \"ipxe.kpxe\";\n    }\n    elsif substring (option vendor-class-identifier, 15, 5) = \"00006\" {\n        filename \"ipxe32.efi\";\n    }\n    else {\n        filename \"ipxe.efi\";\n    }\n    option root-path \"iscsi:192.168.1.200::::iqn.2025-04.com.nsboot:pc1\";\n}";
    assert_eq!(entry, expected);
}

#[test]
fn new_entries_are_appended_after_one_blank_line() {
    let out = update_dhcp_config("base;\n", "pc9", "ENTRY", true);
    assert_eq!(out, "base;\n\nENTRY");
}

#[test]
fn existing_stanzas_are_replaced_in_place() {
    let content = "opt x;\n\nhost PC1 {\n inner {a}\n}\n\nhost PC2 {\n}\n";
    let out = update_dhcp_config(content, "pc1", "NEWENTRY", false);
    assert_eq!(out, "opt x;\n\nhost PC2 {\n}\n\nNEWENTRY");
}

#[test]
fn an_empty_entry_removes_the_stanza() {
    let content = "opt x;\n\nhost PC1 {\n inner {a}\n}\n\nhost PC2 {\n}\n";
    let out = update_dhcp_config(content, "pc1", "", false);
    assert_eq!(out, "opt x;\n\nhost PC2 {\n}\n\n");
}

#[test]
fn removal_collapses_leftover_blank_lines() {
    let content = "a;\n\n\n\nb;\n";
    let out = update_dhcp_config(content, "absent", "E", false);
    assert_eq!(out, "a;\n\nb;\n\nE");
}

#[test]
fn setup_provisions_missing_parts_in_order() {
    let (mut m, a) = setup_iscsi_target("iqn.t", "block_t", "/dev/zvol/d");
    assert!(matches!(a, Action::TcliListTargets));
    let st = m.step(Event::Output("".to_string()));
    assert!(matches!(st, Step::Run(Action::TcliCreateTarget { .. })));
    for expected in [
        "generate_node_acls=1",
        "cache_dynamic_acls=1",
        "demo_mode_write_protect=0",
        "authentication=0",
    ] {
        let st = m.step(Event::Done);
        match st {
            Step::Run(Action::TcliSetAttr { target_iqn, attr }) => {
                assert_eq!(target_iqn, "iqn.t");
                assert_eq!(attr, expected);
            },
            _ => panic!("expected an attribute step"),
        }
    }
    let st = m.step(Event::Done);
    assert!(matches!(st, Step::Run(Action::TcliListBackstores)));
    let st = m.step(Event::Output("".to_string()));
    match st {
        Step::Run(Action::TcliCreateBackstore { block_store, device }) => {
            assert_eq!(block_store, "block_t");
            assert_eq!(device, "/dev/zvol/d");
        },
        _ => panic!("expected the backing store creation"),
    }
    let st = m.step(Event::Done);
    assert!(matches!(st, Step::Run(Action::TcliListLuns { .. })));
    let st = m.step(Event::Output("".to_string()));
    assert!(matches!(st, Step::Run(Action::TcliCreateLun { .. })));
    let st = m.step(Event::Done);
    assert!(matches!(st, Step::Run(Action::TcliListPortals { .. })));
    let st = m.step(Event::Output("".to_string()));
    assert!(matches!(st, Step::Run(Action::TcliCreatePortal { .. })));
    let st = m.step(Event::Done);
    assert!(matches!(st, Step::Run(Action::TcliSaveConfig)));
    let st = m.step(Event::Done);
    assert!(matches!(st, Step::Done(Outcome::Success { .. })));
}

#[test]
fn setup_twice_converges_to_the_same_state() {
    // P7: a second setup with identical arguments replaces only the backing
    // store and leaves everything else as the first run made it
    let (mut m, _a) = setup_iscsi_target("iqn.t", "block_t", "/dev/zvol/d");
    let st = m.step(Event::Output("iqn.t listed".to_string()));
    assert!(matches!(st, Step::Run(Action::TcliListBackstores)));
    let st = m.step(Event::Output("block_t listed".to_string()));
    match st {
        Step::Run(Action::TcliDeleteBackstore { block_store }) => {
            assert_eq!(block_store, "block_t");
        },
        _ => panic!("expected the stale backing store to be replaced"),
    }
    let st = m.step(Event::Done);
    assert!(matches!(st, Step::Run(Action::TcliCreateBackstore { .. })));
    let st = m.step(Event::Done);
    assert!(matches!(st, Step::Run(Action::TcliListLuns { .. })));
    let st = m.step(Event::Output("block_t mapped".to_string()));
    assert!(matches!(st, Step::Run(Action::TcliListPortals { .. })));
    let st = m.step(Event::Output("0.0.0.0:3260".to_string()));
    assert!(matches!(st, Step::Run(Action::TcliSaveConfig)));
    let st = m.step(Event::Done);
    match st {
        Step::Done(Outcome::Success { warnings, .. }) => assert!(warnings.is_empty()),
        _ => panic!("expected success"),
    }
}

#[test]
fn setup_aborts_on_a_failing_command() {
    let (mut m, _a) = setup_iscsi_target("iqn.t", "block_t", "/dev/zvol/d");
    let st = m.step(Event::Output("".to_string()));
    assert!(matches!(st, Step::Run(Action::TcliCreateTarget { .. })));
    let st = m.step(Event::Failed("target creation failed".to_string()));
    match st {
        Step::Done(Outcome::Failure { message }) => {
            assert_eq!(message, "target creation failed");
        },
        _ => panic!("expected the failure to abort the sequence"),
    }
}

#[test]
fn teardown_collects_warnings_and_never_aborts() {
    let (mut m, a) = cleanup_iscsi_target("iqn.t", "block_t");
    match a {
        Action::TcliDeleteTarget { target_iqn } => assert_eq!(target_iqn, "iqn.t"),
        _ => panic!("expected the target deletion"),
    }
    let st = m.step(Event::Failed("no such target".to_string()));
    assert!(matches!(st, Step::Run(Action::TcliListBackstores)));
    let st = m.step(Event::Output("block_t".to_string()));
    assert!(matches!(st, Step::Run(Action::TcliDeleteBackstore { .. })));
    let st = m.step(Event::Failed("busy".to_string()));
    assert!(matches!(st, Step::Run(Action::TcliSaveConfig)));
    let st = m.step(Event::Done);
    match st {
        Step::Done(Outcome::Success { warnings, .. }) => {
            assert_eq!(warnings.len(), 2);
            assert_eq!(warnings[0], "could not delete target iqn.t: no such target");
            assert_eq!(warnings[1], "could not delete backing store block_t: busy");
        },
        _ => panic!("expected best-effort success"),
    }
}

#[test]
fn teardown_skips_the_backing_store_when_none_is_named() {
    let (mut m, _a) = cleanup_iscsi_target("iqn.t", "");
    let st = m.step(Event::Done);
    assert!(matches!(st, Step::Run(Action::TcliSaveConfig)));
    let st = m.step(Event::Done);
    match st {
        Step::Done(Outcome::Success { warnings, .. }) => assert!(warnings.is_empty()),
        _ => panic!("expected success"),
    }
}
