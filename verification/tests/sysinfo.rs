//! Host-introspection parsers, service knowledge, status labels and the
//! control-action decisions.
use diskless::client::{control_client, get_client_status, remote_client_target, ControlRequest};
use diskless::config::{Client, Config};
use diskless::service::{
    check_services, classify_pool_state, service_config_path, service_unit, service_units,
    zpool_state,
};
use diskless::utils::{get_ram_usage, get_server_ip, get_zfs_arcstat, get_zpool_stats, list_disks};

fn config_with_pc1(ip: &str, mac: &str) -> Config {
    let mut cfg = Config::default();
    cfg.clients = vec![Client {
        id: "pc1".to_string(),
        name: "PC1".to_string(),
        mac: mac.to_string(),
        ip: ip.to_string(),
        master: "diskless/win10-master".to_string(),
        snapshot: None,
        block_store: None,
        target_iqn: None,
        writeback: None,
        created_at: None,
        last_modified: None,
        block_device: None,
        status: None,
        mode: None,
    }];
    cfg
}

#[test]
fn status_labels_follow_the_probe_and_the_address() {
    assert_eq!(get_client_status("", true), "Unknown");
    assert_eq!(get_client_status("N/A", true), "Unknown");
    assert_eq!(get_client_status("10.0.0.11", true), "Online");
    assert_eq!(get_client_status("10.0.0.11", false), "Offline");
}

#[test]
fn server_ip_is_taken_from_the_first_private_src_token() {
    let out = "1.0.0.0 via 192.168.1.1 dev eth0 src 192.168.1.42 uid 0\n";
    assert_eq!(get_server_ip(out), "192.168.1.42");
    let out = "broken\nsomething src 8.8.8.8 here\nother src 10.1.2.3 x\n";
    assert_eq!(get_server_ip(out), "10.1.2.3");
    assert_eq!(get_server_ip("no marker here\n"), "192.168.1.200");
}

#[test]
fn disks_are_parsed_from_three_field_lines() {
    let out = "sda 500G disk\nsda1 500G part\nsdb 1T disk\n";
    let disks = list_disks(out);
    assert_eq!(disks.len(), 2);
    assert_eq!(disks[0].name, "sda");
    assert_eq!(disks[0].size, "500G");
    assert_eq!(disks[1].name, "sdb");
    assert_eq!(disks[1].size, "1T");
}

#[test]
fn memory_figures_come_from_the_second_line() {
    let out = "              total        used        free      shared  buff/cache   available\nMem:            31Gi       4.2Gi        20Gi       100Mi       6.8Gi        26Gi\nSwap:          2.0Gi          0B       2.0Gi\n";
    let u = get_ram_usage(out).unwrap();
    assert_eq!(u.memory.total, "31Gi");
    assert_eq!(u.memory.used, "4.2Gi");
    assert_eq!(u.memory.free, "20Gi");
    assert_eq!(u.memory.shared, "100Mi");
    assert_eq!(u.memory.buff_cache, "6.8Gi");
    assert_eq!(u.memory.available, "26Gi");
    let e = get_ram_usage("one line\n").err().unwrap();
    assert_eq!(e, "Unexpected output from free command");
    let e = get_ram_usage("a\nMem: 1 2\nSwap:\n").err().unwrap();
    assert_eq!(e, "Invalid memory information format");
}

#[test]
fn cache_counters_are_read_by_key() {
    let content = "name type data\nhits 4 12345\nmisses 4 67\nsize 4 987654321\n";
    let (hits, misses, size) = get_zfs_arcstat(content);
    assert_eq!(hits, 12345);
    assert_eq!(misses, 67);
    assert_eq!(size, 987654321);
    let (h, m, s) = get_zfs_arcstat("nothing relevant\n");
    assert_eq!((h, m, s), (0, 0, 0));
}

#[test]
fn pool_statistics_come_from_the_first_line() {
    let st = get_zpool_stats("diskless 928G 100G 828G\n").unwrap();
    assert_eq!(st.name, "diskless");
    assert_eq!(st.size, "928G");
    assert_eq!(st.used, "100G");
    assert_eq!(st.available, "828G");
    assert_eq!(get_zpool_stats("").err().unwrap(), "No zpool found");
    assert_eq!(get_zpool_stats("too few\n").err().unwrap(), "Unexpected zpool output");
}

#[test]
fn pool_state_is_extracted_and_classified() {
    let out = "  pool: diskless\n state: ONLINE\nconfig:\n";
    assert_eq!(zpool_state(out), "ONLINE");
    assert_eq!(classify_pool_state("ONLINE"), "active");
    assert_eq!(classify_pool_state("DEGRADED"), "degraded");
    assert_eq!(zpool_state("no state line\n"), "unknown");
}

#[test]
fn service_maps_cover_the_managed_services() {
    assert_eq!(service_unit("dhcp").as_deref(), Some("isc-dhcp-server.service"));
    assert_eq!(service_unit("iscsi").as_deref(), Some("target.service"));
    assert_eq!(service_unit("unknown"), None);
    assert_eq!(service_config_path("share").as_deref(), Some("/etc/samba/smb.conf"));
    assert_eq!(service_config_path("nope"), None);
    let units = service_units();
    assert_eq!(units.len(), 5);
    assert_eq!(units[1].key, "dhcp");
    assert_eq!(units[1].unit, "isc-dhcp-server.service");
    let tools = check_services();
    assert_eq!(tools.len(), 7);
    assert_eq!(tools[0].tool, "zfs");
    assert_eq!(tools[0].package, "zfsutils-linux");
    assert_eq!(tools[6].tool, "wakeonlan");
}

#[test]
fn control_actions_resolve_to_commands_or_errors() {
    let cfg = config_with_pc1("10.0.0.11", "AA:BB:CC:00:00:01");
    let req = ControlRequest { action: "wake".to_string(), make_super: None };
    match control_client(&cfg, "pc1", &req).unwrap() {
        diskless::client::ControlPlan::Wake { mac, message } => {
            assert_eq!(mac, "AA:BB:CC:00:00:01");
            assert_eq!(message, "Wake-on-LAN command sent to PC1 (10.0.0.11)");
        },
        _ => panic!("expected a wake plan"),
    }
    let req = ControlRequest { action: "reboot".to_string(), make_super: None };
    match control_client(&cfg, "pc1", &req).unwrap() {
        diskless::client::ControlPlan::Remote { reboot, ip, message } => {
            assert!(reboot);
            assert_eq!(ip, "10.0.0.11");
            assert_eq!(message, "Reboot command sent to PC1 (10.0.0.11)");
        },
        _ => panic!("expected a remote plan"),
    }
    let req = ControlRequest { action: "shutdown".to_string(), make_super: None };
    match control_client(&cfg, "pc1", &req).unwrap() {
        diskless::client::ControlPlan::Remote { reboot, .. } => assert!(!reboot),
        _ => panic!("expected a remote plan"),
    }
    let req = ControlRequest { action: "toggleSuper".to_string(), make_super: Some(true) };
    match control_client(&cfg, "pc1", &req).unwrap() {
        diskless::client::ControlPlan::Ack { message } => {
            assert_eq!(message, "Super Client enabled for pc1");
        },
        _ => panic!("expected an acknowledgement"),
    }
    let req = ControlRequest { action: "edit".to_string(), make_super: None };
    match control_client(&cfg, "pc1", &req).unwrap() {
        diskless::client::ControlPlan::Ack { message } => {
            assert_eq!(message, "Placeholder: Edit Client pc1 not implemented.");
        },
        _ => panic!("expected an acknowledgement"),
    }
    let req = ControlRequest { action: "dance".to_string(), make_super: None };
    let e = control_client(&cfg, "pc1", &req).err().unwrap();
    assert_eq!(e, "Invalid action: dance");
    let req = ControlRequest { action: "wake".to_string(), make_super: None };
    let e = control_client(&cfg, "ghost", &req).err().unwrap();
    assert_eq!(e, "Client ghost not found");
    let cfg = config_with_pc1("10.0.0.11", "");
    let e = control_client(&cfg, "pc1", &req).err().unwrap();
    assert_eq!(e, "MAC address not found for 'PC1'");
    let cfg = config_with_pc1("", "AA:BB:CC:00:00:01");
    let req = ControlRequest { action: "reboot".to_string(), make_super: None };
    let e = control_client(&cfg, "pc1", &req).err().unwrap();
    assert_eq!(e, "IP address not found for 'pc1'");
}

#[test]
fn remote_desktop_requires_a_known_client_with_an_address() {
    let cfg = config_with_pc1("10.0.0.11", "AA:BB:CC:00:00:01");
    assert_eq!(remote_client_target(&cfg, "pc1").unwrap(), "10.0.0.11");
    assert_eq!(
        remote_client_target(&Config::default(), "pc1").err().unwrap(),
        "Client not found"
    );
    let cfg = config_with_pc1("", "AA:BB:CC:00:00:01");
    assert_eq!(remote_client_target(&cfg, "pc1").err().unwrap(), "Client IP not found");
}
