//! Auxiliary-service knowledge: which services the system manages, where
//! their configuration files live, which tools it needs, and how pool status
//! output is classified.  The service commands themselves run outside the
//! library.
use crate::text::{split_on, starts_with, trim_spec, trim_start_rec};
use vstd::prelude::*;

verus! {

/// A request to act on a managed service.
pub struct ServiceControlRequest {
    pub action: String,
}

/// A managed service: its key in the interface and its unit name.
pub struct ServiceUnit {
    pub key: String,
    pub unit: String,
}

/// Mathematical value of a [`ServiceUnit`].
pub struct ServiceUnitV {
    pub key: Seq<char>,
    pub unit: Seq<char>,
}

impl View for ServiceUnit {
    type V = ServiceUnitV;

    open spec fn view(&self) -> ServiceUnitV {
        ServiceUnitV { key: self.key@, unit: self.unit@ }
    }
}

impl DeepView for ServiceUnit {
    type V = ServiceUnitV;

    open spec fn deep_view(&self) -> ServiceUnitV {
        self.view()
    }
}

/// The unit name a service key maps to, if the key is known.
pub open spec fn service_unit_spec(key: Seq<char>) -> Option<Seq<char>> {
    if key == "iscsi"@ {
        Some("target.service"@)
    } else if key == "dhcp"@ {
        Some("isc-dhcp-server.service"@)
    } else if key == "tftp"@ {
        Some("tftpd-hpa.service"@)
    } else if key == "http"@ {
        Some("apache2.service"@)
    } else if key == "share"@ {
        Some("smbd.service"@)
    } else {
        None
    }
}

/// Maps a service key to its unit name.
pub fn service_unit(key: &str) -> (r: Option<String>)
    ensures
        r.deep_view() == service_unit_spec(key@),
{
    if crate::text::str_eq(key, "iscsi") {
        Some(String::from_str("target.service"))
    } else if crate::text::str_eq(key, "dhcp") {
        Some(String::from_str("isc-dhcp-server.service"))
    } else if crate::text::str_eq(key, "tftp") {
        Some(String::from_str("tftpd-hpa.service"))
    } else if crate::text::str_eq(key, "http") {
        Some(String::from_str("apache2.service"))
    } else if crate::text::str_eq(key, "share") {
        Some(String::from_str("smbd.service"))
    } else {
        None
    }
}

/// The configuration-file path a service key maps to, if the key is known.
pub open spec fn service_config_path_spec(key: Seq<char>) -> Option<Seq<char>> {
    if key == "dhcp"@ {
        Some("/etc/dhcp/dhcpd.conf"@)
    } else if key == "tftp"@ {
        Some("/etc/default/tftpd-hpa"@)
    } else if key == "iscsi"@ {
        Some("/etc/rtslib-fb-target/saveconfig.json"@)
    } else if key == "http"@ {
        Some("/etc/apache2/sites-available/000-default.conf"@)
    } else if key == "share"@ {
        Some("/etc/samba/smb.conf"@)
    } else {
        None
    }
}

/// Maps a service key to the path of its configuration file.
pub fn service_config_path(key: &str) -> (r: Option<String>)
    ensures
        r.deep_view() == service_config_path_spec(key@),
{
    if crate::text::str_eq(key, "dhcp") {
        Some(String::from_str("/etc/dhcp/dhcpd.conf"))
    } else if crate::text::str_eq(key, "tftp") {
        Some(String::from_str("/etc/default/tftpd-hpa"))
    } else if crate::text::str_eq(key, "iscsi") {
        Some(String::from_str("/etc/rtslib-fb-target/saveconfig.json"))
    } else if crate::text::str_eq(key, "http") {
        Some(String::from_str("/etc/apache2/sites-available/000-default.conf"))
    } else if crate::text::str_eq(key, "share") {
        Some(String::from_str("/etc/samba/smb.conf"))
    } else {
        None
    }
}

/// The managed services, in the order they are probed.
pub fn service_units() -> (r: Vec<ServiceUnit>)
    ensures
        r.deep_view().len() == 5,
        r.deep_view()[0] == (ServiceUnitV { key: "iscsi"@, unit: "target.service"@ }),
        r.deep_view()[1] == (ServiceUnitV { key: "dhcp"@, unit: "isc-dhcp-server.service"@ }),
        r.deep_view()[2] == (ServiceUnitV { key: "tftp"@, unit: "tftpd-hpa.service"@ }),
        r.deep_view()[3] == (ServiceUnitV { key: "http"@, unit: "apache2.service"@ }),
        r.deep_view()[4] == (ServiceUnitV { key: "share"@, unit: "smbd.service"@ }),
{
    let mut v: Vec<ServiceUnit> = Vec::new();
    v.push(
        ServiceUnit {
            key: String::from_str("iscsi"),
            unit: String::from_str("target.service"),
        },
    );
    v.push(
        ServiceUnit {
            key: String::from_str("dhcp"),
            unit: String::from_str("isc-dhcp-server.service"),
        },
    );
    v.push(
        ServiceUnit {
            key: String::from_str("tftp"),
            unit: String::from_str("tftpd-hpa.service"),
        },
    );
    v.push(
        ServiceUnit { key: String::from_str("http"), unit: String::from_str("apache2.service") },
    );
    v.push(
        ServiceUnit { key: String::from_str("share"), unit: String::from_str("smbd.service") },
    );
    v
}

/// A required command-line tool and the package that provides it.
pub struct RequiredTool {
    pub tool: String,
    pub package: String,
}

/// Mathematical value of a [`RequiredTool`].
pub struct RequiredToolV {
    pub tool: Seq<char>,
    pub package: Seq<char>,
}

impl View for RequiredTool {
    type V = RequiredToolV;

    open spec fn view(&self) -> RequiredToolV {
        RequiredToolV { tool: self.tool@, package: self.package@ }
    }
}

impl DeepView for RequiredTool {
    type V = RequiredToolV;

    open spec fn deep_view(&self) -> RequiredToolV {
        self.view()
    }
}

/// The tools the system depends on, in the order they are probed.
pub fn check_services() -> (r: Vec<RequiredTool>)
    ensures
        r.deep_view().len() == 7,
        r.deep_view()[0] == (RequiredToolV { tool: "zfs"@, package: "zfsutils-linux"@ }),
        r.deep_view()[1] == (RequiredToolV { tool: "targetcli"@, package: "targetcli-fb"@ }),
        r.deep_view()[2] == (RequiredToolV { tool: "dhcpd"@, package: "isc-dhcp-server"@ }),
        r.deep_view()[3] == (RequiredToolV { tool: "in.tftpd"@, package: "tftpd-hpa"@ }),
        r.deep_view()[4] == (RequiredToolV { tool: "apache2"@, package: "apache2"@ }),
        r.deep_view()[5] == (RequiredToolV { tool: "smbd"@, package: "samba"@ }),
        r.deep_view()[6] == (RequiredToolV { tool: "wakeonlan"@, package: "wakeonlan"@ }),
{
    let mut v: Vec<RequiredTool> = Vec::new();
    v.push(
        RequiredTool {
            tool: String::from_str("zfs"),
            package: String::from_str("zfsutils-linux"),
        },
    );
    v.push(
        RequiredTool {
            tool: String::from_str("targetcli"),
            package: String::from_str("targetcli-fb"),
        },
    );
    v.push(
        RequiredTool {
            tool: String::from_str("dhcpd"),
            package: String::from_str("isc-dhcp-server"),
        },
    );
    v.push(
        RequiredTool {
            tool: String::from_str("in.tftpd"),
            package: String::from_str("tftpd-hpa"),
        },
    );
    v.push(
        RequiredTool { tool: String::from_str("apache2"), package: String::from_str("apache2") },
    );
    v.push(RequiredTool { tool: String::from_str("smbd"), package: String::from_str("samba") });
    v.push(
        RequiredTool {
            tool: String::from_str("wakeonlan"),
            package: String::from_str("wakeonlan"),
        },
    );
    v
}

/// The pool state named by pool status output: the text after the colon of
/// the first line that starts (after indentation) with `state:`; `unknown`
/// when no line does.
pub open spec fn zpool_state_spec(lines: Seq<Seq<char>>) -> Seq<char>
    decreases lines.len(),
{
    if lines.len() == 0 {
        "unknown"@
    } else if starts_with(trim_start_rec(lines[0]), "state:"@) {
        let parts = split_on(lines[0], ':');
        if parts.len() >= 2 {
            trim_spec(parts[1])
        } else {
            Seq::empty()
        }
    } else {
        zpool_state_spec(lines.drop_first())
    }
}

/// Extracts the pool state from pool status output.
pub fn zpool_state(output: &str) -> (r: String)
    ensures
        r@ == zpool_state_spec(split_on(output@, '\n')),
{
    let lines = crate::text::split_str(output, '\n');
    let ghost lsv = split_on(output@, '\n');
    let n = lines.len();
    let mut i: usize = 0;
    proof {
        assert(lsv.skip(0) =~= lsv);
    }
    while i < n
        invariant
            n == lines@.len(),
            lines.deep_view() == lsv,
            lsv == split_on(output@, '\n'),
            0 <= i <= n,
            zpool_state_spec(lsv) == zpool_state_spec(lsv.skip(i as int)),
        decreases n - i,
    {
        let ghost tail = lsv.skip(i as int);
        proof {
            assert(tail[0] == lsv[i as int]);
            assert(lsv[i as int] == lines@[i as int]@);
            assert(tail.drop_first() =~= lsv.skip(i + 1));
        }
        let unindented = crate::text::trim_start_str(lines[i].as_str());
        if crate::text::str_starts_with(unindented.as_str(), "state:") {
            let parts = crate::text::split_str(lines[i].as_str(), ':');
            if parts.len() >= 2 {
                proof {
                    assert(parts.deep_view()[1] == parts@[1]@);
                }
                let r = crate::text::trim(parts[1].as_str());
                proof {
                    assert(zpool_state_spec(tail) == trim_spec(split_on(lines@[i as int]@, ':')[1]));
                }
                return r;
            } else {
                proof {
                    assert(zpool_state_spec(tail) =~= Seq::<char>::empty());
                }
                return String::new();
            }
        }
        i = i + 1;
    }
    proof {
        assert(lsv.skip(n as int) =~= Seq::<Seq<char>>::empty());
    }
    String::from_str("unknown")
}

/// The status label of a pool state: only an online pool counts as active.
pub open spec fn classify_pool_state_spec(state: Seq<char>) -> Seq<char> {
    if state == "ONLINE"@ {
        "active"@
    } else {
        "degraded"@
    }
}

/// Classifies a pool state as an active or degraded service.
pub fn classify_pool_state(state: &str) -> (r: String)
    ensures
        r@ == classify_pool_state_spec(state@),
{
    if crate::text::str_eq(state, "ONLINE") {
        String::from_str("active")
    } else {
        String::from_str("degraded")
    }
}

} // verus!
