//! Parsers for the host-introspection command output: the host's own
//! address, attached disks, memory usage, storage-cache counters and pool
//! statistics.  The commands themselves run outside the library; these
//! functions turn their text into values.
use crate::text::{
    all_digits, contains_seq, digits_val, split_on, split_ws_spec, starts_with, sub_index,
};
use vstd::prelude::*;

verus! {

/// The address a routing-table line yields: the first token after its `src`
/// marker, accepted only from the private ranges this system serves.
pub open spec fn server_ip_from_line(line: Seq<char>) -> Option<Seq<char>> {
    if contains_seq(line, "src"@) {
        let rest = line.skip(sub_index(line, "src"@) + 3);
        let toks = split_ws_spec(rest);
        let ip = if toks.len() > 0 {
            toks[0]
        } else {
            Seq::<char>::empty()
        };
        if starts_with(ip, "192.168."@) || starts_with(ip, "10."@) {
            Some(ip)
        } else {
            None
        }
    } else {
        None
    }
}

/// The host address found in routing-table output: the first line that
/// yields one; a fallback address when none does.
pub open spec fn server_ip_spec(lines: Seq<Seq<char>>) -> Seq<char>
    decreases lines.len(),
{
    if lines.len() == 0 {
        "192.168.1.200"@
    } else {
        match server_ip_from_line(lines[0]) {
            Some(ip) => ip,
            None => server_ip_spec(lines.drop_first()),
        }
    }
}

/// Extracts the host's own address from routing-table lookup output.
pub fn get_server_ip(output: &str) -> (r: String)
    ensures
        r@ == server_ip_spec(split_on(output@, '\n')),
{
    let lines = crate::text::split_str(output, '\n');
    let ghost lsv = split_on(output@, '\n');
    let n = lines.len();
    let mut i: usize = 0;
    proof {
        assert(lsv.skip(0) =~= lsv);
    }
    while i < n
        invariant
            n == lines@.len(),
            lines.deep_view() == lsv,
            lsv == split_on(output@, '\n'),
            0 <= i <= n,
            server_ip_spec(lsv) == server_ip_spec(lsv.skip(i as int)),
        decreases n - i,
    {
        let ghost tail = lsv.skip(i as int);
        proof {
            assert(tail[0] == lsv[i as int]);
            assert(lsv[i as int] == lines@[i as int]@);
            assert(tail.drop_first() =~= lsv.skip(i + 1));
        }
        let line = &lines[i];
        if let Some(idx) = crate::text::find_sub(line.as_str(), "src") {
            let cs = crate::text::str_chars(line.as_str());
            let cl = cs.len();
            proof {
                reveal_strlit("src");
                crate::text::lemma_sub_index(line@, "src"@);
                assert(idx + 3 <= cl);
            }
            let rest = crate::text::string_from_chars(
                &crate::text::subrange_vec(&cs, idx + 3, cl),
            );
            proof {
                crate::text::lemma_sub_index(line@, "src"@);
                assert(rest@ =~= line@.skip(sub_index(line@, "src"@) + 3));
            }
            let toks = crate::text::split_whitespace(rest.as_str());
            let ip = if toks.len() > 0 {
                toks[0].clone()
            } else {
                String::new()
            };
            proof {
                if toks@.len() > 0 {
                    assert(toks.deep_view()[0] == toks@[0 as int]@);
                }
            }
            let in_range = crate::text::str_starts_with(ip.as_str(), "192.168.")
                || crate::text::str_starts_with(ip.as_str(), "10.");
            if in_range {
                proof {
                    assert(server_ip_from_line(line@) == Some(ip@));
                    assert(server_ip_spec(lsv) == ip@);
                }
                return ip;
            }
        }
        i = i + 1;
    }
    proof {
        assert(lsv.skip(n as int) =~= Seq::<Seq<char>>::empty());
    }
    String::from_str("192.168.1.200")
}

/// One attached disk.
pub struct Disk {
    pub name: String,
    pub size: String,
}

/// Mathematical value of a [`Disk`].
pub struct DiskV {
    pub name: Seq<char>,
    pub size: Seq<char>,
}

impl View for Disk {
    type V = DiskV;

    open spec fn view(&self) -> DiskV {
        DiskV { name: self.name@, size: self.size@ }
    }
}

impl DeepView for Disk {
    type V = DiskV;

    open spec fn deep_view(&self) -> DiskV {
        self.view()
    }
}

/// The disks named in block-device listing lines: three whitespace-separated
/// fields, the last being the literal device type `disk`.
pub open spec fn disks_of_lines(lines: Seq<Seq<char>>) -> Seq<DiskV>
    decreases lines.len(),
{
    if lines.len() == 0 {
        Seq::empty()
    } else {
        let parts = split_ws_spec(lines[0]);
        let rest = disks_of_lines(lines.drop_first());
        if parts.len() == 3 && parts[2] == "disk"@ {
            seq![DiskV { name: parts[0], size: parts[1] }] + rest
        } else {
            rest
        }
    }
}

/// Parses block-device listing output into the attached whole disks.
pub fn list_disks(output: &str) -> (r: Vec<Disk>)
    ensures
        r.deep_view() == disks_of_lines(split_on(output@, '\n')),
{
    let lines = crate::text::split_str(output, '\n');
    let ghost lsv = split_on(output@, '\n');
    let n = lines.len();
    let mut out: Vec<Disk> = Vec::new();
    let mut i: usize = 0;
    proof {
        assert(lsv.skip(0) =~= lsv);
        assert(out.deep_view() =~= Seq::<DiskV>::empty());
        assert(Seq::<DiskV>::empty() + disks_of_lines(lsv) =~= disks_of_lines(lsv));
    }
    while i < n
        invariant
            n == lines@.len(),
            lines.deep_view() == lsv,
            0 <= i <= n,
            disks_of_lines(lsv) == out.deep_view() + disks_of_lines(lsv.skip(i as int)),
        decreases n - i,
    {
        let ghost tail = lsv.skip(i as int);
        proof {
            assert(tail[0] == lsv[i as int]);
            assert(lsv[i as int] == lines@[i as int]@);
            assert(tail.drop_first() =~= lsv.skip(i + 1));
        }
        let parts = crate::text::split_whitespace(lines[i].as_str());
        if parts.len() == 3 && crate::text::str_eq(parts[2].as_str(), "disk") {
            let ghost before = out.deep_view();
            let d = Disk { name: parts[0].clone(), size: parts[1].clone() };
            proof {
                reveal_strlit("disk");
                assert(parts.deep_view()[2] == parts@[2 as int]@);
                assert(parts.deep_view()[0] == parts@[0 as int]@);
                assert(parts.deep_view()[1] == parts@[1 as int]@);
                assert(d@ == disks_of_lines(tail)[0]);
            }
            out.push(d);
            proof {
                assert(out.deep_view() =~= before + seq![d@]);
                assert(before + (seq![d@] + disks_of_lines(tail.drop_first())) =~= (before + seq![
                    d@,
                ]) + disks_of_lines(tail.drop_first()));
            }
        } else {
            proof {
                reveal_strlit("disk");
                if parts@.len() == 3 {
                    assert(parts.deep_view()[2] == parts@[2 as int]@);
                }
                assert(parts.deep_view().len() == parts@.len());
            }
        }
        i = i + 1;
    }
    proof {
        assert(lsv.skip(n as int) =~= Seq::<Seq<char>>::empty());
        assert(out.deep_view() + disks_of_lines(Seq::<Seq<char>>::empty()) =~= out.deep_view());
    }
    out
}

/// Memory figures of the host, as reported.
pub struct MemoryStats {
    pub total: String,
    pub used: String,
    pub free: String,
    pub shared: String,
    pub buff_cache: String,
    pub available: String,
}

/// Swap figures of the host, as reported.
pub struct SwapStats {
    pub total: String,
    pub used: String,
    pub free: String,
}

/// Memory usage of the host.
pub struct RamUsage {
    pub memory: MemoryStats,
}

/// Parses memory-usage output: the second line holds the memory figures.
pub fn get_ram_usage(output: &str) -> (r: Result<RamUsage, String>)
    ensures
        ({
            let lines = split_on(output@, '\n');
            match r {
                Err(e) => (lines.len() < 3 && e@ == "Unexpected output from free command"@) || (
                lines.len() >= 3 && split_ws_spec(lines[1]).len() < 7 && e@
                    == "Invalid memory information format"@),
                Ok(u) => {
                    let parts = split_ws_spec(lines[1]);
                    &&& lines.len() >= 3
                    &&& parts.len() >= 7
                    &&& u.memory.total@ == parts[1]
                    &&& u.memory.used@ == parts[2]
                    &&& u.memory.free@ == parts[3]
                    &&& u.memory.shared@ == parts[4]
                    &&& u.memory.buff_cache@ == parts[5]
                    &&& u.memory.available@ == parts[6]
                },
            }
        }),
{
    let lines = crate::text::split_str(output, '\n');
    if lines.len() < 3 {
        return Err(String::from_str("Unexpected output from free command"));
    }
    proof {
        assert(lines.deep_view()[1] == lines@[1]@);
    }
    let parts = crate::text::split_whitespace(lines[1].as_str());
    if parts.len() < 7 {
        return Err(String::from_str("Invalid memory information format"));
    }
    proof {
        assert(parts.deep_view()[1] == parts@[1]@);
        assert(parts.deep_view()[2] == parts@[2]@);
        assert(parts.deep_view()[3] == parts@[3]@);
        assert(parts.deep_view()[4] == parts@[4]@);
        assert(parts.deep_view()[5] == parts@[5]@);
        assert(parts.deep_view()[6] == parts@[6]@);
    }
    Ok(
        RamUsage {
            memory: MemoryStats {
                total: parts[1].clone(),
                used: parts[2].clone(),
                free: parts[3].clone(),
                shared: parts[4].clone(),
                buff_cache: parts[5].clone(),
                available: parts[6].clone(),
            },
        },
    )
}

/// The value recorded for a counter in storage-cache statistics: the third
/// token of the last line that begins with the key; zero when absent or
/// unparsable.
pub open spec fn arc_counter(lines: Seq<Seq<char>>, key: Seq<char>) -> int
    decreases lines.len(),
{
    if lines.len() == 0 {
        0
    } else if starts_with(lines.last(), key) {
        let toks = split_ws_spec(lines.last());
        if toks.len() >= 3 && toks[2].len() > 0 && all_digits(toks[2]) && digits_val(toks[2])
            <= u64::MAX {
            digits_val(toks[2])
        } else {
            0
        }
    } else {
        arc_counter(lines.drop_last(), key)
    }
}

fn arc_scan(lines: &Vec<String>, key: &str) -> (r: u64)
    ensures
        r == arc_counter(lines.deep_view(), key@),
{
    let n = lines.len();
    let mut acc: u64 = 0;
    let mut i: usize = 0;
    proof {
        assert(lines.deep_view().take(0) =~= Seq::<Seq<char>>::empty());
    }
    while i < n
        invariant
            n == lines@.len(),
            0 <= i <= n,
            acc == arc_counter(lines.deep_view().take(i as int), key@),
        decreases n - i,
    {
        proof {
            assert(lines.deep_view()[i as int] == lines@[i as int]@);
            assert(lines.deep_view().take(i + 1).drop_last() =~= lines.deep_view().take(i as int));
            assert(lines.deep_view().take(i + 1).last() == lines.deep_view()[i as int]);
        }
        if crate::text::str_starts_with(lines[i].as_str(), key) {
            let toks = crate::text::split_whitespace(lines[i].as_str());
            if toks.len() >= 3 {
                proof {
                    assert(toks.deep_view()[2] == toks@[2]@);
                }
                match crate::text::parse_u64(toks[2].as_str()) {
                    Some(v) => {
                        acc = v;
                    },
                    None => {
                        acc = 0;
                    },
                }
            } else {
                acc = 0;
            }
        }
        i = i + 1;
    }
    proof {
        assert(lines.deep_view().take(n as int) =~= lines.deep_view());
    }
    acc
}

/// Parses storage-cache statistics into the hit, miss and size counters.
pub fn get_zfs_arcstat(content: &str) -> (r: (u64, u64, u64))
    ensures
        ({
            let lines = split_on(content@, '\n');
            &&& r.0 == arc_counter(lines, "hits "@)
            &&& r.1 == arc_counter(lines, "misses "@)
            &&& r.2 == arc_counter(lines, "size "@)
        }),
{
    let lines = crate::text::split_str(content, '\n');
    let hits = arc_scan(&lines, "hits ");
    let misses = arc_scan(&lines, "misses ");
    let size = arc_scan(&lines, "size ");
    (hits, misses, size)
}

/// Pool-level statistics.
pub struct ZpoolStats {
    pub name: String,
    pub size: String,
    pub used: String,
    pub available: String,
}

/// Parses the first line of pool listing output into pool statistics.
pub fn get_zpool_stats(output: &str) -> (r: Result<ZpoolStats, String>)
    ensures
        ({
            let lines = split_on(output@, '\n');
            let parts = split_ws_spec(lines[0]);
            match r {
                Err(e) => (output@.len() == 0 && e@ == "No zpool found"@) || (output@.len() > 0
                    && parts.len() < 4 && e@ == "Unexpected zpool output"@),
                Ok(st) => {
                    &&& output@.len() > 0
                    &&& parts.len() >= 4
                    &&& st.name@ == parts[0]
                    &&& st.size@ == parts[1]
                    &&& st.used@ == parts[2]
                    &&& st.available@ == parts[3]
                },
            }
        }),
{
    if output.is_empty() {
        return Err(String::from_str("No zpool found"));
    }
    let lines = crate::text::split_str(output, '\n');
    proof {
        assert(split_on(output@, '\n').len() > 0);
        assert(lines.deep_view()[0] == lines@[0]@);
    }
    let parts = crate::text::split_whitespace(lines[0].as_str());
    if parts.len() < 4 {
        return Err(String::from_str("Unexpected zpool output"));
    }
    proof {
        assert(parts.deep_view()[0] == parts@[0]@);
        assert(parts.deep_view()[1] == parts@[1]@);
        assert(parts.deep_view()[2] == parts@[2]@);
        assert(parts.deep_view()[3] == parts@[3]@);
    }
    Ok(
        ZpoolStats {
            name: parts[0].clone(),
            size: parts[1].clone(),
            used: parts[2].clone(),
            available: parts[3].clone(),
        },
    )
}

} // verus!
