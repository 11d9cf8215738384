//! Snapshot formatting: the fixed KB/MB/GB unit ladder for memory and
//! network usage, and the per-volume MB rendering for disks.
//!
//! Every scale step is integer division by 1024, truncating — a deliberate,
//! documented approximation.

use vstd::prelude::*;

verus! {

/// One entry of a memory snapshot, at one unit scale.
#[derive(Debug, Clone, PartialEq, Eq)]
pub struct MemoryUsage {
    pub total_memory: u64,
    pub used_memory: u64,
    pub free_memory: u64,
    pub digital_type: String,
}

/// One entry of a network snapshot, at one unit scale.
#[derive(Debug, Clone, PartialEq, Eq)]
pub struct NetworkUsage {
    pub total_received: u64,
    pub total_transmitted: u64,
    pub digital_type: String,
}

/// One mounted volume, as the operating system reports it: names as plain
/// text, sizes as raw byte counts.
#[derive(Debug, Clone, PartialEq, Eq)]
pub struct VolumeRaw {
    pub name: String,
    pub file_system: String,
    pub mount_point: String,
    pub total_bytes: u64,
    pub available_bytes: u64,
}

/// One mounted volume, rendered for a caller: sizes in MB.
#[derive(Debug, Clone, PartialEq, Eq)]
pub struct DiskUsage {
    pub name: String,
    pub file_system: String,
    pub mount_point: String,
    pub total_space: u64,
    pub available_space: u64,
}

/// A memory snapshot rendered from totals of `total_kb`/`used_kb` KB:
/// exactly three entries in the order KB, MB, GB, where each scale's total
/// and used amounts step down the unit ladder by division by 1024, and
/// `free == total - used` holds at every scale.
pub open spec fn memory_rendered(total_kb: u64, used_kb: u64, out: Seq<MemoryUsage>) -> bool {
    &&& used_kb <= total_kb
    &&& out.len() == 3
    &&& out[0].total_memory == total_kb
    &&& out[0].used_memory == used_kb
    &&& out[1].total_memory == out[0].total_memory / 1024
    &&& out[1].used_memory == out[0].used_memory / 1024
    &&& out[2].total_memory == out[1].total_memory / 1024
    &&& out[2].used_memory == out[1].used_memory / 1024
    &&& forall|i: int|
        0 <= i < 3 ==> (#[trigger] out[i].free_memory) == out[i].total_memory
            - out[i].used_memory
    &&& out[0].digital_type@ == "KB"@
    &&& out[1].digital_type@ == "MB"@
    &&& out[2].digital_type@ == "GB"@
}

/// The unit-ladder consistency of a memory snapshot, stated over the entries
/// alone: three scales in the order KB, MB, GB; total and used step down by
/// division by 1024 from scale to scale; and `free == total - used` holds at
/// every scale.
pub open spec fn memory_ladder_consistent(out: Seq<MemoryUsage>) -> bool {
    &&& out.len() == 3
    &&& out[1].total_memory == out[0].total_memory / 1024
    &&& out[1].used_memory == out[0].used_memory / 1024
    &&& out[2].total_memory == out[1].total_memory / 1024
    &&& out[2].used_memory == out[1].used_memory / 1024
    &&& forall|i: int|
        0 <= i < 3 ==> (#[trigger] out[i].free_memory) == out[i].total_memory
            - out[i].used_memory
    &&& out[0].digital_type@ == "KB"@
    &&& out[1].digital_type@ == "MB"@
    &&& out[2].digital_type@ == "GB"@
}

/// Law: a rendered memory snapshot is unit-ladder consistent, whatever
/// amounts were sampled.
pub proof fn lemma_memory_rendered_ladder(total_kb: u64, used_kb: u64, out: Seq<MemoryUsage>)
    requires
        memory_rendered(total_kb, used_kb, out),
    ensures
        memory_ladder_consistent(out),
{
}

/// Render a memory snapshot on the unit ladder.
///
/// The KB entry carries the sampled amounts; the MB and GB entries derive
/// total and used by successive division by 1024; free is the difference of
/// total and used at each scale.
pub fn memory_report(total_kb: u64, used_kb: u64) -> (r: Vec<MemoryUsage>)
    requires
        used_kb <= total_kb,
    ensures
        memory_rendered(total_kb, used_kb, r@),
{
    let total_mb = total_kb / 1024;
    let used_mb = used_kb / 1024;
    let total_gb = total_mb / 1024;
    let used_gb = used_mb / 1024;
    proof {
        lemma_div_by_1024_ordered(used_kb, total_kb);
        lemma_div_by_1024_ordered(used_mb, total_mb);
    }
    let mut r: Vec<MemoryUsage> = Vec::new();
    r.push(
        MemoryUsage {
            total_memory: total_kb,
            used_memory: used_kb,
            free_memory: total_kb - used_kb,
            digital_type: "KB".to_owned(),
        },
    );
    r.push(
        MemoryUsage {
            total_memory: total_mb,
            used_memory: used_mb,
            free_memory: total_mb - used_mb,
            digital_type: "MB".to_owned(),
        },
    );
    r.push(
        MemoryUsage {
            total_memory: total_gb,
            used_memory: used_gb,
            free_memory: total_gb - used_gb,
            digital_type: "GB".to_owned(),
        },
    );
    r
}

/// Division by 1024 keeps order: scaling a smaller amount down never
/// overtakes a larger one, so the free amount stays well defined at every
/// scale.
proof fn lemma_div_by_1024_ordered(x: u64, y: u64)
    requires
        x <= y,
    ensures
        x / 1024 <= y / 1024,
{
    assert(x as int / 1024 <= y as int / 1024) by (nonlinear_arith)
        requires
            x <= y,
    ;
}

/// The bytes received across a sequence of per-interface counters.
pub open spec fn sum_received(s: Seq<(u64, u64)>) -> int
    decreases s.len(),
{
    if s.len() == 0 {
        0
    } else {
        sum_received(s.drop_last()) + s.last().0
    }
}

/// The bytes transmitted across a sequence of per-interface counters.
pub open spec fn sum_transmitted(s: Seq<(u64, u64)>) -> int
    decreases s.len(),
{
    if s.len() == 0 {
        0
    } else {
        sum_transmitted(s.drop_last()) + s.last().1
    }
}

/// A total clipped into the machine word: the exact sum where it fits,
/// saturation at the largest representable value where it does not.
pub open spec fn clamp_u64(x: int) -> u64 {
    if x >= u64::MAX {
        u64::MAX
    } else if x <= 0 {
        0
    } else {
        x as u64
    }
}

proof fn lemma_sums_nonneg(s: Seq<(u64, u64)>)
    ensures
        sum_received(s) >= 0,
        sum_transmitted(s) >= 0,
    decreases s.len(),
{
    if s.len() > 0 {
        lemma_sums_nonneg(s.drop_last());
    }
}

/// A network snapshot rendered from byte totals of `rx`/`tx`: exactly three
/// entries in the order KB, MB, GB, each stepping down the unit ladder by
/// division by 1024 from the saturated byte totals.
pub open spec fn network_rendered(rx: int, tx: int, out: Seq<NetworkUsage>) -> bool {
    &&& out.len() == 3
    &&& out[0].total_received == clamp_u64(rx) / 1024
    &&& out[0].total_transmitted == clamp_u64(tx) / 1024
    &&& out[1].total_received == out[0].total_received / 1024
    &&& out[1].total_transmitted == out[0].total_transmitted / 1024
    &&& out[2].total_received == out[1].total_received / 1024
    &&& out[2].total_transmitted == out[1].total_transmitted / 1024
    &&& out[0].digital_type@ == "KB"@
    &&& out[1].digital_type@ == "MB"@
    &&& out[2].digital_type@ == "GB"@
}

/// The unit-ladder consistency of a network snapshot, stated over the
/// entries alone: three scales in the order KB, MB, GB, with received and
/// transmitted totals stepping down by division by 1024 from scale to scale.
pub open spec fn network_ladder_consistent(out: Seq<NetworkUsage>) -> bool {
    &&& out.len() == 3
    &&& out[1].total_received == out[0].total_received / 1024
    &&& out[1].total_transmitted == out[0].total_transmitted / 1024
    &&& out[2].total_received == out[1].total_received / 1024
    &&& out[2].total_transmitted == out[1].total_transmitted / 1024
    &&& out[0].digital_type@ == "KB"@
    &&& out[1].digital_type@ == "MB"@
    &&& out[2].digital_type@ == "GB"@
}

/// Law: a rendered network snapshot is unit-ladder consistent, whatever the
/// interface counters held.
pub proof fn lemma_network_rendered_ladder(rx: int, tx: int, out: Seq<NetworkUsage>)
    requires
        network_rendered(rx, tx, out),
    ensures
        network_ladder_consistent(out),
{
}

/// Render a network snapshot on the unit ladder.
///
/// Sums the per-interface received and transmitted byte counters (saturating
/// at the largest machine word, which live counters never reach), then emits
/// the KB, MB and GB entries by successive division by 1024.
pub fn network_report(interfaces: &Vec<(u64, u64)>) -> (r: Vec<NetworkUsage>)
    ensures
        network_rendered(sum_received(interfaces@), sum_transmitted(interfaces@), r@),
{
    let mut rx: u64 = 0;
    let mut tx: u64 = 0;
    let mut i: usize = 0;
    while i < interfaces.len()
        invariant
            i <= interfaces@.len(),
            rx == clamp_u64(sum_received(interfaces@.take(i as int))),
            tx == clamp_u64(sum_transmitted(interfaces@.take(i as int))),
        decreases interfaces@.len() - i,
    {
        let (add_rx, add_tx) = interfaces[i];
        proof {
            let taken = interfaces@.take(i as int + 1);
            assert(taken.drop_last() =~= interfaces@.take(i as int));
            assert(sum_received(taken) == sum_received(taken.drop_last()) + taken.last().0);
            assert(sum_transmitted(taken) == sum_transmitted(taken.drop_last()) + taken.last().1);
            lemma_sums_nonneg(interfaces@.take(i as int));
        }
        rx = if rx > u64::MAX - add_rx {
            u64::MAX
        } else {
            rx + add_rx
        };
        tx = if tx > u64::MAX - add_tx {
            u64::MAX
        } else {
            tx + add_tx
        };
        i = i + 1;
    }
    proof {
        assert(interfaces@.take(interfaces@.len() as int) =~= interfaces@);
    }
    let rx_kb = rx / 1024;
    let tx_kb = tx / 1024;
    let mut r: Vec<NetworkUsage> = Vec::new();
    r.push(
        NetworkUsage {
            total_received: rx_kb,
            total_transmitted: tx_kb,
            digital_type: "KB".to_owned(),
        },
    );
    r.push(
        NetworkUsage {
            total_received: rx_kb / 1024,
            total_transmitted: tx_kb / 1024,
            digital_type: "MB".to_owned(),
        },
    );
    r.push(
        NetworkUsage {
            total_received: rx_kb / 1024 / 1024,
            total_transmitted: tx_kb / 1024 / 1024,
            digital_type: "GB".to_owned(),
        },
    );
    r
}

/// A disk listing rendered for a caller: one entry per reported volume, in
/// the reported order, names carried over verbatim and both sizes converted
/// from bytes to MB by integer division.
pub open spec fn disks_rendered(raw: Seq<VolumeRaw>, out: Seq<DiskUsage>) -> bool {
    &&& out.len() == raw.len()
    &&& forall|i: int|
        0 <= i < raw.len() ==> {
            &&& (#[trigger] out[i]).name@ == raw[i].name@
            &&& out[i].file_system@ == raw[i].file_system@
            &&& out[i].mount_point@ == raw[i].mount_point@
            &&& out[i].total_space == raw[i].total_bytes / 1024 / 1024
            &&& out[i].available_space == raw[i].available_bytes / 1024 / 1024
        }
}

/// Render a disk listing, converting each volume's byte counts to MB.
pub fn disk_report(volumes: Vec<VolumeRaw>) -> (r: Vec<DiskUsage>)
    ensures
        disks_rendered(volumes@, r@),
{
    let ghost raw = volumes@;
    let mut r: Vec<DiskUsage> = Vec::new();
    let rest = volumes;
    while r.len() < rest.len()
        invariant
            rest@ == raw,
            r@.len() <= raw.len(),
            forall|i: int|
                0 <= i < r@.len() ==> {
                    &&& (#[trigger] r@[i]).name@ == raw[i].name@
                    &&& r@[i].file_system@ == raw[i].file_system@
                    &&& r@[i].mount_point@ == raw[i].mount_point@
                    &&& r@[i].total_space == raw[i].total_bytes / 1024 / 1024
                    &&& r@[i].available_space == raw[i].available_bytes / 1024 / 1024
                },
        decreases raw.len() - r@.len(),
    {
        let v = &rest[r.len()];
        r.push(
            DiskUsage {
                name: v.name.clone(),
                file_system: v.file_system.clone(),
                mount_point: v.mount_point.clone(),
                total_space: v.total_bytes / 1024 / 1024,
                available_space: v.available_bytes / 1024 / 1024,
            },
        );
    }
    r
}

} // verus!
