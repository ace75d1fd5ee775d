//! Host telemetry: raw counters are sampled from the host through the
//! sysinfo crate, committed as a snapshot of plain values, and every
//! derived figure (usage percentages, the per-core mean) is computed from
//! that snapshot by verified code.
//!
//! Usage figures are carried as integer hundredths of a percent, so the
//! ratio formulas are exact and no value is ever not-a-number. A host that
//! reports more used than total bytes yields a figure over 100%, which is
//! passed through rather than masked.
use vstd::arithmetic::div_mod::{lemma_div_by_multiple, lemma_div_is_ordered};
use vstd::prelude::*;

verus! {

#[verifier::external_type_specification]
#[verifier::external_body]
pub struct ExSystem(sysinfo::System);

#[verifier::external_type_specification]
#[verifier::external_body]
pub struct ExDisks(sysinfo::Disks);

#[verifier::external_type_specification]
#[verifier::external_body]
pub struct ExNetworks(sysinfo::Networks);

// No signature here names Disk or NetworkData, but Verus reads the Deref
// impls of Disks and Networks, whose targets they are, so the two types
// must be declared as well.
#[verifier::external_type_specification]
#[verifier::external_body]
pub struct ExDisk(sysinfo::Disk);

#[verifier::external_type_specification]
#[verifier::external_body]
pub struct ExNetworkData(sysinfo::NetworkData);

/// One logical core's usage, in hundredths of a percent.
#[derive(Clone, Copy, Debug, PartialEq, Eq, Structural)]
pub struct CoreInfo {
    pub id: usize,
    pub usage_centipercent: u64,
}

/// Overall and per-core processor usage.
#[derive(Clone, Debug, PartialEq)]
pub struct CpuInfo {
    pub usage_centipercent: u64,
    pub cores: Vec<CoreInfo>,
}

/// Memory counters in bytes, with the derived usage figure.
#[derive(Clone, Copy, Debug, PartialEq, Eq, Structural)]
pub struct MemoryInfo {
    pub total_bytes: u64,
    pub used_bytes: u64,
    pub available_bytes: u64,
    pub usage_centipercent: u64,
}

/// One mounted disk, with used space derived as total minus available,
/// floored at zero.
#[derive(Clone, Debug, PartialEq)]
pub struct DiskInfo {
    pub name: String,
    pub mount_point: String,
    pub total_bytes: u64,
    pub used_bytes: u64,
    pub available_bytes: u64,
    pub usage_centipercent: u64,
}

/// One network interface's cumulative counters as the host reports them,
/// not deltas.
#[derive(Clone, Debug, PartialEq)]
pub struct NetworkInfo {
    pub interface: String,
    pub received_bytes: u64,
    pub transmitted_bytes: u64,
}

/// One aggregate snapshot, produced wholesale and never mutated; a refresh
/// supersedes it.
#[derive(Clone, Debug, PartialEq)]
pub struct SystemInfo {
    pub cpu: CpuInfo,
    pub memory: MemoryInfo,
    pub disks: Vec<DiskInfo>,
    pub network: Vec<NetworkInfo>,
}

/// Raw memory counters as sampled, before any derivation.
#[derive(Clone, Copy, Debug, PartialEq, Eq, Structural)]
pub struct MemorySample {
    pub total_bytes: u64,
    pub used_bytes: u64,
    pub available_bytes: u64,
}

/// Raw counters of one disk as sampled.
#[derive(Clone, Debug, PartialEq)]
pub struct DiskSample {
    pub name: String,
    pub mount_point: String,
    pub total_bytes: u64,
    pub available_bytes: u64,
}

/// Everything one refresh commits: per-core whole percents and the raw
/// counters of every facet. Derived figures are recomputed from this at
/// every read.
pub struct RawSnapshot {
    pub core_percents: Vec<u32>,
    pub memory: MemorySample,
    pub disks: Vec<DiskSample>,
    pub networks: Vec<NetworkInfo>,
}

/// The usage ratio in hundredths of a percent: used/total x 10000, zero
/// when the total is zero, saturating at the largest u64 on pathological
/// counters.
pub open spec fn centi_percent_of(used: int, total: int) -> int {
    if total == 0 {
        0
    } else if used * 10000 / total > u64::MAX as int {
        u64::MAX as int
    } else {
        used * 10000 / total
    }
}

/// The sum of the given whole percents, scaled to hundredths.
pub open spec fn sum_centi(ps: Seq<u32>) -> int
    decreases ps.len(),
{
    if ps.len() == 0 {
        0
    } else {
        sum_centi(ps.drop_last()) + ps.last() * 100
    }
}

/// The arithmetic mean of the given whole percents in hundredths, zero for
/// an empty core set.
pub open spec fn mean_centi(ps: Seq<u32>) -> int {
    if ps.len() == 0 {
        0
    } else {
        sum_centi(ps) / ps.len() as int
    }
}

/// The per-core records derived from sampled whole percents: ids count up
/// from zero in sample order.
pub open spec fn cores_of(ps: Seq<u32>) -> Seq<CoreInfo> {
    Seq::new(
        ps.len(),
        |i: int| CoreInfo { id: i as usize, usage_centipercent: (ps[i] * 100) as u64 },
    )
}

/// Used space derived from total and available, floored at zero.
pub open spec fn used_of(total: u64, available: u64) -> u64 {
    if available > total {
        0u64
    } else {
        (total - available) as u64
    }
}

/// The memory record derived from a raw sample.
pub open spec fn mem_info_of(s: MemorySample) -> MemoryInfo {
    MemoryInfo {
        total_bytes: s.total_bytes,
        used_bytes: s.used_bytes,
        available_bytes: s.available_bytes,
        usage_centipercent: centi_percent_of(s.used_bytes as int, s.total_bytes as int) as u64,
    }
}

/// The disk record derived from a raw sample.
pub open spec fn disk_info_of(s: DiskSample) -> DiskInfo {
    DiskInfo {
        name: s.name,
        mount_point: s.mount_point,
        total_bytes: s.total_bytes,
        used_bytes: used_of(s.total_bytes, s.available_bytes),
        available_bytes: s.available_bytes,
        usage_centipercent: centi_percent_of(
            used_of(s.total_bytes, s.available_bytes) as int,
            s.total_bytes as int,
        ) as u64,
    }
}

/// The mathematical content of a snapshot: what every consumer, including
/// the serialized wire form, is a function of.
#[verifier::ext_equal]
pub struct SystemInfoV {
    pub cores: Seq<CoreInfo>,
    pub usage_centipercent: int,
    pub memory: MemoryInfo,
    pub disks: Seq<DiskInfo>,
    pub network: Seq<NetworkInfo>,
}

impl View for SystemInfo {
    type V = SystemInfoV;

    open spec fn view(&self) -> SystemInfoV {
        SystemInfoV {
            cores: self.cpu.cores@,
            usage_centipercent: self.cpu.usage_centipercent as int,
            memory: self.memory,
            disks: self.disks@,
            network: self.network@,
        }
    }
}

/// The snapshot every read of the given raw counters describes.
pub open spec fn derived_view(raw: RawSnapshot) -> SystemInfoV {
    SystemInfoV {
        cores: cores_of(raw.core_percents@),
        usage_centipercent: mean_centi(raw.core_percents@),
        memory: mem_info_of(raw.memory),
        disks: raw.disks@.map_values(|d: DiskSample| disk_info_of(d)),
        network: raw.networks@,
    }
}

/// The sum of the per-core figures as they stand in the derived records.
pub open spec fn sum_cores(cores: Seq<CoreInfo>) -> int
    decreases cores.len(),
{
    if cores.len() == 0 {
        0
    } else {
        sum_cores(cores.drop_last()) + cores.last().usage_centipercent
    }
}

/// The overall figure equals the mean of the per-core figures, zero for an
/// empty core set.
pub open spec fn cpu_consistent(cores: Seq<CoreInfo>, overall: int) -> bool {
    overall == if cores.len() == 0 {
        0int
    } else {
        sum_cores(cores) / cores.len() as int
    }
}

/// The usage figure is exactly the ratio formula over the raw counters.
pub open spec fn ratio_consistent(used: int, total: int, usage: int) -> bool {
    usage == centi_percent_of(used, total)
}

/// Every derived figure of the snapshot agrees with its raw counters, and
/// core ids count up from zero in sample order.
pub open spec fn info_consistent(v: SystemInfoV) -> bool {
    &&& forall|i: int| 0 <= i < v.cores.len() ==> v.cores[i].id == i
    &&& cpu_consistent(v.cores, v.usage_centipercent)
    &&& ratio_consistent(
        v.memory.used_bytes as int,
        v.memory.total_bytes as int,
        v.memory.usage_centipercent as int,
    )
    &&& forall|i: int|
        0 <= i < v.disks.len() ==> ratio_consistent(
            v.disks[i].used_bytes as int,
            v.disks[i].total_bytes as int,
            v.disks[i].usage_centipercent as int,
        )
    &&& forall|i: int|
        0 <= i < v.disks.len() ==> v.disks[i].used_bytes == used_of(
            v.disks[i].total_bytes,
            v.disks[i].available_bytes,
        )
}

proof fn lemma_sum_cores_of(ps: Seq<u32>)
    ensures
        sum_cores(cores_of(ps)) == sum_centi(ps),
    decreases ps.len(),
{
    if ps.len() > 0 {
        lemma_sum_cores_of(ps.drop_last());
        assert(cores_of(ps).drop_last() =~= cores_of(ps.drop_last()));
    }
}

/// Law of the derived snapshot: core ids equal their index, the overall
/// processor figure is the mean of the per-core figures (zero for an empty
/// core set), and every memory and disk usage figure is exactly the ratio
/// formula over its counters, with disk used space derived as total minus
/// available floored at zero.
pub proof fn lemma_derived_view_consistent(raw: RawSnapshot)
    ensures
        info_consistent(derived_view(raw)),
{
    lemma_sum_cores_of(raw.core_percents@);
    let v = derived_view(raw);
    assert(v.cores.len() == raw.core_percents@.len());
    vstd::std_specs::vec::axiom_spec_len(&raw.core_percents);
    assert forall|i: int| 0 <= i < v.cores.len() implies v.cores[i].id == i by {
        assert(v.cores[i] == cores_of(raw.core_percents@)[i]);
    }
    assert forall|i: int| 0 <= i < v.disks.len() implies ratio_consistent(
        v.disks[i].used_bytes as int,
        v.disks[i].total_bytes as int,
        v.disks[i].usage_centipercent as int,
    ) && v.disks[i].used_bytes == used_of(
        v.disks[i].total_bytes,
        v.disks[i].available_bytes,
    ) by {
        assert(v.disks[i] == disk_info_of(raw.disks@[i]));
        assert(0 <= centi_percent_of(
            used_of(raw.disks@[i].total_bytes, raw.disks@[i].available_bytes) as int,
            raw.disks@[i].total_bytes as int,
        ) <= u64::MAX as int);
    }
}

/// Law of the ratio formula: for non-negative counters the figure is never
/// negative and always fits its field; carried in integers, it has no
/// not-a-number case for any counter pair.
pub proof fn lemma_ratio_in_range(used: int, total: int)
    requires
        0 <= used,
        0 <= total,
    ensures
        0 <= centi_percent_of(used, total) <= u64::MAX as int,
{
}

/// Computes the usage ratio in hundredths of a percent.
pub fn compute_centi_percent(used: u64, total: u64) -> (r: u64)
    ensures
        r as int == centi_percent_of(used as int, total as int),
{
    if total == 0 {
        0
    } else {
        let wide: u128 = (used as u128) * 10000 / (total as u128);
        if wide > (u64::MAX as u128) {
            u64::MAX
        } else {
            wide as u64
        }
    }
}

/// Derives the processor record from sampled whole percents.
pub fn cpu_info_from_percents(ps: &Vec<u32>) -> (r: CpuInfo)
    ensures
        r.cores@ == cores_of(ps@),
        r.usage_centipercent as int == mean_centi(ps@),
{
    let ghost bound: int = (u32::MAX as int) * 100;
    let mut cores: Vec<CoreInfo> = Vec::new();
    let mut sum: u128 = 0;
    let n = ps.len();
    let mut i: usize = 0;
    while i < n
        invariant
            n == ps@.len(),
            i <= n,
            cores@ =~= cores_of(ps@.take(i as int)),
            sum == sum_centi(ps@.take(i as int)),
            sum <= (i as int) * bound,
            bound == (u32::MAX as int) * 100,
        decreases n - i,
    {
        let p = ps[i];
        let centi: u64 = (p as u64) * 100;
        cores.push(CoreInfo { id: i, usage_centipercent: centi });
        sum = sum + (centi as u128);
        proof {
            assert(ps@.take(i + 1).drop_last() =~= ps@.take(i as int));
            assert(cores@ =~= cores_of(ps@.take(i + 1)));
        }
        i = i + 1;
    }
    proof {
        assert(ps@.take(n as int) =~= ps@);
    }
    let overall: u64 = if n == 0 {
        0
    } else {
        proof {
            lemma_div_is_ordered(sum as int, (n as int) * bound, n as int);
            lemma_div_by_multiple(bound, n as int);
            assert((n as int) * bound == bound * (n as int));
        }
        (sum / (n as u128)) as u64
    };
    CpuInfo { usage_centipercent: overall, cores }
}

/// Derives the memory record from a raw sample.
pub fn memory_info_from_sample(s: &MemorySample) -> (r: MemoryInfo)
    ensures
        r == mem_info_of(*s),
{
    let usage = compute_centi_percent(s.used_bytes, s.total_bytes);
    MemoryInfo {
        total_bytes: s.total_bytes,
        used_bytes: s.used_bytes,
        available_bytes: s.available_bytes,
        usage_centipercent: usage,
    }
}

/// Derives the disk record from a raw sample.
pub fn disk_info_from_sample(s: &DiskSample) -> (r: DiskInfo)
    ensures
        r == disk_info_of(*s),
{
    let used = if s.available_bytes > s.total_bytes {
        0
    } else {
        s.total_bytes - s.available_bytes
    };
    let usage = compute_centi_percent(used, s.total_bytes);
    DiskInfo {
        name: s.name.clone(),
        mount_point: s.mount_point.clone(),
        total_bytes: s.total_bytes,
        used_bytes: used,
        available_bytes: s.available_bytes,
        usage_centipercent: usage,
    }
}

/// Relies on sysinfo::System::new_all: a fresh handle with every facet
/// sampled once.
#[verifier::external_body]
fn system_new_all() -> sysinfo::System {
    sysinfo::System::new_all()
}

/// Relies on sysinfo::System::refresh_all: re-samples every facet of the
/// handle.
#[verifier::external_body]
fn system_refresh_all(sys: &mut sysinfo::System) {
    sys.refresh_all();
}

/// Relies on sysinfo::System::refresh_cpu_all: re-samples processor usage.
#[verifier::external_body]
fn system_refresh_cpu(sys: &mut sysinfo::System) {
    sys.refresh_cpu_all();
}

/// Relies on sysinfo::System::refresh_memory: re-samples memory counters.
#[verifier::external_body]
fn system_refresh_memory(sys: &mut sysinfo::System) {
    sys.refresh_memory();
}

/// Relies on sysinfo::System::total_memory: total memory in bytes as last
/// refreshed.
#[verifier::external_body]
fn system_total_memory(sys: &sysinfo::System) -> u64 {
    sys.total_memory()
}

/// Relies on sysinfo::System::used_memory: used memory in bytes as last
/// refreshed.
#[verifier::external_body]
fn system_used_memory(sys: &sysinfo::System) -> u64 {
    sys.used_memory()
}

/// Relies on sysinfo::System::available_memory: available memory in bytes
/// as last refreshed.
#[verifier::external_body]
fn system_available_memory(sys: &sysinfo::System) -> u64 {
    sys.available_memory()
}

/// Relies on sysinfo::System::cpus and sysinfo::Cpu::cpu_usage: one entry
/// per logical core in the host's order, truncated to whole percent.
#[verifier::external_body]
fn system_core_percents(sys: &sysinfo::System) -> Vec<u32> {
    sys.cpus().iter().map(|c| c.cpu_usage() as u32).collect()
}

/// Relies on sysinfo::Disks::new_with_refreshed_list: a handle holding the
/// currently known disks.
#[verifier::external_body]
fn disks_new() -> sysinfo::Disks {
    sysinfo::Disks::new_with_refreshed_list()
}

/// Relies on sysinfo::Disks::refresh: re-reads the disk list and its
/// counters, dropping disks that disappeared.
#[verifier::external_body]
fn disks_refresh(disks: &mut sysinfo::Disks) {
    disks.refresh(true);
}

/// Relies on sysinfo::Disks::list and the sysinfo::Disk accessors name,
/// mount_point, total_space and available_space: one raw sample per listed
/// disk, in list order, names converted lossily to text.
#[verifier::external_body]
fn disks_sample(disks: &sysinfo::Disks) -> Vec<DiskSample> {
    disks
        .list()
        .iter()
        .map(
            |d| DiskSample {
                name: d.name().to_string_lossy().to_string(),
                mount_point: d.mount_point().to_string_lossy().to_string(),
                total_bytes: d.total_space(),
                available_bytes: d.available_space(),
            },
        )
        .collect()
}

/// Relies on sysinfo::Networks::new_with_refreshed_list: a handle holding
/// the currently known interfaces.
#[verifier::external_body]
fn networks_new() -> sysinfo::Networks {
    sysinfo::Networks::new_with_refreshed_list()
}

/// Relies on sysinfo::Networks::refresh: re-reads interface counters,
/// dropping interfaces that disappeared.
#[verifier::external_body]
fn networks_refresh(networks: &mut sysinfo::Networks) {
    networks.refresh(true);
}

/// Relies on sysinfo::Networks::list and the sysinfo::NetworkData
/// accessors total_received and total_transmitted (the cumulative byte
/// totals, not the since-last-refresh deltas): one record per interface;
/// the map's iteration order is arbitrary, so nothing is stated of the
/// order.
#[verifier::external_body]
fn networks_sample(networks: &sysinfo::Networks) -> Vec<NetworkInfo> {
    networks
        .list()
        .iter()
        .map(
            |(name, data)| NetworkInfo {
                interface: name.clone(),
                received_bytes: data.total_received(),
                transmitted_bytes: data.total_transmitted(),
            },
        )
        .collect()
}

/// The refreshable telemetry cache: owns the host handles and the snapshot
/// the last refresh committed. Reads derive their figures from the
/// committed snapshot alone, so they never observe a half-written refresh
/// and never mutate anything.
pub struct SystemProvider {
    sys: sysinfo::System,
    disks: sysinfo::Disks,
    networks: sysinfo::Networks,
    raw: RawSnapshot,
}

impl View for SystemProvider {
    type V = SystemInfoV;

    closed spec fn view(&self) -> SystemInfoV {
        derived_view(self.raw)
    }
}

impl SystemProvider {
    fn sample(
        sys: &sysinfo::System,
        disks: &sysinfo::Disks,
        networks: &sysinfo::Networks,
    ) -> RawSnapshot {
        RawSnapshot {
            core_percents: system_core_percents(sys),
            memory: MemorySample {
                total_bytes: system_total_memory(sys),
                used_bytes: system_used_memory(sys),
                available_bytes: system_available_memory(sys),
            },
            disks: disks_sample(disks),
            networks: networks_sample(networks),
        }
    }

    /// Creates the provider and performs the initial full sample, so a
    /// read is answered before the first timed refresh.
    pub fn new() -> (r: SystemProvider)
        ensures
            info_consistent(r@),
    {
        let mut sys = system_new_all();
        system_refresh_all(&mut sys);
        let disks = disks_new();
        let networks = networks_new();
        let raw = Self::sample(&sys, &disks, &networks);
        proof {
            lemma_derived_view_consistent(raw);
        }
        SystemProvider { sys, disks, networks, raw }
    }

    /// Re-samples every facet from the host and commits the result as the
    /// new snapshot, superseding the old one. The caller holds the
    /// provider exclusively for the duration; a shared embedding that
    /// cannot get exclusive access should skip the cycle rather than
    /// block.
    pub fn refresh(&mut self)
        ensures
            info_consistent(final(self)@),
    {
        system_refresh_cpu(&mut self.sys);
        system_refresh_memory(&mut self.sys);
        disks_refresh(&mut self.disks);
        networks_refresh(&mut self.networks);
        self.raw = Self::sample(&self.sys, &self.disks, &self.networks);
        proof {
            lemma_derived_view_consistent(self.raw);
        }
    }

    /// Returns the snapshot the last refresh committed, with every derived
    /// figure computed at read time from the raw counters. The read
    /// mutates nothing, and with a committed snapshot always present it
    /// never comes back empty.
    pub fn get_info(&self) -> (r: Option<SystemInfo>)
        ensures
            r matches Some(info) && info@ == self@,
    {
        let cpu = cpu_info_from_percents(&self.raw.core_percents);
        let memory = memory_info_from_sample(&self.raw.memory);
        let mut disks: Vec<DiskInfo> = Vec::new();
        let nd = self.raw.disks.len();
        let mut i: usize = 0;
        while i < nd
            invariant
                nd == self.raw.disks@.len(),
                i <= nd,
                disks@ =~= self.raw.disks@.take(i as int).map_values(
                    |d: DiskSample| disk_info_of(d),
                ),
            decreases nd - i,
        {
            let d = disk_info_from_sample(&self.raw.disks[i]);
            disks.push(d);
            proof {
                assert(self.raw.disks@.take(i + 1).drop_last() =~= self.raw.disks@.take(i as int));
                assert(disks@ =~= self.raw.disks@.take(i + 1).map_values(
                    |d: DiskSample| disk_info_of(d),
                ));
            }
            i = i + 1;
        }
        let mut network: Vec<NetworkInfo> = Vec::new();
        let nn = self.raw.networks.len();
        let mut j: usize = 0;
        while j < nn
            invariant
                nn == self.raw.networks@.len(),
                j <= nn,
                network@ =~= self.raw.networks@.take(j as int),
            decreases nn - j,
        {
            let src = &self.raw.networks[j];
            network.push(
                NetworkInfo {
                    interface: src.interface.clone(),
                    received_bytes: src.received_bytes,
                    transmitted_bytes: src.transmitted_bytes,
                },
            );
            proof {
                assert(network@ =~= self.raw.networks@.take(j + 1));
            }
            j = j + 1;
        }
        let info = SystemInfo { cpu, memory, disks, network };
        proof {
            assert(self.raw.disks@.take(nd as int) =~= self.raw.disks@);
            assert(self.raw.networks@.take(nn as int) =~= self.raw.networks@);
            assert(info@ =~= self@);
        }
        Some(info)
    }
}

impl Default for SystemProvider {
    /// Same as `new`: a provider with its initial full sample committed.
    fn default() -> (r: SystemProvider)
        ensures
            info_consistent(r@),
    {
        SystemProvider::new()
    }
}

} // verus!
