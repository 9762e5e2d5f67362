use vstd::prelude::*;

use crate::adb::{elapsed, texts};
use crate::text::{
    chars_of, contains, find_first, first_from, has_str, lemma_split_count, lemma_split_on_nonempty,
    lower_of, lowercase, occurs_at, parse_u32, parse_u64, remove_all, remove_str, slice_of,
    split_char, split_on, split_words, starts_str, starts_with, string_of, trim, trim_str, trimmed,
    u32_value, u64_value, views, words,
};

verus! {

// ===== Metrics =====

/// Disk usage of the data partition, in MiB.
#[derive(Debug, Clone, Copy)]
pub struct StorageInfo {
    pub total_mb: u64,
    pub used_mb: u64,
    pub free_mb: u64,
}

/// Memory usage, in MiB.
#[derive(Debug, Clone, Copy)]
pub struct MemoryInfo {
    pub total_mb: u64,
    pub available_mb: u64,
    pub used_mb: u64,
    pub buffers_mb: u64,
    pub cached_mb: u64,
}

/// Processor load. Each percentage is the bit pattern of an `f32`
/// (`f32::to_bits`), which the library carries without reading.
#[derive(Debug, Clone, Copy)]
pub struct CpuInfo {
    pub usage_percent_bits: u32,
    pub user_percent_bits: u32,
    pub system_percent_bits: u32,
    pub idle_percent_bits: u32,
}

/// An app that drains the battery; its share is the bit pattern of an `f32`.
#[derive(Debug)]
pub struct BatteryDrainer {
    pub app_name: String,
    pub package_name: String,
    pub usage_percent_bits: u32,
    pub foreground_time_ms: u64,
}

/// Thermal state; the temperature is the bit pattern of an `f32`.
#[derive(Debug)]
pub struct ThermalInfo {
    pub status: String,
    pub temperature_bits: Option<u32>,
    pub throttling: bool,
}

/// How many apps are installed.
#[derive(Debug, Clone, Copy)]
pub struct AppCounts {
    pub system_apps: u32,
    pub user_apps: u32,
    pub total_apps: u32,
}

pub type DrainerModel = (Seq<char>, Seq<char>, u32, u64);

pub open spec fn drainer_view(d: BatteryDrainer) -> DrainerModel {
    (d.app_name@, d.package_name@, d.usage_percent_bits, d.foreground_time_ms)
}

pub open spec fn drainer_views(v: Seq<BatteryDrainer>) -> Seq<DrainerModel> {
    Seq::new(v.len(), |i: int| drainer_view(v[i]))
}

pub type ThermalModel = (Seq<char>, Option<u32>, bool);

pub open spec fn thermal_view(t: ThermalInfo) -> ThermalModel {
    (t.status@, t.temperature_bits, t.throttling)
}

impl StorageInfo {
    pub fn zero() -> (r: StorageInfo)
        ensures
            r == (StorageInfo { total_mb: 0, used_mb: 0, free_mb: 0 }),
    {
        StorageInfo { total_mb: 0, used_mb: 0, free_mb: 0 }
    }

    /// The used share as a fraction `(part, whole)`: `used / total`, or `0 / 1`
    /// when the total is zero. The percentage is `part / whole * 100`.
    pub fn usage_ratio(&self) -> (r: (u64, u64))
        ensures
            self.total_mb > 0 ==> r == (self.used_mb, self.total_mb),
            self.total_mb == 0 ==> r == (0u64, 1u64),
    {
        if self.total_mb > 0 {
            (self.used_mb, self.total_mb)
        } else {
            (0, 1)
        }
    }
}

impl MemoryInfo {
    pub fn zero() -> (r: MemoryInfo)
        ensures
            r == (MemoryInfo {
                total_mb: 0,
                available_mb: 0,
                used_mb: 0,
                buffers_mb: 0,
                cached_mb: 0,
            }),
    {
        MemoryInfo { total_mb: 0, available_mb: 0, used_mb: 0, buffers_mb: 0, cached_mb: 0 }
    }

    /// The used share as a fraction `(part, whole)`: `used / total`, or `0 / 1`
    /// when the total is zero.
    pub fn usage_ratio(&self) -> (r: (u64, u64))
        ensures
            self.total_mb > 0 ==> r == (self.used_mb, self.total_mb),
            self.total_mb == 0 ==> r == (0u64, 1u64),
    {
        if self.total_mb > 0 {
            (self.used_mb, self.total_mb)
        } else {
            (0, 1)
        }
    }
}

impl CpuInfo {
    pub fn zero() -> (r: CpuInfo)
        ensures
            r == (CpuInfo {
                usage_percent_bits: 0,
                user_percent_bits: 0,
                system_percent_bits: 0,
                idle_percent_bits: 0,
            }),
    {
        CpuInfo {
            usage_percent_bits: 0,
            user_percent_bits: 0,
            system_percent_bits: 0,
            idle_percent_bits: 0,
        }
    }
}

impl AppCounts {
    pub fn zero() -> (r: AppCounts)
        ensures
            r == (AppCounts { system_apps: 0, user_apps: 0, total_apps: 0 }),
    {
        AppCounts { system_apps: 0, user_apps: 0, total_apps: 0 }
    }
}

impl ThermalInfo {
    /// No reading yet: empty status, no temperature, no throttling.
    pub fn empty() -> (r: ThermalInfo)
        ensures
            thermal_view(r) == (Seq::<char>::empty(), None::<u32>, false),
    {
        ThermalInfo { status: String::new(), temperature_bits: None, throttling: false }
    }

    pub fn duplicate(&self) -> (r: ThermalInfo)
        ensures
            thermal_view(r) == thermal_view(*self),
    {
        ThermalInfo {
            status: self.status.clone(),
            temperature_bits: self.temperature_bits,
            throttling: self.throttling,
        }
    }
}

pub fn copy_drainers(v: &Vec<BatteryDrainer>) -> (r: Vec<BatteryDrainer>)
    ensures
        drainer_views(r@) == drainer_views(v@),
{
    let mut out: Vec<BatteryDrainer> = Vec::new();
    let mut i: usize = 0;
    while i < v.len()
        invariant
            i <= v.len(),
            out@.len() == i,
            forall|k: int| 0 <= k < i ==> drainer_view(out@[k]) == drainer_view(v@[k]),
        decreases v.len() - i,
    {
        let d = &v[i];
        out.push(
            BatteryDrainer {
                app_name: d.app_name.clone(),
                package_name: d.package_name.clone(),
                usage_percent_bits: d.usage_percent_bits,
                foreground_time_ms: d.foreground_time_ms,
            },
        );
        i += 1;
    }
    assert(drainer_views(out@) =~= drainer_views(v@));
    out
}

// ===== Parsing the device's reports =====

/// `s` read as a `u64`, or zero when it does not read as one.
pub open spec fn u64_or_zero(s: Seq<char>) -> u64 {
    match u64_value(s) {
        Some(n) => n,
        None => 0,
    }
}

/// The data partition's usage, from the last line of `df /data`: its
/// columns are the file system, then the size, the used and the available
/// space in KiB. Fewer than four columns give nothing.
pub open spec fn storage_of(output: Seq<char>) -> Option<StorageInfo> {
    let parts = words(output);
    if parts.len() >= 4 {
        Some(
            StorageInfo {
                total_mb: u64_or_zero(parts[1]) / 1024,
                used_mb: u64_or_zero(parts[2]) / 1024,
                free_mb: u64_or_zero(parts[3]) / 1024,
            },
        )
    } else {
        None
    }
}

fn number_or_zero(v: &Vec<char>) -> (r: u64)
    ensures
        r == u64_or_zero(v@),
{
    match parse_u64(v) {
        Some(n) => n,
        None => 0,
    }
}

/// The data partition's usage, read from the last line of `df /data`.
pub fn parse_storage(output: &str) -> (r: Option<StorageInfo>)
    ensures
        r == storage_of(output@),
{
    let v = chars_of(output);
    let parts = split_words(&v);
    assert(views(parts@).len() == parts@.len());
    if parts.len() >= 4 {
        assert(parts@[1]@ == words(output@)[1]);
        assert(parts@[2]@ == words(output@)[2]);
        assert(parts@[3]@ == words(output@)[3]);
        Some(
            StorageInfo {
                total_mb: number_or_zero(&parts[1]) / 1024,
                used_mb: number_or_zero(&parts[2]) / 1024,
                free_mb: number_or_zero(&parts[3]) / 1024,
            },
        )
    } else {
        None
    }
}

/// A storage reading from sizes already in MiB.
pub fn storage_from_mb(total_mb: u64, used_mb: u64, free_mb: u64) -> (r: StorageInfo)
    ensures
        r == (StorageInfo { total_mb, used_mb, free_mb }),
{
    StorageInfo { total_mb, used_mb, free_mb }
}

/// The number of services, from `service list | wc -l`, less its header line.
pub open spec fn services_of(output: Seq<char>) -> u32 {
    let n = match u32_value(trim(output)) {
        Some(n) => n,
        None => 0,
    };
    if n > 0 {
        (n - 1) as u32
    } else {
        0
    }
}

pub fn parse_services_count(output: &str) -> (r: u32)
    ensures
        r == services_of(output@),
{
    let t = trim_str(output);
    let n = match parse_u32(&t) {
        Some(n) => n,
        None => 0,
    };
    n.saturating_sub(1)
}

/// A line count, from `... | wc -l`, or zero when it does not read as one.
pub open spec fn count_of(output: Seq<char>) -> u32 {
    match u32_value(trim(output)) {
        Some(n) => n,
        None => 0,
    }
}

/// The app counts, from the line counts of the system and third-party listings.
/// The total saturates at `u32::MAX`.
pub fn parse_app_counts(system_output: &str, user_output: &str) -> (r: AppCounts)
    ensures
        r.system_apps == count_of(system_output@),
        r.user_apps == count_of(user_output@),
        r.total_apps == (if count_of(system_output@) + count_of(user_output@) <= u32::MAX {
            (count_of(system_output@) + count_of(user_output@)) as u32
        } else {
            u32::MAX
        }),
{
    let s = trim_str(system_output);
    let u = trim_str(user_output);
    let system_apps = match parse_u32(&s) {
        Some(n) => n,
        None => 0,
    };
    let user_apps = match parse_u32(&u) {
        Some(n) => n,
        None => 0,
    };
    AppCounts { system_apps, user_apps, total_apps: system_apps.saturating_add(user_apps) }
}

/// The thermal status that a report, in lower case, shows: the most severe
/// keyword found decides; none found leaves it `unknown`.
pub open spec fn thermal_of_lowered(t: Seq<char>) -> (Seq<char>, bool) {
    if contains(t, "critical"@) || contains(t, "emergency"@) {
        ("critical"@, true)
    } else if contains(t, "severe"@) || contains(t, "shutdown"@) {
        ("severe"@, true)
    } else if contains(t, "moderate"@) || contains(t, "throttling"@) {
        ("moderate"@, true)
    } else if contains(t, "light"@) || contains(t, "normal"@) || contains(t, "none"@) {
        ("normal"@, false)
    } else {
        ("unknown"@, false)
    }
}

/// The thermal status and whether the device throttles, from a report
/// already in lower case. No temperature is read.
pub fn thermal_from_lowered(lowered: &str) -> (r: ThermalInfo)
    ensures
        thermal_view(r) == (thermal_of_lowered(lowered@).0, None::<u32>, thermal_of_lowered(
            lowered@,
        ).1),
{
    let t = chars_of(lowered);
    let (status, throttling) = if crate::text::has_str(&t, "critical") || crate::text::has_str(
        &t,
        "emergency",
    ) {
        ("critical", true)
    } else if crate::text::has_str(&t, "severe") || crate::text::has_str(&t, "shutdown") {
        ("severe", true)
    } else if crate::text::has_str(&t, "moderate") || crate::text::has_str(&t, "throttling") {
        ("moderate", true)
    } else if crate::text::has_str(&t, "light") || crate::text::has_str(&t, "normal")
        || crate::text::has_str(&t, "none") {
        ("normal", false)
    } else {
        ("unknown", false)
    };
    ThermalInfo { status: status.to_owned(), temperature_bits: None, throttling }
}

/// The thermal status of a `dumpsys thermalservice` report, matched without
/// regard to case. No temperature is read.
pub fn thermal_status(output: &str) -> (r: ThermalInfo)
    ensures
        thermal_view(r) == (thermal_of_lowered(lower_of(output@)).0, None::<u32>,
        thermal_of_lowered(lower_of(output@)).1),
{
    let lowered = lowercase(output);
    thermal_from_lowered(lowered.as_str())
}

/// The `key: value kB` pair that one line of `/proc/meminfo` holds, if it
/// holds one: exactly one colon, and a value that reads as a number once
/// trimmed and rid of `kB`.
pub open spec fn meminfo_line(line: Seq<char>) -> Option<(Seq<char>, u64)> {
    let parts = split_on(line, ':');
    if parts.len() == 2 {
        match u64_value(trim(remove_all(trim(parts[1]), "kB"@))) {
            Some(n) => Some((trim(parts[0]), n)),
            None => None,
        }
    } else {
        None
    }
}

/// The values of `/proc/meminfo` by key; a key given twice keeps its last value.
pub open spec fn meminfo_values(lines: Seq<Seq<char>>) -> Map<Seq<char>, u64>
    decreases lines.len(),
{
    if lines.len() == 0 {
        Map::empty()
    } else {
        let prev = meminfo_values(lines.drop_last());
        match meminfo_line(lines.last()) {
            Some((k, n)) => prev.insert(k, n),
            None => prev,
        }
    }
}

/// The value of `key` in `/proc/meminfo`, in KiB, or zero when it is missing.
pub open spec fn meminfo_field(output: Seq<char>, key: Seq<char>) -> u64 {
    let m = meminfo_values(split_on(output, '\n'));
    if m.contains_key(key) {
        m[key]
    } else {
        0
    }
}

/// Memory usage from the text of `/proc/meminfo`.
pub open spec fn memory_of(output: Seq<char>) -> MemoryInfo {
    let total = meminfo_field(output, "MemTotal"@) / 1024;
    let available = meminfo_field(output, "MemAvailable"@) / 1024;
    MemoryInfo {
        total_mb: total,
        available_mb: available,
        used_mb: if total >= available {
            (total - available) as u64
        } else {
            0
        },
        buffers_mb: meminfo_field(output, "Buffers"@) / 1024,
        cached_mb: meminfo_field(output, "Cached"@) / 1024,
    }
}

fn parse_meminfo_line(line: &Vec<char>) -> (r: Option<(Vec<char>, u64)>)
    ensures
        match r {
            Some((k, n)) => meminfo_line(line@) == Some((k@, n)),
            None => meminfo_line(line@) is None,
        },
{
    let parts = split_char(line, ':');
    if parts.len() != 2 {
        return None;
    }
    assert(parts@[1]@ == split_on(line@, ':')[1]);
    assert(parts@[0]@ == split_on(line@, ':')[0]);
    let value = trimmed(&remove_str(&trimmed(&parts[1]), "kB"));
    match parse_u64(&value) {
        Some(n) => Some((trimmed(&parts[0]), n)),
        None => None,
    }
}

/// Memory usage from the text of `/proc/meminfo`: sizes in MiB, the used
/// memory being the total less the available, or zero.
pub fn parse_memory(output: &str) -> (r: MemoryInfo)
    ensures
        r == memory_of(output@),
{
    let text = chars_of(output);
    let lines = split_char(&text, '\n');
    let ghost ls = views(lines@);
    let k_total = chars_of("MemTotal");
    let k_avail = chars_of("MemAvailable");
    let k_buf = chars_of("Buffers");
    let k_cached = chars_of("Cached");
    let mut total: u64 = 0;
    let mut avail: u64 = 0;
    let mut buffers: u64 = 0;
    let mut cached: u64 = 0;
    let mut i: usize = 0;
    assert(ls.subrange(0, 0) =~= Seq::<Seq<char>>::empty());
    while i < lines.len()
        invariant
            i <= lines.len(),
            ls == views(lines@),
            k_total@ == "MemTotal"@,
            k_avail@ == "MemAvailable"@,
            k_buf@ == "Buffers"@,
            k_cached@ == "Cached"@,
            ({
                let m = meminfo_values(ls.subrange(0, i as int));
                &&& total == (if m.contains_key("MemTotal"@) { m["MemTotal"@] } else { 0 })
                &&& avail == (if m.contains_key("MemAvailable"@) { m["MemAvailable"@] } else { 0 })
                &&& buffers == (if m.contains_key("Buffers"@) { m["Buffers"@] } else { 0 })
                &&& cached == (if m.contains_key("Cached"@) { m["Cached"@] } else { 0 })
            }),
        decreases lines.len() - i,
    {
        assert(ls.subrange(0, i + 1).drop_last() =~= ls.subrange(0, i as int));
        match parse_meminfo_line(&lines[i]) {
            Some((k, n)) => {
                if crate::text::same_text(&k, &k_total) {
                    total = n;
                }
                if crate::text::same_text(&k, &k_avail) {
                    avail = n;
                }
                if crate::text::same_text(&k, &k_buf) {
                    buffers = n;
                }
                if crate::text::same_text(&k, &k_cached) {
                    cached = n;
                }
            },
            None => {},
        }
        i += 1;
    }
    assert(ls.subrange(0, lines.len() as int) =~= ls);
    let total_mb = total / 1024;
    let available_mb = avail / 1024;
    MemoryInfo {
        total_mb,
        available_mb,
        used_mb: total_mb.saturating_sub(available_mb),
        buffers_mb: buffers / 1024,
        cached_mb: cached / 1024,
    }
}

// ===== Cached metrics =====

/// One metric's last value, when it was read (`None`: it must be read again)
/// and how long it stays fresh, in milliseconds.
pub struct CachedMetric<T> {
    pub data: T,
    pub updated_at: Option<u64>,
    pub ttl: u64,
}

impl<T> CachedMetric<T> {
    /// A slot holding `data` that must be read before it is trusted.
    pub fn new(data: T, ttl: u64) -> (r: CachedMetric<T>)
        ensures
            r.data == data,
            r.updated_at is None,
            r.ttl == ttl,
    {
        CachedMetric { data, updated_at: None, ttl }
    }

    /// The value is served only while less than its time to live has passed.
    pub open spec fn stale_at(&self, now: u64) -> bool {
        match self.updated_at {
            Some(t) => elapsed(t, now) >= self.ttl,
            None => true,
        }
    }

    /// Whether the value is too old to serve at time `now`.
    pub fn is_stale(&self, now: u64) -> (r: bool)
        ensures
            r == self.stale_at(now),
    {
        match self.updated_at {
            Some(t) => {
                let gone: u64 = if now >= t {
                    now - t
                } else {
                    0
                };
                gone >= self.ttl
            },
            None => true,
        }
    }

    /// Replaces the value with `data`, read at time `now`.
    pub fn update(&mut self, data: T, now: u64)
        ensures
            final(self).data == data,
            final(self).updated_at == Some(now),
            final(self).ttl == old(self).ttl,
    {
        self.data = data;
        self.updated_at = Some(now);
    }

    pub fn get(&self) -> (r: &T)
        ensures
            *r == self.data,
    {
        &self.data
    }
}

pub const STORAGE_TTL_MS: u64 = 3000;
pub const MEMORY_TTL_MS: u64 = 2000;
pub const CPU_TTL_MS: u64 = 3000;
pub const SERVICES_TTL_MS: u64 = 10000;
pub const BATTERY_TTL_MS: u64 = 30000;
pub const THERMAL_TTL_MS: u64 = 5000;
pub const APP_COUNTS_TTL_MS: u64 = 60000;

/// The seven metrics, each in its own slot, and the device they were read from.
pub struct HealthCache {
    pub storage: CachedMetric<StorageInfo>,
    pub memory: CachedMetric<MemoryInfo>,
    pub cpu: CachedMetric<CpuInfo>,
    pub services: CachedMetric<u32>,
    pub battery: CachedMetric<Vec<BatteryDrainer>>,
    pub thermal: CachedMetric<ThermalInfo>,
    pub app_counts: CachedMetric<AppCounts>,
    pub device_id: String,
}

/// Every slot of `c` holds its empty value and must be read again.
pub open spec fn all_reset(c: HealthCache) -> bool {
    &&& c.storage.updated_at is None && c.storage.data == StorageInfo::zero_spec()
    &&& c.memory.updated_at is None && c.memory.data == MemoryInfo::zero_spec()
    &&& c.cpu.updated_at is None && c.cpu.data == CpuInfo::zero_spec()
    &&& c.services.updated_at is None && c.services.data == 0
    &&& c.battery.updated_at is None && c.battery.data@.len() == 0
    &&& c.thermal.updated_at is None && thermal_view(c.thermal.data) == (
        Seq::<char>::empty(),
        None::<u32>,
        false,
    )
    &&& c.app_counts.updated_at is None && c.app_counts.data == AppCounts::zero_spec()
}

/// Each slot has its own time to live.
pub open spec fn standard_ttls(c: HealthCache) -> bool {
    &&& c.storage.ttl == STORAGE_TTL_MS
    &&& c.memory.ttl == MEMORY_TTL_MS
    &&& c.cpu.ttl == CPU_TTL_MS
    &&& c.services.ttl == SERVICES_TTL_MS
    &&& c.battery.ttl == BATTERY_TTL_MS
    &&& c.thermal.ttl == THERMAL_TTL_MS
    &&& c.app_counts.ttl == APP_COUNTS_TTL_MS
}

impl StorageInfo {
    pub open spec fn zero_spec() -> StorageInfo {
        StorageInfo { total_mb: 0, used_mb: 0, free_mb: 0 }
    }
}

impl MemoryInfo {
    pub open spec fn zero_spec() -> MemoryInfo {
        MemoryInfo { total_mb: 0, available_mb: 0, used_mb: 0, buffers_mb: 0, cached_mb: 0 }
    }
}

impl CpuInfo {
    pub open spec fn zero_spec() -> CpuInfo {
        CpuInfo { usage_percent_bits: 0, user_percent_bits: 0, system_percent_bits: 0, idle_percent_bits: 0 }
    }
}

impl AppCounts {
    pub open spec fn zero_spec() -> AppCounts {
        AppCounts { system_apps: 0, user_apps: 0, total_apps: 0 }
    }
}

/// The seven metrics, as the collector names them, in the order a pass reads them.
#[derive(Debug, Clone, Copy, PartialEq, Eq, Structural)]
pub enum Metric {
    Storage,
    Memory,
    Cpu,
    Services,
    AppCounts,
    Thermal,
    Battery,
}

/// The `i`-th metric a pass reads.
pub open spec fn metric_at(i: int) -> Metric {
    if i == 0 {
        Metric::Storage
    } else if i == 1 {
        Metric::Memory
    } else if i == 2 {
        Metric::Cpu
    } else if i == 3 {
        Metric::Services
    } else if i == 4 {
        Metric::AppCounts
    } else if i == 5 {
        Metric::Thermal
    } else {
        Metric::Battery
    }
}

/// How many metrics a pass reads.
pub const METRIC_COUNT: usize = 7;

pub open spec fn metric_name(m: Metric) -> Seq<char> {
    match m {
        Metric::Storage => "storage"@,
        Metric::Memory => "memory"@,
        Metric::Cpu => "cpu"@,
        Metric::Services => "services"@,
        Metric::AppCounts => "app_counts"@,
        Metric::Thermal => "thermal"@,
        Metric::Battery => "battery"@,
    }
}

/// The `i`-th metric a pass reads.
pub fn metric_of_index(i: usize) -> (r: Metric)
    ensures
        r == metric_at(i as int),
{
    if i == 0 {
        Metric::Storage
    } else if i == 1 {
        Metric::Memory
    } else if i == 2 {
        Metric::Cpu
    } else if i == 3 {
        Metric::Services
    } else if i == 4 {
        Metric::AppCounts
    } else if i == 5 {
        Metric::Thermal
    } else {
        Metric::Battery
    }
}

impl Metric {
    pub fn name(&self) -> (r: &'static str)
        ensures
            r@ == metric_name(*self),
    {
        match self {
            Metric::Storage => "storage",
            Metric::Memory => "memory",
            Metric::Cpu => "cpu",
            Metric::Services => "services",
            Metric::AppCounts => "app_counts",
            Metric::Thermal => "thermal",
            Metric::Battery => "battery",
        }
    }
}

/// Whether the slot of metric `m` must be read again at time `now`.
pub open spec fn slot_stale(c: HealthCache, m: Metric, now: u64) -> bool {
    match m {
        Metric::Storage => c.storage.stale_at(now),
        Metric::Memory => c.memory.stale_at(now),
        Metric::Cpu => c.cpu.stale_at(now),
        Metric::Services => c.services.stale_at(now),
        Metric::AppCounts => c.app_counts.stale_at(now),
        Metric::Thermal => c.thermal.stale_at(now),
        Metric::Battery => c.battery.stale_at(now),
    }
}

impl HealthCache {
    /// Every slot empty and due for reading, no device yet.
    pub fn new() -> (r: HealthCache)
        ensures
            all_reset(r),
            standard_ttls(r),
            r.device_id@.len() == 0,
    {
        HealthCache {
            storage: CachedMetric::new(StorageInfo::zero(), STORAGE_TTL_MS),
            memory: CachedMetric::new(MemoryInfo::zero(), MEMORY_TTL_MS),
            cpu: CachedMetric::new(CpuInfo::zero(), CPU_TTL_MS),
            services: CachedMetric::new(0, SERVICES_TTL_MS),
            battery: CachedMetric::new(Vec::new(), BATTERY_TTL_MS),
            thermal: CachedMetric::new(ThermalInfo::empty(), THERMAL_TTL_MS),
            app_counts: CachedMetric::new(AppCounts::zero(), APP_COUNTS_TTL_MS),
            device_id: String::new(),
        }
    }

    /// Whether metric `m` must be read again at time `now`.
    pub fn metric_is_stale(&self, m: Metric, now: u64) -> (r: bool)
        ensures
            r == slot_stale(*self, m, now),
    {
        match m {
            Metric::Storage => self.storage.is_stale(now),
            Metric::Memory => self.memory.is_stale(now),
            Metric::Cpu => self.cpu.is_stale(now),
            Metric::Services => self.services.is_stale(now),
            Metric::AppCounts => self.app_counts.is_stale(now),
            Metric::Thermal => self.thermal.is_stale(now),
            Metric::Battery => self.battery.is_stale(now),
        }
    }

    /// Keeps the slots for the device they were read from; for another device
    /// every slot is emptied and due for reading.
    pub fn invalidate_for_device(&mut self, device_id: &str)
        ensures
            final(self).device_id@ == device_id@,
            old(self).device_id@ == device_id@ ==> *final(self) == *old(self),
            old(self).device_id@ != device_id@ ==> all_reset(*final(self)) && standard_ttls(
                *final(self),
            ),
    {
        if !crate::text::same_text(&chars_of(self.device_id.as_str()), &chars_of(device_id)) {
            *self = HealthCache::new();
            self.device_id = device_id.to_owned();
        }
    }
}

/// Empties every slot, so that the next pass reads every metric.
pub fn clear_health_cache(cache: &mut HealthCache)
    ensures
        all_reset(*final(cache)),
        standard_ttls(*final(cache)),
        final(cache).device_id@.len() == 0,
{
    *cache = HealthCache::new();
}

/// The device a snapshot is taken of, and when.
pub struct SystemHealth {
    pub storage: StorageInfo,
    pub memory: MemoryInfo,
    pub cpu: CpuInfo,
    pub services_count: u32,
    pub battery_drainers: Vec<BatteryDrainer>,
    pub thermal: ThermalInfo,
    pub app_counts: AppCounts,
    pub timestamp: u64,
    pub device_id: String,
}

/// A `SystemHealth` as plain values.
pub struct HealthModel {
    pub storage: StorageInfo,
    pub memory: MemoryInfo,
    pub cpu: CpuInfo,
    pub services_count: u32,
    pub battery_drainers: Seq<DrainerModel>,
    pub thermal: ThermalModel,
    pub app_counts: AppCounts,
    pub timestamp: u64,
    pub device_id: Seq<char>,
}

pub open spec fn health_view(h: SystemHealth) -> HealthModel {
    HealthModel {
        storage: h.storage,
        memory: h.memory,
        cpu: h.cpu,
        services_count: h.services_count,
        battery_drainers: drainer_views(h.battery_drainers@),
        thermal: thermal_view(h.thermal),
        app_counts: h.app_counts,
        timestamp: h.timestamp,
        device_id: h.device_id@,
    }
}

impl SystemHealth {
    pub fn duplicate(&self) -> (r: SystemHealth)
        ensures
            health_view(r) == health_view(*self),
    {
        SystemHealth {
            storage: self.storage,
            memory: self.memory,
            cpu: self.cpu,
            services_count: self.services_count,
            battery_drainers: copy_drainers(&self.battery_drainers),
            thermal: self.thermal.duplicate(),
            app_counts: self.app_counts,
            timestamp: self.timestamp,
            device_id: self.device_id.clone(),
        }
    }
}

/// `h` with the value of metric `m` taken from the slot of `c`.
pub open spec fn with_slot(h: HealthModel, c: HealthCache, m: Metric) -> HealthModel {
    match m {
        Metric::Storage => HealthModel { storage: c.storage.data, ..h },
        Metric::Memory => HealthModel { memory: c.memory.data, ..h },
        Metric::Cpu => HealthModel { cpu: c.cpu.data, ..h },
        Metric::Services => HealthModel { services_count: c.services.data, ..h },
        Metric::AppCounts => HealthModel { app_counts: c.app_counts.data, ..h },
        Metric::Thermal => HealthModel { thermal: thermal_view(c.thermal.data), ..h },
        Metric::Battery => HealthModel { battery_drainers: drainer_views(c.battery.data@), ..h },
    }
}

/// A freshly read value of one metric.
pub enum MetricValue {
    Storage(StorageInfo),
    Memory(MemoryInfo),
    Cpu(CpuInfo),
    Services(u32),
    AppCounts(AppCounts),
    Thermal(ThermalInfo),
    Battery(Vec<BatteryDrainer>),
}

pub open spec fn metric_of(v: MetricValue) -> Metric {
    match v {
        MetricValue::Storage(_) => Metric::Storage,
        MetricValue::Memory(_) => Metric::Memory,
        MetricValue::Cpu(_) => Metric::Cpu,
        MetricValue::Services(_) => Metric::Services,
        MetricValue::AppCounts(_) => Metric::AppCounts,
        MetricValue::Thermal(_) => Metric::Thermal,
        MetricValue::Battery(_) => Metric::Battery,
    }
}

/// `c` with the slot of `v`'s metric holding `v`, read at `now`.
pub open spec fn refreshed(c: HealthCache, v: MetricValue, now: u64) -> HealthCache {
    match v {
        MetricValue::Storage(x) => HealthCache {
            storage: CachedMetric { data: x, updated_at: Some(now), ttl: c.storage.ttl },
            ..c
        },
        MetricValue::Memory(x) => HealthCache {
            memory: CachedMetric { data: x, updated_at: Some(now), ttl: c.memory.ttl },
            ..c
        },
        MetricValue::Cpu(x) => HealthCache {
            cpu: CachedMetric { data: x, updated_at: Some(now), ttl: c.cpu.ttl },
            ..c
        },
        MetricValue::Services(x) => HealthCache {
            services: CachedMetric { data: x, updated_at: Some(now), ttl: c.services.ttl },
            ..c
        },
        MetricValue::AppCounts(x) => HealthCache {
            app_counts: CachedMetric { data: x, updated_at: Some(now), ttl: c.app_counts.ttl },
            ..c
        },
        MetricValue::Thermal(x) => HealthCache {
            thermal: CachedMetric { data: x, updated_at: Some(now), ttl: c.thermal.ttl },
            ..c
        },
        MetricValue::Battery(x) => HealthCache {
            battery: CachedMetric { data: x, updated_at: Some(now), ttl: c.battery.ttl },
            ..c
        },
    }
}

/// What the user interface is told after each metric of a pass.
pub struct HealthUpdateEvent {
    pub health: SystemHealth,
    pub metrics_updated: Vec<String>,
    pub is_complete: bool,
}

/// A collection pass in progress: the snapshot so far, the metrics read
/// afresh, and how many metrics are done.
pub struct HealthPass {
    pub health: SystemHealth,
    pub updated: Vec<String>,
    pub next: usize,
}

fn copy_names(v: &Vec<String>) -> (r: Vec<String>)
    ensures
        texts(r@) == texts(v@),
{
    let mut out: Vec<String> = Vec::new();
    let mut i: usize = 0;
    while i < v.len()
        invariant
            i <= v.len(),
            out@.len() == i,
            forall|k: int| 0 <= k < i ==> out@[k]@ == v@[k]@,
        decreases v.len() - i,
    {
        out.push(v[i].clone());
        i += 1;
    }
    assert(texts(out@) =~= texts(v@));
    out
}

impl HealthCache {
    /// Starts a pass over device `device_id` at wall-clock time `timestamp`:
    /// the slots are emptied first if they belong to another device.
    pub fn begin_pass(&mut self, device_id: String, timestamp: u64) -> (r: HealthPass)
        ensures
            final(self).device_id@ == device_id@,
            old(self).device_id@ == device_id@ ==> *final(self) == *old(self),
            old(self).device_id@ != device_id@ ==> all_reset(*final(self)) && standard_ttls(
                *final(self),
            ),
            r.next == 0,
            r.updated@.len() == 0,
            health_view(r.health) == (HealthModel {
                storage: StorageInfo::zero_spec(),
                memory: MemoryInfo::zero_spec(),
                cpu: CpuInfo::zero_spec(),
                services_count: 0,
                battery_drainers: Seq::empty(),
                thermal: (Seq::<char>::empty(), None::<u32>, false),
                app_counts: AppCounts::zero_spec(),
                timestamp,
                device_id: device_id@,
            }),
    {
        self.invalidate_for_device(device_id.as_str());
        let health = SystemHealth {
            storage: StorageInfo::zero(),
            memory: MemoryInfo::zero(),
            cpu: CpuInfo::zero(),
            services_count: 0,
            battery_drainers: Vec::new(),
            thermal: ThermalInfo::empty(),
            app_counts: AppCounts::zero(),
            timestamp,
            device_id,
        };
        assert(drainer_views(health.battery_drainers@) =~= Seq::<DrainerModel>::empty());
        HealthPass { health, updated: Vec::new(), next: 0 }
    }

    /// Resolves the next metric of the pass at time `now`. When its slot is
    /// stale and `fetched` holds a value of that metric, the slot takes it
    /// and the metric counts as updated; otherwise (fresh slot, failed read)
    /// the slot keeps its value. Either way the slot's value goes into the
    /// snapshot, and the returned event carries the snapshot so far, the
    /// metrics updated so far, and whether this was the last metric.
    pub fn resolve(&mut self, pass: &mut HealthPass, fetched: Option<MetricValue>, now: u64) -> (r:
        HealthUpdateEvent)
        requires
            old(pass).next < METRIC_COUNT,
        ensures
            ({
                let m = metric_at(old(pass).next as int);
                let fresh = slot_stale(*old(self), m, now) && (fetched matches Some(v) && metric_of(v)
                    == m);
                &&& fresh ==> *final(self) == refreshed(*old(self), fetched->0, now)
                    && texts(final(pass).updated@) == texts(old(pass).updated@).push(metric_name(m))
                &&& !fresh ==> *final(self) == *old(self) && texts(final(pass).updated@) == texts(
                    old(pass).updated@,
                )
                &&& health_view(final(pass).health) == with_slot(
                    health_view(old(pass).health),
                    *final(self),
                    m,
                )
                &&& final(pass).next == old(pass).next + 1
                &&& health_view(r.health) == health_view(final(pass).health)
                &&& texts(r.metrics_updated@) == texts(final(pass).updated@)
                &&& r.is_complete == (final(pass).next == METRIC_COUNT)
            }),
    {
        let m = metric_of_index(pass.next);
        let stale = self.metric_is_stale(m, now);
        let ghost before = pass.updated@;
        let mut took = false;
        if stale {
            match fetched {
                Some(MetricValue::Storage(x)) => {
                    if m == Metric::Storage {
                        self.storage.update(x, now);
                        took = true;
                    }
                },
                Some(MetricValue::Memory(x)) => {
                    if m == Metric::Memory {
                        self.memory.update(x, now);
                        took = true;
                    }
                },
                Some(MetricValue::Cpu(x)) => {
                    if m == Metric::Cpu {
                        self.cpu.update(x, now);
                        took = true;
                    }
                },
                Some(MetricValue::Services(x)) => {
                    if m == Metric::Services {
                        self.services.update(x, now);
                        took = true;
                    }
                },
                Some(MetricValue::AppCounts(x)) => {
                    if m == Metric::AppCounts {
                        self.app_counts.update(x, now);
                        took = true;
                    }
                },
                Some(MetricValue::Thermal(x)) => {
                    if m == Metric::Thermal {
                        self.thermal.update(x, now);
                        took = true;
                    }
                },
                Some(MetricValue::Battery(x)) => {
                    if m == Metric::Battery {
                        self.battery.update(x, now);
                        took = true;
                    }
                },
                None => {},
            }
        }
        if took {
            pass.updated.push(m.name().to_owned());
            assert(texts(pass.updated@) =~= texts(before).push(metric_name(m)));
        }
        match m {
            Metric::Storage => {
                pass.health.storage = self.storage.data;
            },
            Metric::Memory => {
                pass.health.memory = self.memory.data;
            },
            Metric::Cpu => {
                pass.health.cpu = self.cpu.data;
            },
            Metric::Services => {
                pass.health.services_count = self.services.data;
            },
            Metric::AppCounts => {
                pass.health.app_counts = self.app_counts.data;
            },
            Metric::Thermal => {
                pass.health.thermal = self.thermal.data.duplicate();
            },
            Metric::Battery => {
                pass.health.battery_drainers = copy_drainers(&self.battery.data);
            },
        }
        pass.next = pass.next + 1;
        HealthUpdateEvent {
            health: pass.health.duplicate(),
            metrics_updated: copy_names(&pass.updated),
            is_complete: pass.next == METRIC_COUNT,
        }
    }
}

/// The interval between two passes of the monitor: at least one second.
pub fn monitor_interval_ms(interval_ms: u64) -> (r: u64)
    ensures
        r == (if interval_ms >= 1000 {
            interval_ms
        } else {
            1000
        }),
{
    if interval_ms >= 1000 {
        interval_ms
    } else {
        1000
    }
}

/// Whether the monitor collects, from the output of `get-state`: only when
/// the device reports itself ready.
pub fn monitor_should_collect(state_output: &str) -> (r: bool)
    ensures
        r == (trim(state_output@) == "device"@),
{
    crate::text::same_str(&trim_str(state_output), "device")
}

/// On a change of device, no metric of the old device is served: every
/// slot of the health cache is due for reading before the next pass uses
/// it, and a package list stored for another device is not served either.
pub proof fn lemma_device_switch_invalidates(
    before: HealthCache,
    after: HealthCache,
    packages: crate::package_stream::PackageCache,
    device: Seq<char>,
    now: u64,
    force_refresh: bool,
)
    requires
        before.device_id@ != device,
        all_reset(after),
        after.device_id@ == device,
    ensures
        slot_stale(after, Metric::Storage, now),
        slot_stale(after, Metric::Memory, now),
        slot_stale(after, Metric::Cpu, now),
        slot_stale(after, Metric::Services, now),
        slot_stale(after, Metric::AppCounts, now),
        slot_stale(after, Metric::Thermal, now),
        slot_stale(after, Metric::Battery, now),
        (packages.entry matches Some(c) && c.device_serial@ != device) ==> !crate::package_stream::cache_serves(
            packages,
            device,
            force_refresh,
            now,
        ),
{
}

// ===== Battery statistics =====

/// One app line of the battery statistics: the package (or the uid when no
/// package is named), its short name, and the amount drawn as written
/// (the first word after the colon), if any.
#[derive(Debug)]
pub struct DrainerEntry {
    pub package_name: String,
    pub app_name: String,
    pub amount: Option<String>,
}

pub type EntryModel = (Seq<char>, Seq<char>, Option<Seq<char>>);

pub open spec fn entry_view(e: DrainerEntry) -> EntryModel {
    (e.package_name@, e.app_name@, crate::adb::opt_view(e.amount))
}

pub open spec fn entry_views(v: Seq<DrainerEntry>) -> Seq<EntryModel> {
    Seq::new(v.len(), |i: int| entry_view(v[i]))
}

/// The package an app line names: the text between the first `(` and the
/// next `)` of its uid column when there are both, else that column with
/// every `Uid ` removed.
pub open spec fn uid_package(uid: Seq<char>) -> Seq<char> {
    if contains(uid, "("@) && contains(uid, ")"@) {
        split_on(split_on(uid, '(')[1], ')')[0]
    } else {
        remove_all(uid, "Uid "@)
    }
}

/// The entry one line of `dumpsys batterystats` gives, if it gives one: a
/// line that begins with `Uid` and mentions `mAh`, cut at the first `mAh`,
/// then at colons, with at least two pieces.
pub open spec fn drainer_of_line(line: Seq<char>) -> Option<EntryModel> {
    let t = trim(line);
    if starts_with(t, "Uid"@) && contains(t, "mAh"@) {
        match first_from(t, "mAh"@, 0) {
            Some(k) => {
                let parts = split_on(trim(t.subrange(0, k)), ':');
                if parts.len() >= 2 {
                    let pkg = uid_package(trim(parts[0]));
                    let ws = words(trim(parts[1]));
                    Some(
                        (
                            pkg,
                            split_on(pkg, '.').last(),
                            if ws.len() > 0 {
                                Some(ws[0])
                            } else {
                                None
                            },
                        ),
                    )
                } else {
                    None
                }
            },
            None => None,
        }
    } else {
        None
    }
}

pub open spec fn drainers_of_lines(lines: Seq<Seq<char>>) -> Seq<EntryModel>
    decreases lines.len(),
{
    if lines.len() == 0 {
        Seq::empty()
    } else {
        let prev = drainers_of_lines(lines.drop_last());
        match drainer_of_line(lines.last()) {
            Some(e) => prev.push(e),
            None => prev,
        }
    }
}

fn package_of_uid(uid: &Vec<char>) -> (r: Vec<char>)
    ensures
        r@ == uid_package(uid@),
{
    if has_str(uid, "(") && has_str(uid, ")") {
        let pieces = split_char(uid, '(');
        proof {
            reveal_strlit("(");
            assert("("@ =~= seq!['(']);
            let k = choose|k: int| occurs_at(uid@, "("@, k);
            lemma_split_count(uid@, '(', k);
        }
        assert(pieces@[1]@ == split_on(uid@, '(')[1]);
        let inner = split_char(&pieces[1], ')');
        proof {
            lemma_split_on_nonempty(pieces@[1]@, ')');
        }
        assert(inner@[0]@ == split_on(pieces@[1]@, ')')[0]);
        slice_of(&inner[0], 0, inner[0].len())
    } else {
        remove_str(uid, "Uid ")
    }
}

fn parse_drainer_line(line: &Vec<char>) -> (r: Option<DrainerEntry>)
    ensures
        match r {
            Some(e) => drainer_of_line(line@) == Some(entry_view(e)),
            None => drainer_of_line(line@) is None,
        },
{
    let t = trimmed(line);
    if !(starts_str(&t, "Uid") && has_str(&t, "mAh")) {
        return None;
    }
    let unit = chars_of("mAh");
    match find_first(&t, &unit) {
        Some(k) => {
            let before = trimmed(&slice_of(&t, 0, k));
            let parts = split_char(&before, ':');
            if parts.len() < 2 {
                return None;
            }
            assert(parts@[0]@ == split_on(before@, ':')[0]);
            assert(parts@[1]@ == split_on(before@, ':')[1]);
            let pkg = package_of_uid(&trimmed(&parts[0]));
            let ws = split_words(&trimmed(&parts[1]));
            let dots = split_char(&pkg, '.');
            proof {
                lemma_split_on_nonempty(pkg@, '.');
            }
            assert(dots@[dots.len() - 1]@ == split_on(pkg@, '.').last());
            let app = string_of(&dots[dots.len() - 1]);
            let amount = if ws.len() > 0 {
                assert(ws@[0]@ == words(trim(parts@[1]@))[0]);
                Some(string_of(&ws[0]))
            } else {
                None
            };
            Some(DrainerEntry { package_name: string_of(&pkg), app_name: app, amount })
        },
        None => None,
    }
}

/// The app lines of `dumpsys batterystats`, in order.
pub fn battery_entries(output: &str) -> (r: Vec<DrainerEntry>)
    ensures
        entry_views(r@) == drainers_of_lines(split_on(output@, '\n')),
{
    let text = chars_of(output);
    let lines = split_char(&text, '\n');
    let ghost ls = views(lines@);
    let mut out: Vec<DrainerEntry> = Vec::new();
    let mut i: usize = 0;
    assert(ls.subrange(0, 0) =~= Seq::<Seq<char>>::empty());
    assert(entry_views(out@) =~= Seq::<EntryModel>::empty());
    while i < lines.len()
        invariant
            i <= lines.len(),
            ls == views(lines@),
            entry_views(out@) == drainers_of_lines(ls.subrange(0, i as int)),
        decreases lines.len() - i,
    {
        assert(ls.subrange(0, i + 1).drop_last() =~= ls.subrange(0, i as int));
        match parse_drainer_line(&lines[i]) {
            Some(e) => {
                let ghost v = entry_view(e);
                let ghost before = entry_views(out@);
                out.push(e);
                assert(entry_views(out@) =~= before.push(v));
            },
            None => {},
        }
        i += 1;
    }
    assert(ls.subrange(0, lines.len() as int) =~= ls);
    out
}

// ===== Processor load =====

/// A line of `top` that reports the processor load, judged in lower case.
pub open spec fn is_cpu_line(lowered: Seq<char>) -> bool {
    contains(lowered, "cpu"@) && (contains(lowered, "user"@) || contains(lowered, "usr"@))
}

/// The first line of `lines` that reports the processor load.
pub open spec fn first_cpu_line(lines: Seq<Seq<char>>) -> Option<Seq<char>>
    decreases lines.len(),
{
    if lines.len() == 0 {
        None
    } else if is_cpu_line(lower_of(lines[0])) {
        Some(lines[0])
    } else {
        first_cpu_line(lines.drop_first())
    }
}

/// The line of the output of `top` that reports the processor load.
pub fn cpu_line(output: &str) -> (r: Option<String>)
    ensures
        crate::adb::opt_view(r) == first_cpu_line(split_on(output@, '\n')),
{
    let text = chars_of(output);
    let lines = split_char(&text, '\n');
    let ghost ls = views(lines@);
    let n = lines.len();
    let mut i: usize = 0;
    assert(ls.subrange(0, n as int) =~= ls);
    while i < n
        invariant
            i <= n == lines.len(),
            ls == views(lines@),
            ls == split_on(output@, '\n'),
            first_cpu_line(ls) == first_cpu_line(ls.subrange(i as int, n as int)),
        decreases n - i,
    {
        let ghost rest = ls.subrange(i as int, n as int);
        assert(rest.len() > 0 && rest[0] == lines@[i as int]@);
        assert(rest.drop_first() =~= ls.subrange(i + 1, n as int));
        let line = string_of(&lines[i]);
        let low = chars_of(lowercase(line.as_str()).as_str());
        if has_str(&low, "cpu") && (has_str(&low, "user") || has_str(&low, "usr")) {
            return Some(line);
        }
        i += 1;
    }
    None
}

/// Which share of the processor a figure of `top` gives, from the word that
/// follows it.
#[derive(Debug, Clone, Copy, PartialEq, Eq, Structural)]
pub enum CpuField {
    User,
    System,
    Idle,
}

/// The share named by the word after a figure, that word in lower case.
pub open spec fn cpu_field_of(lowered: Seq<char>) -> Option<CpuField> {
    if contains(lowered, "user"@) || contains(lowered, "usr"@) {
        Some(CpuField::User)
    } else if contains(lowered, "sys"@) {
        Some(CpuField::System)
    } else if contains(lowered, "idle"@) || contains(lowered, "idl"@) {
        Some(CpuField::Idle)
    } else {
        None
    }
}

/// The share named by a word already in lower case.
pub fn cpu_field_lowered(lowered: &str) -> (r: Option<CpuField>)
    ensures
        r == cpu_field_of(lowered@),
{
    let w = chars_of(lowered);
    if has_str(&w, "user") || has_str(&w, "usr") {
        Some(CpuField::User)
    } else if has_str(&w, "sys") {
        Some(CpuField::System)
    } else if has_str(&w, "idle") || has_str(&w, "idl") {
        Some(CpuField::Idle)
    } else {
        None
    }
}

/// The share named by the word after a figure, matched without regard to case.
pub fn cpu_field(word: &str) -> (r: Option<CpuField>)
    ensures
        r == cpu_field_of(lower_of(word@)),
{
    let lowered = lowercase(word);
    cpu_field_lowered(lowered.as_str())
}

} // verus!
