use vstd::prelude::*;

use crate::adb::{elapsed, listed_devices, ready_only, texts};
use crate::package_database::{display_name_of, get_display_name, get_safety_level, level_name, safety_of};
use crate::text::{chars_of, decimal, decimal_text, slice_of, starts_with, string_of, trim, trimmed};

verus! {

/// How many packages one batch holds.
pub const CHUNK_SIZE: usize = 30;

/// How long a device's package list stays fresh, in milliseconds.
pub const PACKAGE_CACHE_TTL_MS: u64 = 300_000;

// ===== Records and events =====

/// One package as the enumeration reports it.
#[derive(Debug)]
pub struct StreamedPackage {
    pub package_name: String,
    pub app_name: String,
    pub safety_level: String,
}

/// A package record as plain values: name, display name, safety level.
pub type PackageModel = (Seq<char>, Seq<char>, Seq<char>);

pub open spec fn package_view(p: StreamedPackage) -> PackageModel {
    (p.package_name@, p.app_name@, p.safety_level@)
}

pub open spec fn package_views(v: Seq<StreamedPackage>) -> Seq<PackageModel> {
    Seq::new(v.len(), |i: int| package_view(v[i]))
}

/// The record of the package named `name`.
pub open spec fn record_of(name: Seq<char>) -> PackageModel {
    (name, display_name_of(name), level_name(safety_of(name)))
}

/// A batch of packages, in the order they were found.
#[derive(Debug)]
pub struct PackageChunk {
    pub packages: Vec<StreamedPackage>,
    pub chunk_index: usize,
    pub total_so_far: usize,
    pub is_final: bool,
}

/// How far the enumeration has come.
#[derive(Debug)]
pub struct StreamProgress {
    pub status: String,
    pub packages_loaded: usize,
    pub is_complete: bool,
    pub error: Option<String>,
}

/// The end of an enumeration.
#[derive(Debug)]
pub struct StreamComplete {
    pub total_packages: usize,
    pub duration_ms: u64,
    pub from_cache: bool,
}

/// What the enumeration tells the user interface, in order.
#[derive(Debug)]
pub enum StreamEvent {
    Progress(StreamProgress),
    Chunk(PackageChunk),
    Complete(StreamComplete),
}

/// A `StreamEvent` as plain values.
pub enum EventModel {
    Progress { status: Seq<char>, loaded: usize, complete: bool, error: Option<Seq<char>> },
    Chunk { packages: Seq<PackageModel>, index: usize, total: usize, is_final: bool },
    Complete { total: usize, duration_ms: u64, from_cache: bool },
}

pub open spec fn event_view(e: StreamEvent) -> EventModel {
    match e {
        StreamEvent::Progress(p) => EventModel::Progress {
            status: p.status@,
            loaded: p.packages_loaded,
            complete: p.is_complete,
            error: crate::adb::opt_view(p.error),
        },
        StreamEvent::Chunk(c) => EventModel::Chunk {
            packages: package_views(c.packages@),
            index: c.chunk_index,
            total: c.total_so_far,
            is_final: c.is_final,
        },
        StreamEvent::Complete(c) => EventModel::Complete {
            total: c.total_packages,
            duration_ms: c.duration_ms,
            from_cache: c.from_cache,
        },
    }
}

pub open spec fn event_views(v: Seq<StreamEvent>) -> Seq<EventModel> {
    Seq::new(v.len(), |i: int| event_view(v[i]))
}

/// The record of the package named `name`: its display name and safety level.
pub fn classify_package(name: String) -> (r: StreamedPackage)
    ensures
        package_view(r) == record_of(name@),
{
    let app_name = get_display_name(name.as_str());
    let level = get_safety_level(name.as_str());
    StreamedPackage { package_name: name, app_name, safety_level: level.as_str().to_owned() }
}

impl StreamedPackage {
    /// A copy of this record.
    pub fn duplicate(&self) -> (r: StreamedPackage)
        ensures
            package_view(r) == package_view(*self),
    {
        StreamedPackage {
            package_name: self.package_name.clone(),
            app_name: self.app_name.clone(),
            safety_level: self.safety_level.clone(),
        }
    }
}

/// `prefix`, the number `n` in decimal, then `suffix`.
pub fn with_number(prefix: &str, n: usize, suffix: &str) -> (r: String)
    ensures
        r@ == prefix@ + decimal_text(n as nat) + suffix@,
{
    let mut v = chars_of(prefix);
    let mut d = decimal(n as u64);
    let mut s = chars_of(suffix);
    v.append(&mut d);
    v.append(&mut s);
    string_of(&v)
}

fn progress(status: String, loaded: usize, complete: bool) -> (r: StreamEvent)
    ensures
        event_view(r) == (EventModel::Progress {
            status: status@,
            loaded,
            complete,
            error: None,
        }),
{
    StreamEvent::Progress(
        StreamProgress { status, packages_loaded: loaded, is_complete: complete, error: None },
    )
}

/// The event that reports a failed enumeration.
pub fn stream_error_event(error: String) -> (r: StreamEvent)
    ensures
        event_view(r) == (EventModel::Progress {
            status: "Error loading packages"@,
            loaded: 0,
            complete: true,
            error: Some(error@),
        }),
{
    StreamEvent::Progress(
        StreamProgress {
            status: "Error loading packages".to_owned(),
            packages_loaded: 0,
            is_complete: true,
            error: Some(error),
        },
    )
}

// ===== Ordering =====

/// `a` comes before `b`, or equals it, in the order of `String`'s `Ord`:
/// lexicographic, character by character, by code point.
pub open spec fn name_le(a: Seq<char>, b: Seq<char>) -> bool
    decreases a.len(),
{
    if a.len() == 0 {
        true
    } else if b.len() == 0 {
        false
    } else if a[0] != b[0] {
        (a[0] as u32) < (b[0] as u32)
    } else {
        name_le(a.drop_first(), b.drop_first())
    }
}

/// The records are in order of package name.
pub open spec fn sorted_by_name(v: Seq<PackageModel>) -> bool {
    forall|i: int, j: int| 0 <= i < j < v.len() ==> name_le(v[i].0, v[j].0)
}

/// Relies on `slice::sort_by` with `String`'s `cmp` on the package names:
/// the records are permuted into order of name.
#[verifier::external_body]
pub(crate) fn sort_by_name(v: &mut Vec<StreamedPackage>)
    ensures
        package_views(final(v)@).to_multiset() == package_views(old(v)@).to_multiset(),
        sorted_by_name(package_views(final(v)@)),
{
    v.sort_by(|a, b| a.package_name.cmp(&b.package_name));
}

// ===== Batches =====

/// The `i`-th batch of `ps`: up to `CHUNK_SIZE` records from index `30 * i`.
pub open spec fn batch(ps: Seq<PackageModel>, i: int) -> Seq<PackageModel> {
    let from = 30 * i;
    let to = if from + 30 <= ps.len() {
        from + 30
    } else {
        ps.len() as int
    };
    ps.subrange(from, to)
}

/// How many batches `n` records make.
pub open spec fn batch_count(n: nat) -> nat {
    ((n + 29) / 30) as nat
}

/// All the batches of `ps`, in order.
pub open spec fn batches(ps: Seq<PackageModel>) -> Seq<Seq<PackageModel>> {
    Seq::new(batch_count(ps.len()), |i: int| batch(ps, i))
}

/// The batches `bs` one after the other.
pub open spec fn flatten(bs: Seq<Seq<PackageModel>>) -> Seq<PackageModel>
    decreases bs.len(),
{
    if bs.len() == 0 {
        Seq::empty()
    } else {
        flatten(bs.drop_last()) + bs.last()
    }
}

proof fn lemma_flatten_prefix(ps: Seq<PackageModel>, k: int)
    requires
        0 <= k <= batch_count(ps.len()),
    ensures
        flatten(Seq::new(k as nat, |i: int| batch(ps, i))) == ps.subrange(
            0,
            if 30 * k <= ps.len() {
                30 * k
            } else {
                ps.len() as int
            },
        ),
    decreases k,
{
    let bs = Seq::new(k as nat, |i: int| batch(ps, i));
    if k == 0 {
        assert(ps.subrange(0, 0) =~= Seq::<PackageModel>::empty());
    } else {
        lemma_flatten_prefix(ps, k - 1);
        assert(bs.drop_last() =~= Seq::new((k - 1) as nat, |i: int| batch(ps, i)));
        assert(30 * (k - 1) < ps.len());
        let end = if 30 * k <= ps.len() {
            30 * k
        } else {
            ps.len() as int
        };
        assert(ps.subrange(0, 30 * (k - 1)) + ps.subrange(30 * (k - 1), end) =~= ps.subrange(
            0,
            end,
        ));
    }
}

/// The batches of a list, one after the other, give the list back.
pub proof fn lemma_batches_flatten(ps: Seq<PackageModel>)
    ensures
        flatten(batches(ps)) == ps,
{
    let k = batch_count(ps.len()) as int;
    lemma_flatten_prefix(ps, k);
    assert(30 * k >= ps.len());
    assert(ps.subrange(0, ps.len() as int) =~= ps);
}

// ===== Live enumeration =====

/// The package that one line of `pm list packages` names, if it names one.
pub open spec fn package_of_line(line: Seq<char>) -> Option<Seq<char>> {
    if starts_with(line, "package:"@) {
        let name = trim(line.subrange("package:"@.len() as int, line.len() as int));
        if name.len() > 0 {
            Some(name)
        } else {
            None
        }
    } else {
        None
    }
}

/// The package that one line names, if it names one.
pub fn package_name_of_line(line: &Vec<char>) -> (r: Option<String>)
    ensures
        match r {
            Some(n) => package_of_line(line@) == Some(n@),
            None => package_of_line(line@) is None,
        },
{
    let prefix = chars_of("package:");
    if !crate::text::starts(line, &prefix) {
        return None;
    }
    let rest = slice_of(line, prefix.len(), line.len());
    let name = trimmed(&rest);
    if name.len() == 0 {
        return None;
    }
    Some(string_of(&name))
}

/// An enumeration pass in progress: every record found so far, in discovery
/// order, and the batch still being filled.
pub struct PackageStream {
    pub all: Vec<StreamedPackage>,
    pub chunk: Vec<StreamedPackage>,
    pub chunk_index: usize,
}

impl PackageStream {
    /// The batch being filled is what follows the full batches already sent.
    pub open spec fn wf(&self) -> bool {
        &&& self.chunk@.len() < 30
        &&& self.all@.len() == 30 * self.chunk_index + self.chunk@.len()
        &&& package_views(self.chunk@) == package_views(self.all@).subrange(
            30 * self.chunk_index,
            self.all@.len() as int,
        )
    }

    /// A pass that has found nothing yet, and the event that announces it.
    pub fn new() -> (r: (PackageStream, StreamEvent))
        ensures
            r.0.wf(),
            r.0.all@.len() == 0,
            event_view(r.1) == (EventModel::Progress {
                status: "Starting package scan..."@,
                loaded: 0,
                complete: false,
                error: None,
            }),
    {
        let s = PackageStream { all: Vec::new(), chunk: Vec::new(), chunk_index: 0 };
        assert(package_views(s.chunk@) =~= package_views(s.all@).subrange(0, 0));
        (s, progress("Starting package scan...".to_owned(), 0, false))
    }

    /// Takes in one line of the listing: a line that names a package adds its
    /// record; when that fills the batch, the batch goes out with a progress
    /// event.
    pub fn on_line(&mut self, line: &str) -> (r: Vec<StreamEvent>)
        requires
            old(self).wf(),
        ensures
            final(self).wf(),
            match package_of_line(line@) {
                None => r@.len() == 0 && package_views(final(self).all@) == package_views(
                    old(self).all@,
                ) && final(self).chunk_index == old(self).chunk_index,
                Some(name) => {
                    &&& package_views(final(self).all@) == package_views(old(self).all@).push(
                        record_of(name),
                    )
                    &&& if old(self).chunk@.len() + 1 == 30 {
                        &&& final(self).chunk_index == old(self).chunk_index + 1
                        &&& event_views(r@) == seq![
                            EventModel::Chunk {
                                packages: batch(
                                    package_views(final(self).all@),
                                    old(self).chunk_index as int,
                                ),
                                index: old(self).chunk_index,
                                total: final(self).all@.len() as usize,
                                is_final: false,
                            },
                            EventModel::Progress {
                                status: "Loading packages... ("@ + decimal_text(
                                    final(self).all@.len(),
                                ) + ")"@,
                                loaded: final(self).all@.len() as usize,
                                complete: false,
                                error: None,
                            },
                        ]
                    } else {
                        &&& final(self).chunk_index == old(self).chunk_index
                        &&& r@.len() == 0
                    }
                },
            },
    {
        let v = chars_of(line);
        let mut events: Vec<StreamEvent> = Vec::new();
        match package_name_of_line(&v) {
            None => events,
            Some(name) => {
                let ghost old_all = package_views(self.all@);
                let ghost old_chunk = package_views(self.chunk@);
                let ghost rec = record_of(package_of_line(v@)->0);
                let pkg = classify_package(name);
                let copy = pkg.duplicate();
                self.chunk.push(copy);
                self.all.push(pkg);
                let ghost all_v = package_views(self.all@);
                assert(all_v =~= old_all.push(rec));
                assert(package_views(self.chunk@) =~= old_chunk.push(rec));
                assert(old_all.subrange(30 * self.chunk_index, old_all.len() as int).push(rec)
                    =~= all_v.subrange(30 * self.chunk_index, all_v.len() as int));
                assert(package_views(self.chunk@) =~= all_v.subrange(
                    30 * self.chunk_index,
                    self.all@.len() as int,
                ));
                if self.chunk.len() >= CHUNK_SIZE {
                    let mut full: Vec<StreamedPackage> = Vec::new();
                    std::mem::swap(&mut full, &mut self.chunk);
                    let index = self.chunk_index;
                    let total = self.all.len();
                    self.chunk_index = self.chunk_index + 1;
                    assert(package_views(full@) == batch(all_v, index as int));
                    events.push(
                        StreamEvent::Chunk(
                            PackageChunk {
                                packages: full,
                                chunk_index: index,
                                total_so_far: total,
                                is_final: false,
                            },
                        ),
                    );
                    events.push(progress(with_number("Loading packages... (", total, ")"), total, false));
                    assert(package_views(self.chunk@) =~= all_v.subrange(
                        30 * self.chunk_index,
                        self.all@.len() as int,
                    ));
                    assert(event_views(events@) =~= seq![
                        EventModel::Chunk {
                            packages: batch(all_v, index as int),
                            index,
                            total,
                            is_final: false,
                        },
                        EventModel::Progress {
                            status: "Loading packages... ("@ + decimal_text(total as nat) + ")"@,
                            loaded: total,
                            complete: false,
                            error: None,
                        },
                    ]);
                }
                events
            },
        }
    }

    /// Ends the pass once the listing command has exited. On failure nothing is
    /// returned to cache. On success: the last, partial batch if there is one,
    /// the completion and progress events, and every record found, sorted by
    /// package name.
    pub fn finish(self, success: bool, duration_ms: u64) -> (r: Result<
        (Vec<StreamEvent>, Vec<StreamedPackage>),
        String,
    >)
        requires
            self.wf(),
        ensures
            !success ==> (r matches Err(e) && e@ == "ADB command failed"@),
            success ==> (r matches Ok((events, sorted)) && {
                &&& package_views(sorted@).to_multiset() == package_views(self.all@).to_multiset()
                &&& sorted_by_name(package_views(sorted@))
                &&& event_views(events@) == closing_events(
                    package_views(self.all@),
                    self.chunk_index,
                    self.chunk@.len() > 0,
                    duration_ms,
                )
                &&& sent_batches(package_views(self.all@), self.chunk_index, self.chunk@.len() > 0)
                    == batches(package_views(self.all@))
                &&& flatten(batches(package_views(self.all@))).to_multiset() == package_views(
                    sorted@,
                ).to_multiset()
            }),
    {
        if !success {
            return Err("ADB command failed".to_owned());
        }
        let ghost all_v = package_views(self.all@);
        let PackageStream { mut all, chunk, chunk_index } = self;
        let total = all.len();
        let mut events: Vec<StreamEvent> = Vec::new();
        let had_chunk = chunk.len() > 0;
        if had_chunk {
            assert(package_views(chunk@) == batch(all_v, chunk_index as int));
            events.push(
                StreamEvent::Chunk(
                    PackageChunk {
                        packages: chunk,
                        chunk_index,
                        total_so_far: total,
                        is_final: true,
                    },
                ),
            );
        }
        sort_by_name(&mut all);
        events.push(
            StreamEvent::Complete(
                StreamComplete { total_packages: total, duration_ms, from_cache: false },
            ),
        );
        events.push(progress(with_number("Loaded ", total, " packages"), total, true));
        assert(event_views(events@) =~= closing_events(all_v, chunk_index, had_chunk, duration_ms));
        proof {
            let n = all_v.len();
            let c = if had_chunk {
                1int
            } else {
                0int
            };
            assert(batch_count(n) == chunk_index + c) by (nonlinear_arith)
                requires
                    n == 30 * chunk_index + (n - 30 * chunk_index),
                    0 <= n - 30 * chunk_index < 30,
                    had_chunk <==> n - 30 * chunk_index > 0,
                    c == (if had_chunk {
                        1int
                    } else {
                        0int
                    }),
                    batch_count(n) == (n + 29) / 30,
            ;
            assert(sent_batches(all_v, chunk_index, had_chunk) =~= batches(all_v));
            lemma_batches_flatten(all_v);
        }
        Ok((events, all))
    }
}

/// The batches a pass sends: the `chunk_index` full ones while it reads,
/// then the partial one at the end when `pending`.
pub open spec fn sent_batches(all: Seq<PackageModel>, chunk_index: usize, pending: bool) -> Seq<
    Seq<PackageModel>,
> {
    Seq::new(chunk_index as nat, |i: int| batch(all, i)) + if pending {
        seq![batch(all, chunk_index as int)]
    } else {
        Seq::empty()
    }
}

/// The events that close a successful pass that found `all`, with
/// `chunk_index` full batches sent and `pending` telling whether a partial
/// batch is left.
pub open spec fn closing_events(
    all: Seq<PackageModel>,
    chunk_index: usize,
    pending: bool,
    duration_ms: u64,
) -> Seq<EventModel> {
    let last = if pending {
        seq![
            EventModel::Chunk {
                packages: batch(all, chunk_index as int),
                index: chunk_index,
                total: all.len() as usize,
                is_final: true,
            },
        ]
    } else {
        Seq::empty()
    };
    last + seq![
        EventModel::Complete { total: all.len() as usize, duration_ms, from_cache: false },
        EventModel::Progress {
            status: "Loaded "@ + decimal_text(all.len()) + " packages"@,
            loaded: all.len() as usize,
            complete: true,
            error: None,
        },
    ]
}

// ===== Replay from the cache =====

/// The `i`-th batch event of a replay of `ps`.
pub open spec fn replay_chunk(ps: Seq<PackageModel>, i: int) -> EventModel {
    EventModel::Chunk {
        packages: batch(ps, i),
        index: i as usize,
        total: (if 30 * (i + 1) <= ps.len() {
            30 * (i + 1)
        } else {
            ps.len() as int
        }) as usize,
        is_final: 30 * (i + 1) >= ps.len(),
    }
}

/// The events that replay the cached list `ps`: the same shape as a live
/// pass, every batch at once, marked as coming from the cache.
pub open spec fn replay_model(ps: Seq<PackageModel>) -> Seq<EventModel> {
    seq![
        EventModel::Progress {
            status: "Loading from cache..."@,
            loaded: 0,
            complete: false,
            error: None,
        },
    ] + Seq::new(batch_count(ps.len()), |i: int| replay_chunk(ps, i)) + seq![
        EventModel::Complete { total: ps.len() as usize, duration_ms: 0, from_cache: true },
        EventModel::Progress {
            status: "Loaded "@ + decimal_text(ps.len()) + " packages (cached)"@,
            loaded: ps.len() as usize,
            complete: true,
            error: None,
        },
    ]
}

fn copy_range(v: &Vec<StreamedPackage>, from: usize, to: usize) -> (r: Vec<StreamedPackage>)
    requires
        from <= to <= v.len(),
    ensures
        package_views(r@) == package_views(v@).subrange(from as int, to as int),
{
    let mut out: Vec<StreamedPackage> = Vec::new();
    let mut k: usize = from;
    while k < to
        invariant
            from <= k <= to <= v.len(),
            out@.len() == k - from,
            forall|j: int| 0 <= j < out@.len() ==> package_view(out@[j]) == package_view(
                v@[from + j],
            ),
        decreases to - k,
    {
        out.push(v[k].duplicate());
        k += 1;
    }
    assert(package_views(out@) =~= package_views(v@).subrange(from as int, to as int));
    out
}

/// The events that replay a cached list.
pub fn replay_events(packages: &Vec<StreamedPackage>) -> (r: Vec<StreamEvent>)
    ensures
        event_views(r@) == replay_model(package_views(packages@)),
{
    let ghost ps = package_views(packages@);
    let n = packages.len();
    let mut events: Vec<StreamEvent> = Vec::new();
    events.push(progress("Loading from cache...".to_owned(), 0, false));
    let ghost head = event_views(events@);
    let mut k: usize = 0;
    let mut from: usize = 0;
    assert(event_views(events@) =~= head + Seq::new(0, |i: int| replay_chunk(ps, i)));
    while from < n
        invariant
            n == packages.len(),
            ps == package_views(packages@),
            from == (if 30 * k <= n {
                30 * k
            } else {
                n as int
            }),
            k == 0 || 30 * (k - 1) < n,
            event_views(events@) == head + Seq::new(k as nat, |i: int| replay_chunk(ps, i)),
        decreases n - from,
    {
        let to: usize = if n - from >= CHUNK_SIZE {
            from + CHUNK_SIZE
        } else {
            n
        };
        let chunk = copy_range(packages, from, to);
        let ghost before = event_views(events@);
        events.push(
            StreamEvent::Chunk(
                PackageChunk { packages: chunk, chunk_index: k, total_so_far: to, is_final: to == n },
            ),
        );
        assert(event_views(events@) =~= before.push(replay_chunk(ps, k as int)));
        assert(head + Seq::new((k + 1) as nat, |i: int| replay_chunk(ps, i)) =~= (head + Seq::new(
            k as nat,
            |i: int| replay_chunk(ps, i),
        )).push(replay_chunk(ps, k as int)));
        k += 1;
        from = to;
    }
    assert(k == batch_count(n as nat)) by (nonlinear_arith)
        requires
            30 * k >= n,
            k == 0 || 30 * (k - 1) < n,
    ;
    let ghost middle = event_views(events@);
    assert(middle == head + Seq::new(batch_count(ps.len()), |i: int| replay_chunk(ps, i)));
    events.push(
        StreamEvent::Complete(StreamComplete { total_packages: n, duration_ms: 0, from_cache: true }),
    );
    events.push(progress(with_number("Loaded ", n, " packages (cached)"), n, true));
    assert(event_views(events@) =~= middle + seq![
        EventModel::Complete { total: ps.len() as usize, duration_ms: 0, from_cache: true },
        EventModel::Progress {
            status: "Loaded "@ + decimal_text(ps.len()) + " packages (cached)"@,
            loaded: ps.len() as usize,
            complete: true,
            error: None,
        },
    ]);
    assert(event_views(events@) =~= replay_model(ps));
    events
}

// ===== Package cache =====

/// The full list of one device, and when it was stored.
pub struct CachedPackages {
    pub packages: Vec<StreamedPackage>,
    pub timestamp: u64,
    pub device_serial: String,
}

/// The package list of the last device enumerated, if any.
pub struct PackageCache {
    pub entry: Option<CachedPackages>,
}

/// Whether the cache may serve device `serial` at time `now`: a list is held
/// for that very device, it is younger than the time to live, and no refresh
/// is forced. A list of another device is treated as absent.
pub open spec fn cache_serves(cache: PackageCache, serial: Seq<char>, force_refresh: bool, now: u64) -> bool {
    !force_refresh && match cache.entry {
        Some(c) => c.device_serial@ == serial && elapsed(c.timestamp, now) < PACKAGE_CACHE_TTL_MS,
        None => false,
    }
}

/// The arguments of the bridge command that lists every package of `serial`.
pub open spec fn package_listing_command(serial: Seq<char>) -> Seq<Seq<char>> {
    seq!["-s"@, serial, "shell"@, "pm"@, "list"@, "packages"@, "-a"@]
}

/// How an enumeration starts: replayed from the cache, or by running the
/// listing command and feeding its lines to a `PackageStream`.
pub enum StreamStart {
    Replay(Vec<StreamEvent>),
    Fetch(Vec<String>),
}

fn listing_args(serial: &str) -> (r: Vec<String>)
    ensures
        texts(r@) == package_listing_command(serial@),
{
    let mut v: Vec<String> = Vec::new();
    v.push("-s".to_owned());
    v.push(serial.to_owned());
    v.push("shell".to_owned());
    v.push("pm".to_owned());
    v.push("list".to_owned());
    v.push("packages".to_owned());
    v.push("-a".to_owned());
    assert(texts(v@) =~= package_listing_command(serial@));
    v
}

impl PackageCache {
    pub fn new() -> (r: PackageCache)
        ensures
            r.entry is None,
    {
        PackageCache { entry: None }
    }
}

/// Starts an enumeration for device `serial` at time `now`.
pub fn start_package_stream(
    cache: &PackageCache,
    serial: &str,
    force_refresh: bool,
    now: u64,
) -> (r: StreamStart)
    ensures
        cache_serves(*cache, serial@, force_refresh, now) ==> (r matches StreamStart::Replay(
            events,
        ) && cache.entry matches Some(c) && event_views(events@) == replay_model(
            package_views(c.packages@),
        )),
        !cache_serves(*cache, serial@, force_refresh, now) ==> (r matches StreamStart::Fetch(args)
            && texts(args@) == package_listing_command(serial@)),
{
    if !force_refresh {
        match &cache.entry {
            Some(c) => {
                let same = crate::text::same_text(
                    &chars_of(c.device_serial.as_str()),
                    &chars_of(serial),
                );
                let age: u64 = if now >= c.timestamp {
                    now - c.timestamp
                } else {
                    0
                };
                if same && age < PACKAGE_CACHE_TTL_MS {
                    return StreamStart::Replay(replay_events(&c.packages));
                }
            },
            None => {},
        }
    }
    StreamStart::Fetch(listing_args(serial))
}

/// Stores the list of a finished pass for device `serial`, taken at `now`.
pub fn store_packages(
    cache: &mut PackageCache,
    serial: String,
    packages: Vec<StreamedPackage>,
    now: u64,
)
    ensures
        final(cache).entry == Some(
            CachedPackages { packages, timestamp: now, device_serial: serial },
        ),
{
    cache.entry = Some(CachedPackages { packages, timestamp: now, device_serial: serial });
}

/// A copy of the cached list, whatever device it belongs to.
pub fn get_cached_packages(cache: &PackageCache) -> (r: Result<Vec<StreamedPackage>, String>)
    ensures
        match cache.entry {
            Some(c) => r matches Ok(ps) && package_views(ps@) == package_views(c.packages@),
            None => r matches Err(e) && e@ == "No cached packages available"@,
        },
{
    match &cache.entry {
        Some(c) => Ok(copy_range(&c.packages, 0, c.packages.len())),
        None => Err("No cached packages available".to_owned()),
    }
}

/// Empties the cache.
pub fn clear_package_cache(cache: &mut PackageCache)
    ensures
        final(cache).entry is None,
{
    cache.entry = None;
}

/// What the cache holds, for display.
#[derive(Debug)]
pub struct CacheStatus {
    pub has_cache: bool,
    pub package_count: usize,
    pub device_serial: Option<String>,
    pub age_seconds: u64,
    pub is_expired: bool,
}

/// What the cache holds at time `now`: whether there is a list, how long it
/// is, whose it is, its age in whole seconds, and whether it has expired.
pub fn get_cache_status(cache: &PackageCache, now: u64) -> (r: CacheStatus)
    ensures
        match cache.entry {
            Some(c) => {
                &&& r.has_cache
                &&& r.package_count == c.packages@.len()
                &&& r.device_serial matches Some(s) && s@ == c.device_serial@
                &&& r.age_seconds == elapsed(c.timestamp, now) / 1000
                &&& r.is_expired == (elapsed(c.timestamp, now) >= PACKAGE_CACHE_TTL_MS)
            },
            None => !r.has_cache && r.package_count == 0 && r.device_serial is None
                && r.age_seconds == 0 && !r.is_expired,
        },
{
    match &cache.entry {
        Some(c) => {
            let age: u64 = if now >= c.timestamp {
                now - c.timestamp
            } else {
                0
            };
            CacheStatus {
                has_cache: true,
                package_count: c.packages.len(),
                device_serial: Some(c.device_serial.clone()),
                age_seconds: age / 1000,
                is_expired: age >= PACKAGE_CACHE_TTL_MS,
            }
        },
        None => CacheStatus {
            has_cache: false,
            package_count: 0,
            device_serial: None,
            age_seconds: 0,
            is_expired: false,
        },
    }
}

/// The device an enumeration is for: the first ready device that the output
/// of `devices -l` lists.
pub fn stream_device_serial(listing: String) -> (r: Result<String, String>)
    ensures
        ready_only(listed_devices(listing@)).len() > 0 ==> (r matches Ok(s) && s@ == ready_only(
            listed_devices(listing@),
        )[0].serial),
        ready_only(listed_devices(listing@)).len() == 0 ==> (r matches Err(e) && e@
            == "No device connected"@),
{
    let all = crate::adb::parse_adb_devices(listing);
    let ready = crate::adb::ready_devices(&all);
    if ready.len() == 0 {
        return Err("No device connected".to_owned());
    }
    Ok(ready[0].serial.clone())
}

/// Once a pass for device `serial` has stored its list at `stored_at`, a new
/// start for that device without forced refresh, less than the time to live
/// later, runs no bridge command: it replays the stored list, marked as
/// coming from the cache, with every record in its batches.
pub proof fn lemma_restart_within_ttl_replays(
    cache: PackageCache,
    serial: Seq<char>,
    stored_at: u64,
    now: u64,
)
    requires
        cache.entry matches Some(c) && c.device_serial@ == serial && c.timestamp == stored_at,
        stored_at <= now,
        now - stored_at < PACKAGE_CACHE_TTL_MS,
    ensures
        cache_serves(cache, serial, false, now),
        cache.entry matches Some(c) && ({
            let ps = package_views(c.packages@);
            let events = replay_model(ps);
            &&& events[events.len() - 2] == (EventModel::Complete {
                total: ps.len() as usize,
                duration_ms: 0,
                from_cache: true,
            })
            &&& flatten(batches(ps)) == ps
        }),
{
    let c = cache.entry->0;
    lemma_batches_flatten(package_views(c.packages@));
}

} // verus!
