use vstd::prelude::*;

use crate::text::{chars_of, contains, find_char, has_str, index_of, join2, lemma_index_of_bounds, same_str, slice_of, split_char, split_on, split_words, starts_str, starts_with, string_of, trim, trimmed, views, words, first_from};

verus! {

// ===== Errors =====

/// What can go wrong when talking to the device bridge.
#[derive(Debug, Clone, PartialEq, Eq)]
pub enum AdbError {
    NoDeviceConnected,
    AdbNotFound,
    AdbServerNotRunning,
    DeviceOffline,
    DeviceUnauthorized,
    PermissionDenied,
    Timeout,
    CommandFailed(String),
    ParseError(String),
}

/// An `AdbError` as plain values.
pub enum ErrorModel {
    NoDeviceConnected,
    AdbNotFound,
    AdbServerNotRunning,
    DeviceOffline,
    DeviceUnauthorized,
    PermissionDenied,
    Timeout,
    CommandFailed(Seq<char>),
    ParseError(Seq<char>),
}

impl View for AdbError {
    type V = ErrorModel;

    open spec fn view(&self) -> ErrorModel {
        match self {
            AdbError::NoDeviceConnected => ErrorModel::NoDeviceConnected,
            AdbError::AdbNotFound => ErrorModel::AdbNotFound,
            AdbError::AdbServerNotRunning => ErrorModel::AdbServerNotRunning,
            AdbError::DeviceOffline => ErrorModel::DeviceOffline,
            AdbError::DeviceUnauthorized => ErrorModel::DeviceUnauthorized,
            AdbError::PermissionDenied => ErrorModel::PermissionDenied,
            AdbError::Timeout => ErrorModel::Timeout,
            AdbError::CommandFailed(m) => ErrorModel::CommandFailed(m@),
            AdbError::ParseError(m) => ErrorModel::ParseError(m@),
        }
    }
}

/// The sentence shown to the user for each error.
pub open spec fn error_message(e: ErrorModel) -> Seq<char> {
    match e {
        ErrorModel::NoDeviceConnected =>
            "No Android device connected. Please connect a device via USB or TCP."@,
        ErrorModel::AdbNotFound =>
            "ADB (Android Debug Bridge) not found. Please install Android SDK Platform Tools."@,
        ErrorModel::AdbServerNotRunning =>
            "ADB server is not running. Try running 'adb start-server'."@,
        ErrorModel::DeviceOffline =>
            "Device is offline. Please check the USB connection or reconnect the device."@,
        ErrorModel::DeviceUnauthorized =>
            "Device is unauthorized. Please check the device screen for USB debugging authorization prompt."@,
        ErrorModel::PermissionDenied =>
            "Permission denied. Try running the application with elevated privileges."@,
        ErrorModel::Timeout => "ADB command timed out. Please check your device connection."@,
        ErrorModel::CommandFailed(m) => "ADB command failed: "@ + m,
        ErrorModel::ParseError(m) => "Failed to parse ADB output: "@ + m,
    }
}

impl AdbError {
    /// The sentence shown to the user for this error.
    pub fn message(&self) -> (r: String)
        ensures
            r@ == error_message(self@),
    {
        match self {
            AdbError::NoDeviceConnected =>
                "No Android device connected. Please connect a device via USB or TCP.".to_owned(),
            AdbError::AdbNotFound =>
                "ADB (Android Debug Bridge) not found. Please install Android SDK Platform Tools.".to_owned(),
            AdbError::AdbServerNotRunning =>
                "ADB server is not running. Try running 'adb start-server'.".to_owned(),
            AdbError::DeviceOffline =>
                "Device is offline. Please check the USB connection or reconnect the device.".to_owned(),
            AdbError::DeviceUnauthorized =>
                "Device is unauthorized. Please check the device screen for USB debugging authorization prompt.".to_owned(),
            AdbError::PermissionDenied =>
                "Permission denied. Try running the application with elevated privileges.".to_owned(),
            AdbError::Timeout =>
                "ADB command timed out. Please check your device connection.".to_owned(),
            AdbError::CommandFailed(m) => join2("ADB command failed: ", m.as_str()),
            AdbError::ParseError(m) => join2("Failed to parse ADB output: ", m.as_str()),
        }
    }
}

/// The error that a failed bridge command reports, from what it wrote to its
/// error stream, trimmed: the first pattern that matches decides. The
/// synonyms `device not found` and `access denied` are checked only after
/// every other pattern.
pub open spec fn failure_model(stderr: Seq<char>) -> ErrorModel {
    let m = trim(stderr);
    if contains(m, "no devices/emulators found"@) {
        ErrorModel::NoDeviceConnected
    } else if contains(m, "device offline"@) {
        ErrorModel::DeviceOffline
    } else if contains(m, "device unauthorized"@) {
        ErrorModel::DeviceUnauthorized
    } else if contains(m, "daemon not running"@) || contains(m, "cannot connect"@) {
        ErrorModel::AdbServerNotRunning
    } else if contains(m, "permission denied"@) {
        ErrorModel::PermissionDenied
    } else if contains(m, "device not found"@) {
        ErrorModel::NoDeviceConnected
    } else if contains(m, "access denied"@) {
        ErrorModel::PermissionDenied
    } else {
        ErrorModel::CommandFailed(m)
    }
}

/// Classifies the error stream of a bridge command that exited with failure.
pub fn classify_failure(stderr: &str) -> (r: AdbError)
    ensures
        r@ == failure_model(stderr@),
{
    let m = crate::text::trim_str(stderr);
    if has_str(&m, "no devices/emulators found") {
        AdbError::NoDeviceConnected
    } else if has_str(&m, "device offline") {
        AdbError::DeviceOffline
    } else if has_str(&m, "device unauthorized") {
        AdbError::DeviceUnauthorized
    } else if has_str(&m, "daemon not running") || has_str(&m, "cannot connect") {
        AdbError::AdbServerNotRunning
    } else if has_str(&m, "permission denied") {
        AdbError::PermissionDenied
    } else if has_str(&m, "device not found") {
        AdbError::NoDeviceConnected
    } else if has_str(&m, "access denied") {
        AdbError::PermissionDenied
    } else {
        AdbError::CommandFailed(string_of(&m))
    }
}

/// What a finished bridge command yields: its output when it exited with
/// success, else the classified error.
pub fn bridge_outcome(success: bool, stdout: String, stderr: &str) -> (r: Result<String, AdbError>)
    ensures
        success ==> r == Ok::<String, AdbError>(stdout),
        !success ==> (r matches Err(e) && e@ == failure_model(stderr@)),
{
    if success {
        Ok(stdout)
    } else {
        Err(classify_failure(stderr))
    }
}

// ===== Devices =====

/// A device as the bridge lists it.
#[derive(Debug, Clone, PartialEq, Eq)]
pub struct DeviceInfo {
    pub serial: String,
    pub state: String,
    pub model: Option<String>,
    pub product: Option<String>,
    pub device: Option<String>,
    pub transport_id: Option<String>,
}

/// A `DeviceInfo` as plain values.
pub struct DeviceModel {
    pub serial: Seq<char>,
    pub state: Seq<char>,
    pub model: Option<Seq<char>>,
    pub product: Option<Seq<char>>,
    pub device: Option<Seq<char>>,
    pub transport_id: Option<Seq<char>>,
}

pub open spec fn opt_view(o: Option<String>) -> Option<Seq<char>> {
    match o {
        Some(s) => Some(s@),
        None => None,
    }
}

impl View for DeviceInfo {
    type V = DeviceModel;

    open spec fn view(&self) -> DeviceModel {
        DeviceModel {
            serial: self.serial@,
            state: self.state@,
            model: opt_view(self.model),
            product: opt_view(self.product),
            device: opt_view(self.device),
            transport_id: opt_view(self.transport_id),
        }
    }
}

pub open spec fn device_views(v: Seq<DeviceInfo>) -> Seq<DeviceModel> {
    Seq::new(v.len(), |i: int| v[i]@)
}

fn copy_opt(o: &Option<String>) -> (r: Option<String>)
    ensures
        opt_view(r) == opt_view(*o),
{
    match o {
        Some(s) => Some(s.clone()),
        None => None,
    }
}

impl DeviceInfo {
    /// A copy of this record.
    pub fn duplicate(&self) -> (r: DeviceInfo)
        ensures
            r@ == self@,
    {
        DeviceInfo {
            serial: self.serial.clone(),
            state: self.state.clone(),
            model: copy_opt(&self.model),
            product: copy_opt(&self.product),
            device: copy_opt(&self.device),
            transport_id: copy_opt(&self.transport_id),
        }
    }
}

pub fn copy_devices(v: &Vec<DeviceInfo>) -> (r: Vec<DeviceInfo>)
    ensures
        device_views(r@) == device_views(v@),
{
    let mut out: Vec<DeviceInfo> = Vec::new();
    let mut i: usize = 0;
    while i < v.len()
        invariant
            i <= v.len(),
            out.len() == i,
            forall|k: int| 0 <= k < i ==> out@[k]@ == v@[k]@,
        decreases v.len() - i,
    {
        out.push(v[i].duplicate());
        i += 1;
    }
    assert(device_views(out@) =~= device_views(v@));
    out
}

/// `part` cut at its first `:`, as `str::split_once(':')` cuts it.
pub open spec fn split_once_colon(part: Seq<char>) -> Option<(Seq<char>, Seq<char>)> {
    match index_of(part, ':') {
        Some(i) => Some((part.subrange(0, i), part.subrange(i + 1, part.len() as int))),
        None => None,
    }
}

/// `d` after reading one `key:value` column of its listing line.
pub open spec fn with_property(d: DeviceModel, part: Seq<char>) -> DeviceModel {
    match split_once_colon(part) {
        Some((k, v)) => if k == "model"@ {
            DeviceModel { model: Some(v), ..d }
        } else if k == "product"@ {
            DeviceModel { product: Some(v), ..d }
        } else if k == "device"@ {
            DeviceModel { device: Some(v), ..d }
        } else if k == "transport_id"@ {
            DeviceModel { transport_id: Some(v), ..d }
        } else {
            d
        },
        None => d,
    }
}

/// `d` after reading the columns `parts`, left to right.
pub open spec fn with_properties(d: DeviceModel, parts: Seq<Seq<char>>) -> DeviceModel
    decreases parts.len(),
{
    if parts.len() == 0 {
        d
    } else {
        with_property(with_properties(d, parts.drop_last()), parts.last())
    }
}

/// The device that one line of `devices -l` lists, if it lists one: header
/// lines, daemon messages (`* ...`) and lines of fewer than two columns list none.
pub open spec fn device_of_line(line: Seq<char>) -> Option<DeviceModel> {
    let t = trim(line);
    let parts = words(t);
    if t.len() == 0 || starts_with(t, "List of devices"@) || starts_with(t, "*"@) {
        None
    } else if parts.len() < 2 {
        None
    } else {
        Some(
            with_properties(
                DeviceModel {
                    serial: parts[0],
                    state: parts[1],
                    model: None,
                    product: None,
                    device: None,
                    transport_id: None,
                },
                parts.subrange(2, parts.len() as int),
            ),
        )
    }
}

/// The devices that the lines `lines` list, in order.
pub open spec fn devices_of_lines(lines: Seq<Seq<char>>) -> Seq<DeviceModel>
    decreases lines.len(),
{
    if lines.len() == 0 {
        Seq::empty()
    } else {
        let prev = devices_of_lines(lines.drop_last());
        match device_of_line(lines.last()) {
            Some(d) => prev.push(d),
            None => prev,
        }
    }
}

/// The devices that the output of `devices -l` lists, in order.
pub open spec fn listed_devices(output: Seq<char>) -> Seq<DeviceModel> {
    devices_of_lines(split_on(output, '\n'))
}

fn set_property(d: &mut DeviceInfo, part: &Vec<char>)
    ensures
        final(d)@ == with_property(old(d)@, part@),
{
    match find_char(part, ':') {
        Some(i) => {
            proof {
                lemma_index_of_bounds(part@, ':');
            }
            let key = slice_of(part, 0, i);
            let value = string_of(&slice_of(part, i + 1, part.len()));
            if same_str(&key, "model") {
                d.model = Some(value);
            } else if same_str(&key, "product") {
                d.product = Some(value);
            } else if same_str(&key, "device") {
                d.device = Some(value);
            } else if same_str(&key, "transport_id") {
                d.transport_id = Some(value);
            }
        },
        None => {},
    }
}

fn parse_device_line(line: &Vec<char>) -> (r: Option<DeviceInfo>)
    ensures
        match r {
            Some(d) => device_of_line(line@) == Some(d@),
            None => device_of_line(line@) is None,
        },
{
    let t = trimmed(line);
    if t.len() == 0 || starts_str(&t, "List of devices") || starts_str(&t, "*") {
        return None;
    }
    let parts = split_words(&t);
    if parts.len() < 2 {
        return None;
    }
    let mut d = DeviceInfo {
        serial: string_of(&parts[0]),
        state: string_of(&parts[1]),
        model: None,
        product: None,
        device: None,
        transport_id: None,
    };
    let ghost start = d@;
    let ghost ps = views(parts@);
    let mut k: usize = 2;
    assert(ps.subrange(2, 2) =~= Seq::<Seq<char>>::empty());
    while k < parts.len()
        invariant
            2 <= k <= parts.len(),
            ps == views(parts@),
            d@ == with_properties(start, ps.subrange(2, k as int)),
        decreases parts.len() - k,
    {
        set_property(&mut d, &parts[k]);
        assert(ps.subrange(2, k + 1).drop_last() =~= ps.subrange(2, k as int));
        k += 1;
    }
    assert(ps.subrange(2, parts.len() as int) =~= ps.subrange(2, ps.len() as int));
    Some(d)
}

/// The devices listed by the output of `devices -l`, in order, whatever their state.
pub fn parse_adb_devices(output: String) -> (r: Vec<DeviceInfo>)
    ensures
        device_views(r@) == listed_devices(output@),
{
    let text = chars_of(output.as_str());
    let lines = split_char(&text, '\n');
    let ghost ls = views(lines@);
    let mut out: Vec<DeviceInfo> = Vec::new();
    let mut i: usize = 0;
    assert(ls.subrange(0, 0) =~= Seq::<Seq<char>>::empty());
    assert(device_views(out@) =~= Seq::<DeviceModel>::empty());
    while i < lines.len()
        invariant
            i <= lines.len(),
            ls == views(lines@),
            device_views(out@) == devices_of_lines(ls.subrange(0, i as int)),
        decreases lines.len() - i,
    {
        assert(ls.subrange(0, i + 1).drop_last() =~= ls.subrange(0, i as int));
        match parse_device_line(&lines[i]) {
            Some(d) => {
                out.push(d);
                assert(device_views(out@) =~= devices_of_lines(ls.subrange(0, i as int)).push(
                    d@,
                ));
            },
            None => {},
        }
        i += 1;
    }
    assert(ls.subrange(0, lines.len() as int) =~= ls);
    out
}

// ===== Device registry =====

/// How long a device listing stays fresh, in milliseconds.
pub const DEVICE_CACHE_TTL_MS: u64 = 5000;

/// The devices of `ds` that are ready for commands (state `device`), in order.
pub open spec fn ready_only(ds: Seq<DeviceModel>) -> Seq<DeviceModel>
    decreases ds.len(),
{
    if ds.len() == 0 {
        Seq::empty()
    } else {
        let prev = ready_only(ds.drop_last());
        if ds.last().state == "device"@ {
            prev.push(ds.last())
        } else {
            prev
        }
    }
}

/// Every device that `ready_only` keeps is ready and comes from `ds`.
pub proof fn lemma_ready_only_ready(ds: Seq<DeviceModel>)
    ensures
        forall|i: int|
            0 <= i < ready_only(ds).len() ==> (#[trigger] ready_only(ds)[i]).state == "device"@
                && ds.contains(ready_only(ds)[i]),
    decreases ds.len(),
{
    if ds.len() > 0 {
        lemma_ready_only_ready(ds.drop_last());
        let prev = ready_only(ds.drop_last());
        assert forall|i: int| 0 <= i < ready_only(ds).len() implies (#[trigger] ready_only(
            ds,
        )[i]).state == "device"@ && ds.contains(ready_only(ds)[i]) by {
            if i < prev.len() {
                assert(ready_only(ds)[i] == prev[i]);
                let j = choose|j: int| 0 <= j < ds.drop_last().len() && ds.drop_last()[j] == prev[i];
                assert(ds[j] == prev[i]);
            } else {
                assert(ready_only(ds)[i] == ds.last());
                assert(ds[ds.len() - 1] == ds.last());
            }
        }
    }
}

/// The devices of `devices` that are ready for commands, in order.
pub fn ready_devices(devices: &Vec<DeviceInfo>) -> (r: Vec<DeviceInfo>)
    ensures
        device_views(r@) == ready_only(device_views(devices@)),
{
    let ghost all = device_views(devices@);
    let mut out: Vec<DeviceInfo> = Vec::new();
    let mut i: usize = 0;
    assert(all.subrange(0, 0) =~= Seq::<DeviceModel>::empty());
    assert(device_views(out@) =~= Seq::<DeviceModel>::empty());
    while i < devices.len()
        invariant
            i <= devices.len(),
            all == device_views(devices@),
            device_views(out@) == ready_only(all.subrange(0, i as int)),
        decreases devices.len() - i,
    {
        assert(all.subrange(0, i + 1).drop_last() =~= all.subrange(0, i as int));
        assert(all.subrange(0, i + 1).last() == devices@[i as int]@);
        if same_str(&chars_of(devices[i].state.as_str()), "device") {
            let d = devices[i].duplicate();
            out.push(d);
            assert(device_views(out@) =~= ready_only(all.subrange(0, i as int)).push(
                devices@[i as int]@,
            ));
        }
        i += 1;
    }
    assert(all.subrange(0, devices.len() as int) =~= all);
    out
}

/// The last device listing, and when it was taken (milliseconds on a
/// monotonic clock; `None` when there is none to trust).
pub struct DeviceCache {
    pub devices: Vec<DeviceInfo>,
    pub last_update: Option<u64>,
    pub cache_duration: u64,
}

/// The time from `from` to `now`, or zero when `now` is earlier.
pub open spec fn elapsed(from: u64, now: u64) -> nat {
    if now >= from {
        (now - from) as nat
    } else {
        0
    }
}

impl DeviceCache {
    /// A cache with no listing: the first lookup fetches one.
    pub fn new() -> (r: DeviceCache)
        ensures
            r.devices@.len() == 0,
            r.last_update is None,
            r.cache_duration == DEVICE_CACHE_TTL_MS,
    {
        DeviceCache { devices: Vec::new(), last_update: None, cache_duration: DEVICE_CACHE_TTL_MS }
    }

    /// The listing is served only while less than its time to live has passed.
    pub open spec fn expired_at(&self, now: u64) -> bool {
        match self.last_update {
            Some(t) => elapsed(t, now) >= self.cache_duration,
            None => true,
        }
    }

    /// Whether the listing is too old to be served at time `now`.
    pub fn is_expired(&self, now: u64) -> (r: bool)
        ensures
            r == self.expired_at(now),
    {
        match self.last_update {
            Some(t) => {
                let gone: u64 = if now >= t {
                    now - t
                } else {
                    0
                };
                gone >= self.cache_duration
            },
            None => true,
        }
    }

    /// Replaces the listing with `devices`, taken at time `now`.
    pub fn update(&mut self, devices: Vec<DeviceInfo>, now: u64)
        ensures
            final(self).devices == devices,
            final(self).last_update == Some(now),
            final(self).cache_duration == old(self).cache_duration,
    {
        self.devices = devices;
        self.last_update = Some(now);
    }

    /// A copy of the cached listing.
    pub fn get(&self) -> (r: Vec<DeviceInfo>)
        ensures
            device_views(r@) == device_views(self.devices@),
    {
        copy_devices(&self.devices)
    }
}

/// The texts of a list of strings.
pub open spec fn texts(v: Seq<String>) -> Seq<Seq<char>> {
    Seq::new(v.len(), |i: int| v[i]@)
}

/// The arguments of the bridge command that lists devices.
pub open spec fn listing_command() -> Seq<Seq<char>> {
    seq!["devices"@, "-l"@]
}

fn args1(a: &str) -> (r: Vec<String>)
    ensures
        texts(r@) == seq![a@],
{
    let mut v: Vec<String> = Vec::new();
    v.push(a.to_owned());
    assert(texts(v@) =~= seq![a@]);
    v
}

fn args2(a: &str, b: &str) -> (r: Vec<String>)
    ensures
        texts(r@) == seq![a@, b@],
{
    let mut v: Vec<String> = Vec::new();
    v.push(a.to_owned());
    v.push(b.to_owned());
    assert(texts(v@) =~= seq![a@, b@]);
    v
}

fn args4(a: &str, b: &str, c: &str, d: &str) -> (r: Vec<String>)
    ensures
        texts(r@) == seq![a@, b@, c@, d@],
{
    let mut v: Vec<String> = Vec::new();
    v.push(a.to_owned());
    v.push(b.to_owned());
    v.push(c.to_owned());
    v.push(d.to_owned());
    assert(texts(v@) =~= seq![a@, b@, c@, d@]);
    v
}

/// The bridge command that lists the devices.
pub fn listing_args() -> (r: Vec<String>)
    ensures
        texts(r@) == listing_command(),
{
    args2("devices", "-l")
}

/// What a device lookup needs: nothing, when the cached listing serves; or
/// the bridge command to run, whose outcome goes to `finish_device_listing`.
pub enum DeviceLookup {
    Cached(Vec<DeviceInfo>),
    Fetch(Vec<String>),
}

/// Whether a lookup at time `now` has to run the bridge.
pub open spec fn needs_listing(cache: DeviceCache, force_refresh: bool, now: u64) -> bool {
    force_refresh || cache.expired_at(now)
}

/// Looks the devices up: the ready devices of the cached listing while it is
/// fresh and no refresh is forced, else the command that lists them again.
pub fn get_devices(cache: &DeviceCache, force_refresh: bool, now: u64) -> (r: DeviceLookup)
    ensures
        match r {
            DeviceLookup::Cached(ds) => !needs_listing(*cache, force_refresh, now)
                && device_views(ds@) == ready_only(device_views(cache.devices@)),
            DeviceLookup::Fetch(args) => needs_listing(*cache, force_refresh, now) && texts(args@)
                == listing_command(),
        },
{
    if !force_refresh && !cache.is_expired(now) {
        DeviceLookup::Cached(ready_devices(&cache.devices))
    } else {
        DeviceLookup::Fetch(listing_args())
    }
}

/// Takes in the outcome of the listing command run at time `now`: on success
/// the ready devices replace the cached listing and are returned; an error
/// is returned as it is and leaves the cache alone.
pub fn finish_device_listing(
    cache: &mut DeviceCache,
    outcome: Result<String, AdbError>,
    now: u64,
) -> (r: Result<Vec<DeviceInfo>, AdbError>)
    ensures
        match outcome {
            Ok(out) => r matches Ok(ds) && device_views(ds@) == ready_only(listed_devices(out@))
                && device_views(final(cache).devices@) == device_views(ds@)
                && final(cache).last_update == Some(now) && final(cache).cache_duration
                == old(cache).cache_duration,
            Err(e) => r == Err::<Vec<DeviceInfo>, AdbError>(e) && *final(cache) == *old(cache),
        },
{
    match outcome {
        Ok(out) => {
            let all = parse_adb_devices(out);
            let ready = ready_devices(&all);
            let kept = copy_devices(&ready);
            cache.update(kept, now);
            Ok(ready)
        },
        Err(e) => Err(e),
    }
}

/// Forgets when the listing was taken, so that the next lookup fetches anew.
pub fn clear_device_cache(cache: &mut DeviceCache)
    ensures
        final(cache).last_update is None,
        final(cache).devices == old(cache).devices,
        final(cache).cache_duration == old(cache).cache_duration,
{
    cache.last_update = None;
}

/// The serial of the default device: the first one listed.
pub fn get_default_device(devices: &Vec<DeviceInfo>) -> (r: Result<String, AdbError>)
    ensures
        devices@.len() == 0 ==> r == Err::<String, AdbError>(AdbError::NoDeviceConnected),
        devices@.len() > 0 ==> (r matches Ok(s) && s@ == devices@[0].serial@),
{
    if devices.len() == 0 {
        return Err(AdbError::NoDeviceConnected);
    }
    Ok(devices[0].serial.clone())
}

// ===== Bridge commands =====

/// The bridge command that runs `command` in a shell on the default device,
/// given the listing of ready devices.
pub fn execute_shell_command(devices: &Vec<DeviceInfo>, command: &str) -> (r: Result<
    Vec<String>,
    AdbError,
>)
    ensures
        devices@.len() == 0 ==> r == Err::<Vec<String>, AdbError>(AdbError::NoDeviceConnected),
        devices@.len() > 0 ==> (r matches Ok(args) && texts(args@) == seq!["shell"@, command@]),
{
    if devices.len() == 0 {
        return Err(AdbError::NoDeviceConnected);
    }
    Ok(args2("shell", command))
}

/// The bridge command that runs `command` in a shell on the device `serial`.
pub fn execute_shell_command_on_device(serial: &str, command: &str) -> (r: Vec<String>)
    ensures
        texts(r@) == seq!["-s"@, serial@, "shell"@, command@],
{
    args4("-s", serial, "shell", command)
}

/// The bridge command that starts the bridge's server.
pub fn start_adb_server() -> (r: Vec<String>)
    ensures
        texts(r@) == seq!["start-server"@],
{
    args1("start-server")
}

/// The bridge command that stops the bridge's server.
pub fn kill_adb_server() -> (r: Vec<String>)
    ensures
        texts(r@) == seq!["kill-server"@],
{
    args1("kill-server")
}

/// The bridge command that reports the bridge's version.
pub fn get_adb_version() -> (r: Vec<String>)
    ensures
        texts(r@) == seq!["version"@],
{
    args1("version")
}

/// `ip:port`, the port in decimal.
pub open spec fn tcp_address(ip: Seq<char>, port: u16) -> Seq<char> {
    ip + seq![':'] + crate::text::decimal_text(port as nat)
}

fn address(ip_address: &str, port: u16) -> (r: String)
    ensures
        r@ == tcp_address(ip_address@, port),
{
    let mut v = chars_of(ip_address);
    v.push(':');
    let mut digits = crate::text::decimal(port as u64);
    v.append(&mut digits);
    string_of(&v)
}

/// The bridge command that connects to a device over TCP/IP.
pub fn connect_tcp(ip_address: &str, port: u16) -> (r: Vec<String>)
    ensures
        texts(r@) == seq!["connect"@, tcp_address(ip_address@, port)],
{
    let a = address(ip_address, port);
    args2("connect", a.as_str())
}

/// The bridge command that disconnects a device reached over TCP/IP.
pub fn disconnect_tcp(ip_address: &str, port: u16) -> (r: Vec<String>)
    ensures
        texts(r@) == seq!["disconnect"@, tcp_address(ip_address@, port)],
{
    let a = address(ip_address, port);
    args2("disconnect", a.as_str())
}

/// Whether a fresh listing shows the device `serial` ready.
pub fn is_device_online(listing: &Result<Vec<DeviceInfo>, AdbError>, serial: &str) -> (r: bool)
    ensures
        r == (match listing {
            Ok(ds) => exists|i: int|
                0 <= i < ds@.len() && ds@[i].serial@ == serial@ && ds@[i].state@ == "device"@,
            Err(_) => false,
        }),
{
    match listing {
        Ok(ds) => {
            let want = chars_of(serial);
            let mut i: usize = 0;
            while i < ds.len()
                invariant
                    i <= ds.len(),
                    want@ == serial@,
                    *listing == Ok::<Vec<DeviceInfo>, AdbError>(*ds),
                    forall|j: int|
                        0 <= j < i ==> !(ds@[j].serial@ == serial@ && ds@[j].state@ == "device"@),
                decreases ds.len() - i,
            {
                let sv = chars_of(ds[i].serial.as_str());
                let tv = chars_of(ds[i].state.as_str());
                if crate::text::same_text(&sv, &want) && same_str(&tv, "device") {
                    assert(ds@[i as int].serial@ == serial@ && ds@[i as int].state@ == "device"@);
                    return true;
                }
                i += 1;
            }
            false
        },
        Err(_) => false,
    }
}

// ===== Device properties =====

/// The `[key]: [value]` pair that one line of `getprop` holds, if it holds one.
pub open spec fn property_of_line(line: Seq<char>) -> Option<(Seq<char>, Seq<char>)> {
    let t = trim(line);
    if t.len() == 0 || !starts_with(t, "["@) {
        None
    } else {
        match first_from(t, "]: ["@, 0) {
            Some(k) => {
                let rest = t.subrange(k + "]: ["@.len(), t.len() as int);
                match index_of(rest, ']') {
                    Some(e) => Some((t.subrange(1, k), rest.subrange(0, e))),
                    None => None,
                }
            },
            None => None,
        }
    }
}

/// The pairs that the lines `lines` hold, in order.
pub open spec fn properties_of_lines(lines: Seq<Seq<char>>) -> Seq<(Seq<char>, Seq<char>)>
    decreases lines.len(),
{
    if lines.len() == 0 {
        Seq::empty()
    } else {
        let prev = properties_of_lines(lines.drop_last());
        match property_of_line(lines.last()) {
            Some(kv) => prev.push(kv),
            None => prev,
        }
    }
}

/// The pairs that the output of `getprop` holds, in order.
pub open spec fn listed_properties(output: Seq<char>) -> Seq<(Seq<char>, Seq<char>)> {
    properties_of_lines(split_on(output, '\n'))
}

/// The properties as a map: a key given twice keeps its last value.
pub open spec fn properties_map(pairs: Seq<(Seq<char>, Seq<char>)>) -> Map<Seq<char>, Seq<char>>
    decreases pairs.len(),
{
    if pairs.len() == 0 {
        Map::empty()
    } else {
        properties_map(pairs.drop_last()).insert(pairs.last().0, pairs.last().1)
    }
}

pub open spec fn pair_views(v: Seq<(String, String)>) -> Seq<(Seq<char>, Seq<char>)> {
    Seq::new(v.len(), |i: int| (v[i].0@, v[i].1@))
}

fn parse_property_line(line: &Vec<char>) -> (r: Option<(String, String)>)
    ensures
        match r {
            Some(kv) => property_of_line(line@) == Some((kv.0@, kv.1@)),
            None => property_of_line(line@) is None,
        },
{
    let t = trimmed(line);
    if t.len() == 0 || !starts_str(&t, "[") {
        return None;
    }
    let sep = chars_of("]: [");
    proof {
        reveal_strlit("]: [");
        reveal_strlit("[");
    }
    match crate::text::find_first(&t, &sep) {
        Some(k) => {
            assert(t@.subrange(0, 1)[0] == t@[0]);
            assert(t@.subrange(k as int, k + sep@.len())[0] == ']');
            let start = k + sep.len();
            let rest = slice_of(&t, start, t.len());
            match find_char(&rest, ']') {
                Some(e) => {
                    proof {
                        lemma_index_of_bounds(rest@, ']');
                    }
                    let key = slice_of(&t, 1, k);
                    let value = slice_of(&rest, 0, e);
                    Some((string_of(&key), string_of(&value)))
                },
                None => None,
            }
        },
        None => None,
    }
}

/// The `[key]: [value]` pairs in the output of `getprop`, in order.
pub fn parse_properties(output: &str) -> (r: Vec<(String, String)>)
    ensures
        pair_views(r@) == listed_properties(output@),
{
    let text = chars_of(output);
    let lines = split_char(&text, '\n');
    let ghost ls = views(lines@);
    let mut out: Vec<(String, String)> = Vec::new();
    let mut i: usize = 0;
    assert(ls.subrange(0, 0) =~= Seq::<Seq<char>>::empty());
    assert(pair_views(out@) =~= Seq::<(Seq<char>, Seq<char>)>::empty());
    while i < lines.len()
        invariant
            i <= lines.len(),
            ls == views(lines@),
            pair_views(out@) == properties_of_lines(ls.subrange(0, i as int)),
        decreases lines.len() - i,
    {
        assert(ls.subrange(0, i + 1).drop_last() =~= ls.subrange(0, i as int));
        match parse_property_line(&lines[i]) {
            Some(kv) => {
                let ghost v = (kv.0@, kv.1@);
                out.push(kv);
                assert(pair_views(out@) =~= properties_of_lines(ls.subrange(0, i as int)).push(v));
            },
            None => {},
        }
        i += 1;
    }
    assert(ls.subrange(0, lines.len() as int) =~= ls);
    out
}

/// The bridge command that dumps the properties of the device `serial`, or of
/// the default device when none is named.
pub fn device_properties_command(devices: &Vec<DeviceInfo>, serial: Option<String>) -> (r: Result<
    Vec<String>,
    AdbError,
>)
    ensures
        match serial {
            Some(s) => r matches Ok(args) && texts(args@) == seq!["-s"@, s@, "shell"@, "getprop"@],
            None => if devices@.len() == 0 {
                r == Err::<Vec<String>, AdbError>(AdbError::NoDeviceConnected)
            } else {
                r matches Ok(args) && texts(args@) == seq!["shell"@, "getprop"@]
            },
        },
{
    match serial {
        Some(s) => Ok(execute_shell_command_on_device(s.as_str(), "getprop")),
        None => execute_shell_command(devices, "getprop"),
    }
}

/// The properties that the `getprop` command reported, in order, or its error.
pub fn get_device_properties(outcome: Result<String, AdbError>) -> (r: Result<
    Vec<(String, String)>,
    AdbError,
>)
    ensures
        match outcome {
            Ok(out) => r matches Ok(pairs) && pair_views(pairs@) == listed_properties(out@),
            Err(e) => r == Err::<Vec<(String, String)>, AdbError>(e),
        },
{
    match outcome {
        Ok(out) => Ok(parse_properties(out.as_str())),
        Err(e) => Err(e),
    }
}

// ===== Bridge locator =====

/// The family of operating system the bridge is looked for on.
#[derive(Debug, Clone, Copy, PartialEq, Eq, Structural)]
pub enum Platform {
    Windows,
    MacOs,
    Unix,
}

pub open spec fn under(base: Option<Seq<char>>, rel: Seq<char>) -> Seq<Seq<char>> {
    match base {
        Some(b) => seq![b + rel],
        None => Seq::empty(),
    }
}

/// Where the bridge is looked for, in order, after the search path: the
/// well-known install locations of the platform, then those under the
/// directories that its environment names.
pub open spec fn bridge_locations(
    platform: Platform,
    local_app_data: Option<Seq<char>>,
    user_profile: Option<Seq<char>>,
    home: Option<Seq<char>>,
) -> Seq<Seq<char>> {
    match platform {
        Platform::Windows => seq![
            "C:\\platform-tools\\adb.exe"@,
            "C:\\Program Files (x86)\\Android\\android-sdk\\platform-tools\\adb.exe"@,
            "C:\\Android\\sdk\\platform-tools\\adb.exe"@,
        ] + under(local_app_data, "\\Android\\Sdk\\platform-tools\\adb.exe"@) + under(
            user_profile,
            "\\AppData\\Local\\Android\\Sdk\\platform-tools\\adb.exe"@,
        ),
        Platform::MacOs => seq!["/usr/local/bin/adb"@] + under(
            home,
            "/Library/Android/sdk/platform-tools/adb"@,
        ),
        Platform::Unix => seq!["/usr/bin/adb"@, "/usr/local/bin/adb"@] + under(
            home,
            "/Android/Sdk/platform-tools/adb"@,
        ),
    }
}

pub open spec fn opt_text(o: Option<&str>) -> Option<Seq<char>> {
    match o {
        Some(s) => Some(s@),
        None => None,
    }
}

fn push_under(out: &mut Vec<String>, base: Option<&str>, rel: &str)
    ensures
        texts(final(out)@) == texts(old(out)@) + under(opt_text(base), rel@),
{
    match base {
        Some(b) => {
            out.push(join2(b, rel));
            assert(texts(out@) =~= texts(old(out)@) + under(opt_text(base), rel@));
        },
        None => {
            assert(texts(out@) =~= texts(old(out)@) + under(opt_text(base), rel@));
        },
    }
}

fn push_text(out: &mut Vec<String>, s: &str)
    ensures
        texts(final(out)@) == texts(old(out)@).push(s@),
{
    out.push(s.to_owned());
    assert(texts(out@) =~= texts(old(out)@).push(s@));
}

/// The install locations to probe for the bridge, in order.
pub fn bridge_candidates(
    platform: Platform,
    local_app_data: Option<&str>,
    user_profile: Option<&str>,
    home: Option<&str>,
) -> (r: Vec<String>)
    ensures
        texts(r@) == bridge_locations(
            platform,
            opt_text(local_app_data),
            opt_text(user_profile),
            opt_text(home),
        ),
{
    let mut out: Vec<String> = Vec::new();
    assert(texts(out@) =~= Seq::<Seq<char>>::empty());
    match platform {
        Platform::Windows => {
            push_text(&mut out, "C:\\platform-tools\\adb.exe");
            push_text(&mut out, "C:\\Program Files (x86)\\Android\\android-sdk\\platform-tools\\adb.exe");
            push_text(&mut out, "C:\\Android\\sdk\\platform-tools\\adb.exe");
            push_under(&mut out, local_app_data, "\\Android\\Sdk\\platform-tools\\adb.exe");
            push_under(&mut out, user_profile, "\\AppData\\Local\\Android\\Sdk\\platform-tools\\adb.exe");
        },
        Platform::MacOs => {
            push_text(&mut out, "/usr/local/bin/adb");
            push_under(&mut out, home, "/Library/Android/sdk/platform-tools/adb");
        },
        Platform::Unix => {
            push_text(&mut out, "/usr/bin/adb");
            push_text(&mut out, "/usr/local/bin/adb");
            push_under(&mut out, home, "/Android/Sdk/platform-tools/adb");
        },
    }
    assert(texts(out@) =~= bridge_locations(
        platform,
        opt_text(local_app_data),
        opt_text(user_profile),
        opt_text(home),
    ));
    out
}

/// The first of `candidates` that exists (`exists[i]` tells of `candidates[i]`;
/// one it does not tell of counts as absent).
pub open spec fn first_existing(candidates: Seq<Seq<char>>, exists: Seq<bool>, from: int) -> Option<
    Seq<char>,
>
    decreases candidates.len() - from,
{
    if from < 0 || from >= candidates.len() {
        None
    } else if from < exists.len() && exists[from] {
        Some(candidates[from])
    } else {
        first_existing(candidates, exists, from + 1)
    }
}

/// Which bridge to use: the bare name when running it from the search path
/// worked, else the first install location that exists.
pub open spec fn chosen_bridge(on_path: bool, candidates: Seq<Seq<char>>, exists: Seq<bool>) -> Option<
    Seq<char>,
> {
    if on_path {
        Some("adb"@)
    } else {
        first_existing(candidates, exists, 0)
    }
}

/// Picks the bridge from the outcome of the probes.
pub fn choose_bridge(on_path: bool, candidates: &Vec<String>, exists: &Vec<bool>) -> (r: Option<
    String,
>)
    ensures
        opt_view(r) == chosen_bridge(on_path, texts(candidates@), exists@),
{
    if on_path {
        return Some("adb".to_owned());
    }
    let mut i: usize = 0;
    while i < candidates.len()
        invariant
            i <= candidates.len(),
            !on_path,
            first_existing(texts(candidates@), exists@, 0) == first_existing(
                texts(candidates@),
                exists@,
                i as int,
            ),
        decreases candidates.len() - i,
    {
        if i < exists.len() && exists[i] {
            assert(texts(candidates@)[i as int] == candidates@[i as int]@);
            return Some(candidates[i].clone());
        }
        i += 1;
    }
    None
}

/// The bridge found by the first probe, kept until it is cleared.
pub struct BridgeLocator {
    pub resolved: Option<Option<String>>,
}

impl BridgeLocator {
    pub fn new() -> (r: BridgeLocator)
        ensures
            r.resolved is None,
    {
        BridgeLocator { resolved: None }
    }

    /// Whether the probes still have to be run.
    pub fn needs_probe(&self) -> (r: bool)
        ensures
            r == self.resolved is None,
    {
        self.resolved.is_none()
    }

    /// The bridge to run: the one found before if there is one, else the one
    /// the probes point to, which is then kept.
    pub fn resolve(&mut self, on_path: bool, candidates: &Vec<String>, exists: &Vec<bool>) -> (r:
        Result<String, AdbError>)
        ensures
            match old(self).resolved {
                Some(found) => final(self).resolved == Some(found),
                None => final(self).resolved matches Some(found) && opt_view(found)
                    == chosen_bridge(on_path, texts(candidates@), exists@),
            },
            final(self).resolved matches Some(found) && match found {
                Some(path) => r matches Ok(p) && p@ == path@,
                None => r == Err::<String, AdbError>(AdbError::AdbNotFound),
            },
    {
        if self.resolved.is_none() {
            self.resolved = Some(choose_bridge(on_path, candidates, exists));
        }
        match &self.resolved {
            Some(Some(path)) => Ok(path.clone()),
            _ => Err(AdbError::AdbNotFound),
        }
    }

    /// Forgets the bridge found, so that the next use probes again.
    pub fn clear(&mut self)
        ensures
            final(self).resolved is None,
    {
        self.resolved = None;
    }
}

// ===== Laws =====

/// Whatever a lookup starts from, the devices it returns are all in state
/// `device` and all come from that listing: none `offline`, none
/// `unauthorized`. A fetched lookup returns `ready_only` of the fresh listing
/// (`finish_device_listing`), a cached one `ready_only` of the cached listing
/// (`get_devices`); `listing` is either.
pub proof fn lemma_lookup_returns_only_ready(listing: Seq<DeviceModel>)
    ensures
        forall|i: int|
            0 <= i < ready_only(listing).len() ==> {
                let d = #[trigger] ready_only(listing)[i];
                &&& d.state == "device"@
                &&& d.state != "offline"@
                &&& d.state != "unauthorized"@
                &&& listing.contains(d)
            },
{
    lemma_ready_only_ready(listing);
    reveal_strlit("device");
    reveal_strlit("offline");
    reveal_strlit("unauthorized");
    assert("device"@.len() != "offline"@.len());
    assert("device"@.len() != "unauthorized"@.len());
}

/// Two lookups without forced refresh, the second within the time to live
/// of the listing that the first left behind, run the bridge at most once.
/// `after` is the cache once the first lookup is done: unchanged when it was
/// served from the cache, else refreshed by a listing that succeeded at
/// `done` and returned `first_result`. In that case the second lookup runs
/// nothing and returns the very same devices.
pub proof fn lemma_lookups_within_ttl_run_bridge_once(
    cache: DeviceCache,
    first: u64,
    after: DeviceCache,
    done: u64,
    first_result: Seq<DeviceModel>,
    second: u64,
)
    requires
        !needs_listing(cache, false, first) ==> after == cache,
        needs_listing(cache, false, first) ==> {
            &&& after.last_update == Some(done)
            &&& device_views(after.devices@) == first_result
            &&& exists|listing: Seq<DeviceModel>| first_result == ready_only(listing)
            &&& done <= second
            &&& second - done < after.cache_duration
        },
    ensures
        (if needs_listing(cache, false, first) {
            1int
        } else {
            0int
        }) + (if needs_listing(after, false, second) {
            1int
        } else {
            0int
        }) <= 1,
        needs_listing(cache, false, first) ==> !needs_listing(after, false, second) && ready_only(
            device_views(after.devices@),
        ) == first_result,
{
    if needs_listing(cache, false, first) {
        let listing = choose|listing: Seq<DeviceModel>| first_result == ready_only(listing);
        lemma_ready_only_idempotent(listing);
    }
}

/// Keeping the ready devices of a list of ready devices changes nothing.
pub proof fn lemma_ready_only_idempotent(ds: Seq<DeviceModel>)
    ensures
        ready_only(ready_only(ds)) == ready_only(ds),
    decreases ds.len(),
{
    if ds.len() > 0 {
        lemma_ready_only_idempotent(ds.drop_last());
        let prev = ready_only(ds.drop_last());
        if ds.last().state == "device"@ {
            assert(prev.push(ds.last()).drop_last() =~= prev);
        }
    }
}

/// A bridge error that mentions `device unauthorized` is never reported as a
/// generic failure, and is reported as exactly that unless it also says that
/// no devices were found or that the device is offline, which are checked
/// first.
pub proof fn lemma_unauthorized_is_classified(stderr: Seq<char>)
    requires
        contains(stderr, "device unauthorized"@),
    ensures
        !(failure_model(stderr) is CommandFailed),
        !contains(trim(stderr), "no devices/emulators found"@) && !contains(
            trim(stderr),
            "device offline"@,
        ) ==> failure_model(stderr) == ErrorModel::DeviceUnauthorized,
{
    reveal_strlit("device unauthorized");
    crate::text::lemma_contains_trim(stderr, "device unauthorized"@);
}

} // verus!
