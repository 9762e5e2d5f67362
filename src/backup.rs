use vstd::prelude::*;

use crate::text::{chars_of, contains, has_str, join2, lower_of, string_of, trim, trim_str};

verus! {

/// What a backup file holds: its format version, when it was made (RFC 3339),
/// the device, and the packages removed.
#[derive(Debug)]
pub struct BackupData {
    pub version: String,
    pub timestamp: String,
    pub device_name: String,
    pub packages: Vec<String>,
}

/// The outcome of writing a backup.
#[derive(Debug)]
pub struct CreateBackupResult {
    pub success: bool,
    pub backup_file: Option<String>,
    pub error: Option<String>,
}

/// A backup file as listed for the user.
#[derive(Debug)]
pub struct BackupInfo {
    pub filename: String,
    pub date: String,
    pub count: usize,
    pub device_name: Option<String>,
}

/// The outcome of restoring a backup.
#[derive(Debug)]
pub struct RestoreBackupResult {
    pub success: bool,
    pub restored: usize,
    pub failed: usize,
    pub errors: Vec<String>,
}

/// The format version written into new backups.
pub const BACKUP_VERSION: &'static str = "1.0";

/// The backup of `packages`, made at `timestamp` from device `device_name`.
pub fn backup_data(timestamp: String, device_name: String, packages: Vec<String>) -> (r: BackupData)
    ensures
        r.version@ == BACKUP_VERSION@,
        r.timestamp == timestamp,
        r.device_name == device_name,
        r.packages == packages,
{
    BackupData { version: BACKUP_VERSION.to_owned(), timestamp, device_name, packages }
}

/// The name of the file of a backup made at `stamp` (`%Y-%m-%d_%H%M%S`).
pub fn backup_file_name(stamp: &str) -> (r: String)
    ensures
        r@ == "backup_"@ + stamp@ + ".json"@,
{
    let a = join2("backup_", stamp);
    join2(a.as_str(), ".json")
}

/// The device name that `getprop ro.product.model` reported, or
/// `Unknown Device` when it could not be read.
pub fn device_name_of(output: Option<String>) -> (r: String)
    ensures
        match output {
            Some(o) => r@ == trim(o@),
            None => r@ == "Unknown Device"@,
        },
{
    match output {
        Some(o) => string_of(&trim_str(o.as_str())),
        None => "Unknown Device".to_owned(),
    }
}

/// Whether reinstalling a package worked, from what `cmd package
/// install-existing` printed and that text in lower case: an explicit
/// failure fails, anything else counts as installed.
pub open spec fn reinstall_ok(stdout: Seq<char>, lowered: Seq<char>) -> bool {
    contains(lowered, "success"@) || contains(stdout, "installed"@) || !contains(
        lowered,
        "failure"@,
    )
}

/// The outcome of reinstalling a package, from the command's output and that
/// output in lower case.
pub fn reinstall_verdict(stdout: &str, lowered: &str) -> (r: Result<(), String>)
    ensures
        reinstall_ok(stdout@, lowered@) ==> r is Ok,
        !reinstall_ok(stdout@, lowered@) ==> (r matches Err(e) && e@ == "Installation failed: "@
            + trim(stdout@)),
{
    let low = chars_of(lowered);
    let out = chars_of(stdout);
    if has_str(&low, "success") || has_str(&out, "installed") {
        Ok(())
    } else if has_str(&low, "failure") {
        let t = string_of(&trim_str(stdout));
        Err(join2("Installation failed: ", t.as_str()))
    } else {
        Ok(())
    }
}

/// The outcome of a reinstall, from how the command went: a command that
/// failed to run or exited with failure reports its error.
pub fn reinstall_outcome(outcome: Result<String, String>) -> (r: Result<(), String>)
    ensures
        match outcome {
            Ok(out) => reinstall_ok(out@, lower_of(out@)) ==> r is Ok,
            Err(e) => r == Err::<(), String>(e),
        },
        (outcome matches Ok(out) && !reinstall_ok(out@, lower_of(out@))) ==> (r matches Err(e)
            && e@ == "Installation failed: "@ + trim(outcome->Ok_0@)),
{
    match outcome {
        Ok(out) => {
            let lowered = crate::text::lowercase(out.as_str());
            reinstall_verdict(out.as_str(), lowered.as_str())
        },
        Err(e) => Err(e),
    }
}

/// The error line of a package that could not be restored.
pub open spec fn restore_error(package: Seq<char>, error: Seq<char>) -> Seq<char> {
    package + ": "@ + error
}

/// The errors of the packages whose reinstall failed, in order.
pub open spec fn restore_errors(results: Seq<(Seq<char>, Option<Seq<char>>)>) -> Seq<Seq<char>>
    decreases results.len(),
{
    if results.len() == 0 {
        Seq::empty()
    } else {
        let prev = restore_errors(results.drop_last());
        match results.last().1 {
            Some(e) => prev.push(restore_error(results.last().0, e)),
            None => prev,
        }
    }
}

pub open spec fn result_views(v: Seq<(String, Result<(), String>)>) -> Seq<(Seq<char>, Option<Seq<char>>)> {
    Seq::new(
        v.len(),
        |i: int|
            (v[i].0@, match v[i].1 {
                Ok(_) => None,
                Err(e) => Some(e@),
            }),
    )
}

/// Sums up a restore from the outcome of each package's reinstall: how many
/// were restored, how many failed and why; it succeeded when none failed.
pub fn restore_summary(results: Vec<(String, Result<(), String>)>) -> (r: RestoreBackupResult)
    ensures
        r.restored + r.failed == results@.len(),
        r.failed == restore_errors(result_views(results@)).len(),
        crate::adb::texts(r.errors@) == restore_errors(result_views(results@)),
        r.success == (r.failed == 0),
{
    let ghost rs = result_views(results@);
    let mut restored: usize = 0;
    let mut failed: usize = 0;
    let mut errors: Vec<String> = Vec::new();
    let mut i: usize = 0;
    assert(rs.subrange(0, 0) =~= Seq::<(Seq<char>, Option<Seq<char>>)>::empty());
    assert(crate::adb::texts(errors@) =~= Seq::<Seq<char>>::empty());
    while i < results.len()
        invariant
            i <= results@.len(),
            rs == result_views(results@),
            restored + failed == i,
            failed == errors@.len(),
            crate::adb::texts(errors@) == restore_errors(rs.subrange(0, i as int)),
        decreases results.len() - i,
    {
        assert(rs.subrange(0, i + 1).drop_last() =~= rs.subrange(0, i as int));
        assert(rs.subrange(0, i + 1).last() == rs[i as int]);
        match &results[i].1 {
            Ok(_) => {
                restored = restored + 1;
            },
            Err(e) => {
                let ghost before = crate::adb::texts(errors@);
                let a = join2(results[i].0.as_str(), ": ");
                errors.push(join2(a.as_str(), e.as_str()));
                failed = failed + 1;
                assert(crate::adb::texts(errors@) =~= before.push(
                    restore_error(results@[i as int].0@, e@),
                ));
            },
        }
        i += 1;
    }
    assert(rs.subrange(0, results.len() as int) =~= rs);
    RestoreBackupResult { success: failed == 0, restored, failed, errors }
}

// ===== Timestamps =====

/// The name of what chrono's `DateTime::<Utc>::to_rfc3339` writes for the
/// instant `secs` seconds and `nanos` nanoseconds after the Unix epoch.
pub uninterp spec fn rfc3339_of(secs: i64, nanos: u32) -> Seq<char>;

/// The name of what chrono's `DateTime::<Utc>::format` writes for that
/// instant with the pattern `pattern`.
pub uninterp spec fn formatted_time(secs: i64, nanos: u32, pattern: Seq<char>) -> Seq<char>;

/// The last second of the year 9999, in seconds after the Unix epoch.
pub const LAST_SECOND_OF_9999: i64 = 253402300799;

/// An instant chrono can represent: from the Unix epoch to the end of the
/// year 9999, with less than a second of nanoseconds.
pub open spec fn representable(secs: i64, nanos: u32) -> bool {
    0 <= secs <= LAST_SECOND_OF_9999 && nanos < 1_000_000_000
}

/// The pattern of the time in a backup's file name.
pub const BACKUP_STAMP_FORMAT: &'static str = "%Y-%m-%d_%H%M%S";

/// Relies on chrono's `DateTime::<Utc>::to_rfc3339`, the instant built by
/// `DateTime::<Utc>::from_timestamp`, which gives none out of range and one
/// whenever the day is within chrono's dates and the nanoseconds are under a
/// second; `to_rfc3339` itself never fails.
#[verifier::external_body]
fn rfc3339(secs: i64, nanos: u32) -> (r: Option<String>)
    ensures
        r matches Some(s) ==> s@ == rfc3339_of(secs, nanos),
        representable(secs, nanos) ==> r is Some,
{
    chrono::DateTime::<chrono::Utc>::from_timestamp(secs, nanos).map(|t| t.to_rfc3339())
}

/// Relies on chrono's `DateTime::<Utc>::format`, written out with
/// `to_string`, the instant built by `DateTime::<Utc>::from_timestamp`.
/// Only the backup pattern, whose items are all valid, is passed, so writing
/// it out does not fail; the instant exists whenever it is representable.
#[verifier::external_body]
fn format_time(secs: i64, nanos: u32, pattern: &str) -> (r: Option<String>)
    requires
        pattern@ == BACKUP_STAMP_FORMAT@,
    ensures
        r matches Some(s) ==> s@ == formatted_time(secs, nanos, pattern@),
        representable(secs, nanos) ==> r is Some,
{
    chrono::DateTime::<chrono::Utc>::from_timestamp(secs, nanos).map(|t| t.format(pattern).to_string())
}

/// A new backup of `packages` from the device `device_name`, made at the
/// instant `secs` seconds and `nanos` nanoseconds after the Unix epoch, and
/// the name of its file. There is one for every instant from the Unix epoch
/// to the end of the year 9999; none when the instant is out of chrono's range.
pub fn new_backup(secs: i64, nanos: u32, device_name: String, packages: Vec<String>) -> (r: Option<
    (BackupData, String),
>)
    ensures
        r matches Some((data, file)) ==> {
            &&& data.version@ == BACKUP_VERSION@
            &&& data.timestamp@ == rfc3339_of(secs, nanos)
            &&& data.device_name == device_name
            &&& data.packages == packages
            &&& file@ == "backup_"@ + formatted_time(secs, nanos, BACKUP_STAMP_FORMAT@) + ".json"@
        },
        representable(secs, nanos) ==> r is Some,
{
    let stamp = match format_time(secs, nanos, BACKUP_STAMP_FORMAT) {
        Some(s) => s,
        None => {
            return None;
        },
    };
    let timestamp = match rfc3339(secs, nanos) {
        Some(t) => t,
        None => {
            return None;
        },
    };
    Some((backup_data(timestamp, device_name, packages), backup_file_name(stamp.as_str())))
}

} // verus!
