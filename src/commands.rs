use vstd::prelude::*;

use crate::adb::{error_message, texts, AdbError};
use crate::package_stream::{
    classify_package, package_view, package_views, record_of, sort_by_name, sorted_by_name,
    PackageModel, StreamedPackage,
};
use crate::text::{
    chars_of, contains, has_str, i32_value, join2, lower_of, lowercase, parse_i32, slice_of,
    split_char, split_on, split_words, starts_str, starts_with, string_of, trim, trim_str, trimmed,
    views, words,
};

verus! {

/// What the user interface shows of the connected device.
#[derive(Debug)]
pub struct DeviceInfo {
    pub name: String,
    pub model: Option<String>,
    pub android_version: String,
    pub battery_percentage: Option<i32>,
    pub storage_available: Option<String>,
}

/// One installed package, for the package list.
#[derive(Debug)]
pub struct Package {
    pub package_name: String,
    pub app_name: String,
    pub safety_level: String,
}

/// The outcome of removing a package.
#[derive(Debug)]
pub struct UninstallResult {
    pub success: bool,
    pub message: Option<String>,
    pub error: Option<String>,
}

/// The sentence shown for a bridge error.
pub fn adb_error_to_string(error: AdbError) -> (r: String)
    ensures
        r@ == error_message(error@),
{
    error.message()
}

/// The safety level of a package, as its name.
pub fn determine_safety_level(package_name: &str) -> (r: String)
    ensures
        r@ == crate::package_database::level_name(crate::package_database::safety_of(package_name@)),
{
    crate::package_database::get_safety_level(package_name).as_str().to_owned()
}

/// The name shown for a package.
pub fn get_app_name(package_name: &str) -> (r: String)
    ensures
        r@ == crate::package_database::display_name_of(package_name@),
{
    crate::package_database::get_display_name(package_name)
}

// ===== Device information =====

/// The battery level that one line of `dumpsys battery` gives, if it gives one.
pub open spec fn battery_of_line(line: Seq<char>) -> Option<i32> {
    let pieces = split_on(line, ':');
    if starts_with(trim(line), "level:"@) && pieces.len() >= 2 {
        i32_value(trim(pieces[1]))
    } else {
        None
    }
}

/// The battery level of the first line that gives one.
pub open spec fn battery_of_lines(lines: Seq<Seq<char>>) -> Option<i32>
    decreases lines.len(),
{
    if lines.len() == 0 {
        None
    } else {
        match battery_of_line(lines[0]) {
            Some(l) => Some(l),
            None => battery_of_lines(lines.drop_first()),
        }
    }
}

/// The battery level reported by `dumpsys battery`.
pub fn get_battery_level(output: &str) -> (r: Option<i32>)
    ensures
        r == battery_of_lines(split_on(output@, '\n')),
{
    let text = chars_of(output);
    let lines = split_char(&text, '\n');
    let ghost ls = views(lines@);
    let n = lines.len();
    let mut i: usize = 0;
    assert(ls.subrange(0, n as int) =~= ls);
    while i < n
        invariant
            i <= n == lines.len(),
            ls == views(lines@),
            ls == split_on(output@, '\n'),
            battery_of_lines(ls) == battery_of_lines(ls.subrange(i as int, n as int)),
        decreases n - i,
    {
        let line = &lines[i];
        let ghost rest = ls.subrange(i as int, n as int);
        assert(rest.len() > 0 && rest[0] == line@);
        assert(rest.drop_first() =~= ls.subrange(i + 1, n as int));
        let t = trimmed(line);
        if starts_str(&t, "level:") {
            let pieces = split_char(line, ':');
            if pieces.len() >= 2 {
                assert(pieces@[1]@ == split_on(line@, ':')[1]);
                assert(views(pieces@).len() == pieces@.len());
                let v = trimmed(&pieces[1]);
                match parse_i32(&v) {
                    Some(level) => {
                        assert(battery_of_line(line@) == Some(level));
                        return Some(level);
                    },
                    None => {},
                }
            }
        }
        i += 1;
    }
    None
}

/// The fourth column of each line of `df /data` after the header that has
/// at least four: the candidates for the available space.
pub open spec fn available_columns(lines: Seq<Seq<char>>) -> Seq<Seq<char>>
    decreases lines.len(),
{
    if lines.len() == 0 {
        Seq::empty()
    } else {
        let prev = available_columns(lines.drop_last());
        let parts = words(lines.last());
        if parts.len() >= 4 {
            prev.push(parts[3])
        } else {
            prev
        }
    }
}

/// The candidates for the available space in the output of `df /data`, in order.
pub fn df_available_columns(output: &str) -> (r: Vec<String>)
    ensures
        texts(r@) == ({
            let lines = split_on(output@, '\n');
            available_columns(lines.subrange(if lines.len() > 0 { 1int } else { 0int }, lines.len() as int))
        }),
{
    let text = chars_of(output);
    let lines = split_char(&text, '\n');
    let ghost ls = views(lines@);
    let start: usize = if lines.len() > 0 {
        1
    } else {
        0
    };
    let mut out: Vec<String> = Vec::new();
    let mut i: usize = start;
    assert(ls.subrange(start as int, start as int) =~= Seq::<Seq<char>>::empty());
    assert(texts(out@) =~= Seq::<Seq<char>>::empty());
    while i < lines.len()
        invariant
            start <= i <= lines.len(),
            ls == views(lines@),
            texts(out@) == available_columns(ls.subrange(start as int, i as int)),
        decreases lines.len() - i,
    {
        assert(ls.subrange(start as int, i + 1).drop_last() =~= ls.subrange(start as int, i as int));
        let parts = split_words(&lines[i]);
        if parts.len() >= 4 {
            assert(parts@[3]@ == words(ls[i as int])[3]);
            let ghost before = texts(out@);
            out.push(string_of(&parts[3]));
            assert(texts(out@) =~= before.push(words(ls[i as int])[3]));
        }
        i += 1;
    }
    out
}

/// The release of Android the device reports, or `Unknown` when it could
/// not be read.
pub fn android_version(output: Option<String>) -> (r: String)
    ensures
        match output {
            Some(o) => r@ == trim(o@),
            None => r@ == "Unknown"@,
        },
{
    match output {
        Some(o) => string_of(&trim_str(o.as_str())),
        None => "Unknown".to_owned(),
    }
}

/// The device the user interface describes: the first ready one. Fails when
/// the bridge is missing, the lookup failed, or no device is ready.
pub fn primary_device(bridge_available: bool, devices: &Result<Vec<crate::adb::DeviceInfo>, AdbError>) -> (r: Result<
    usize,
    String,
>)
    ensures
        !bridge_available ==> (r matches Err(e) && e@
            == "ADB (Android Debug Bridge) not found. Please install Android SDK Platform Tools."@),
        bridge_available ==> match devices {
            Err(x) => r matches Err(e) && e@ == error_message(x@),
            Ok(ds) => if ds@.len() == 0 {
                r matches Err(e) && e@
                    == "No device connected. Please connect an Android device via USB or TCP."@
            } else {
                r == Ok::<usize, String>(0)
            },
        },
{
    if !bridge_available {
        return Err(
            "ADB (Android Debug Bridge) not found. Please install Android SDK Platform Tools.".to_owned(),
        );
    }
    match devices {
        Err(x) => Err(x.message()),
        Ok(ds) => {
            if ds.len() == 0 {
                Err("No device connected. Please connect an Android device via USB or TCP.".to_owned())
            } else {
                Ok(0)
            }
        },
    }
}

/// Describes the connected device from what was read of it: whether the
/// bridge works, the device lookup, the output of `getprop
/// ro.build.version.release`, of `dumpsys battery`, and the available space.
pub fn get_device_info(
    bridge_available: bool,
    devices: Result<Vec<crate::adb::DeviceInfo>, AdbError>,
    version_output: Option<String>,
    battery_output: Option<String>,
    storage_available: Option<String>,
) -> (r: Result<DeviceInfo, String>)
    ensures
        match primary_device_spec(bridge_available, devices) {
            Some(e) => r matches Err(x) && x@ == e,
            None => r matches Ok(info) && devices matches Ok(ds) && {
                &&& info.name@ == ds@[0].serial@
                &&& crate::adb::opt_view(info.model) == crate::adb::opt_view(ds@[0].model)
                &&& info.android_version@ == match version_output {
                    Some(o) => trim(o@),
                    None => "Unknown"@,
                }
                &&& info.battery_percentage == match battery_output {
                    Some(o) => battery_of_lines(split_on(o@, '\n')),
                    None => None,
                }
                &&& info.storage_available == storage_available
            },
        },
{
    match primary_device(bridge_available, &devices) {
        Err(e) => Err(e),
        Ok(_) => {
            let ds = match devices {
                Ok(ds) => ds,
                Err(x) => {
                    return Err(x.message());
                },
            };
            let d = &ds[0];
            let model = match &d.model {
                Some(m) => Some(m.clone()),
                None => None,
            };
            let battery_percentage = match &battery_output {
                Some(o) => get_battery_level(o.as_str()),
                None => None,
            };
            Ok(
                DeviceInfo {
                    name: d.serial.clone(),
                    model,
                    android_version: android_version(version_output),
                    battery_percentage,
                    storage_available,
                },
            )
        },
    }
}

/// Why the device cannot be described, if it cannot.
pub open spec fn primary_device_spec(
    bridge_available: bool,
    devices: Result<Vec<crate::adb::DeviceInfo>, AdbError>,
) -> Option<Seq<char>> {
    if !bridge_available {
        Some("ADB (Android Debug Bridge) not found. Please install Android SDK Platform Tools."@)
    } else {
        match devices {
            Err(x) => Some(error_message(x@)),
            Ok(ds) => if ds@.len() == 0 {
                Some("No device connected. Please connect an Android device via USB or TCP."@)
            } else {
                None
            },
        }
    }
}

// ===== Package list =====

/// The package names that the output of `pm list packages` gives, in order:
/// each line that begins with `package:`, the rest trimmed.
pub open spec fn listed_names(lines: Seq<Seq<char>>) -> Seq<Seq<char>>
    decreases lines.len(),
{
    if lines.len() == 0 {
        Seq::empty()
    } else {
        let prev = listed_names(lines.drop_last());
        let l = lines.last();
        if starts_with(l, "package:"@) {
            prev.push(trim(l.subrange("package:"@.len() as int, l.len() as int)))
        } else {
            prev
        }
    }
}

/// The records of the packages named `names`.
pub open spec fn records_of(names: Seq<Seq<char>>) -> Seq<PackageModel> {
    Seq::new(names.len(), |i: int| record_of(names[i]))
}

pub open spec fn listed_views(v: Seq<Package>) -> Seq<PackageModel> {
    Seq::new(v.len(), |i: int| (v[i].package_name@, v[i].app_name@, v[i].safety_level@))
}

/// The packages that the output of `pm list packages -a` lists, each with its
/// display name and safety level, sorted by package name.
pub fn list_packages(output: &str) -> (r: Vec<Package>)
    ensures
        listed_views(r@).to_multiset() == records_of(listed_names(split_on(output@, '\n'))).to_multiset(),
        sorted_by_name(listed_views(r@)),
{
    let text = chars_of(output);
    let lines = split_char(&text, '\n');
    let ghost ls = views(lines@);
    let prefix = chars_of("package:");
    let mut found: Vec<StreamedPackage> = Vec::new();
    let mut i: usize = 0;
    assert(ls.subrange(0, 0) =~= Seq::<Seq<char>>::empty());
    assert(package_views(found@) =~= records_of(Seq::<Seq<char>>::empty()));
    while i < lines.len()
        invariant
            i <= lines.len(),
            ls == views(lines@),
            prefix@ == "package:"@,
            package_views(found@) == records_of(listed_names(ls.subrange(0, i as int))),
        decreases lines.len() - i,
    {
        assert(ls.subrange(0, i + 1).drop_last() =~= ls.subrange(0, i as int));
        let line = &lines[i];
        if crate::text::starts(line, &prefix) {
            let name = string_of(&trimmed(&slice_of(line, prefix.len(), line.len())));
            let ghost before = package_views(found@);
            let ghost nm = name@;
            found.push(classify_package(name));
            assert(package_views(found@) =~= before.push(record_of(nm)));
            assert(records_of(listed_names(ls.subrange(0, i + 1))) =~= records_of(
                listed_names(ls.subrange(0, i as int)),
            ).push(record_of(nm)));
        }
        i += 1;
    }
    assert(ls.subrange(0, lines.len() as int) =~= ls);
    sort_by_name(&mut found);
    let ghost sorted_v = package_views(found@);
    let mut out: Vec<Package> = Vec::new();
    while found.len() > 0
        invariant
            sorted_v.len() == out@.len() + found@.len(),
            listed_views(out@) == sorted_v.subrange(0, out@.len() as int),
            package_views(found@) == sorted_v.subrange(out@.len() as int, sorted_v.len() as int),
        decreases found.len(),
    {
        let ghost k = out@.len() as int;
        let ghost old_found = found@;
        let p = found.remove(0);
        assert(package_view(p) == sorted_v[k]) by {
            assert(package_views(old_found)[0] == sorted_v.subrange(k, sorted_v.len() as int)[0]);
        }
        assert(found@ =~= old_found.subrange(1, old_found.len() as int));
        assert(package_views(found@) =~= package_views(old_found).subrange(1, old_found.len() as int));
        out.push(Package { package_name: p.package_name, app_name: p.app_name, safety_level: p.safety_level });
        assert(listed_views(out@) =~= sorted_v.subrange(0, k + 1));
        assert(package_views(found@) =~= sorted_v.subrange(k + 1, sorted_v.len() as int));
    }
    assert(listed_views(out@) =~= sorted_v);
    out
}

// ===== Removing a package =====

/// The shell command that removes a package for the current user, keeping
/// its data; none for an empty name.
pub fn uninstall_command(package_name: &str) -> (r: Option<String>)
    ensures
        package_name@.len() == 0 ==> r is None,
        package_name@.len() > 0 ==> (r matches Some(c) && c@ == "pm uninstall -k "@ + package_name@),
{
    if package_name.is_empty() {
        return None;
    }
    Some(join2("pm uninstall -k ", package_name))
}

/// The outcome of a removal as plain values: success, message, error.
pub type UninstallModel = (bool, Option<Seq<char>>, Option<Seq<char>>);

pub open spec fn uninstall_view(r: UninstallResult) -> UninstallModel {
    (r.success, crate::adb::opt_view(r.message), crate::adb::opt_view(r.error))
}

/// The outcome of removing `name`, given what the command printed and that
/// text in lower case.
pub open spec fn uninstall_model(name: Seq<char>, output: Seq<char>, lowered: Seq<char>) -> UninstallModel {
    if name.len() == 0 {
        (false, None, Some("Package name cannot be empty"@))
    } else if contains(lowered, "success"@) {
        (true, Some("Successfully uninstalled "@ + name), None)
    } else if contains(lowered, "failure"@) {
        (false, None, Some("Failed to uninstall: "@ + trim(output)))
    } else {
        (false, None, Some("Unexpected response: "@ + trim(output)))
    }
}

/// The outcome of removing `package_name`, from the output of the removal
/// command and that output in lower case.
pub fn uninstall_result(package_name: &str, output: &str, lowered: &str) -> (r: UninstallResult)
    ensures
        uninstall_view(r) == uninstall_model(package_name@, output@, lowered@),
{
    if package_name.is_empty() {
        return UninstallResult {
            success: false,
            message: None,
            error: Some("Package name cannot be empty".to_owned()),
        };
    }
    let low = chars_of(lowered);
    if has_str(&low, "success") {
        UninstallResult {
            success: true,
            message: Some(join2("Successfully uninstalled ", package_name)),
            error: None,
        }
    } else if has_str(&low, "failure") {
        let t = string_of(&trim_str(output));
        UninstallResult {
            success: false,
            message: None,
            error: Some(join2("Failed to uninstall: ", t.as_str())),
        }
    } else {
        let t = string_of(&trim_str(output));
        UninstallResult {
            success: false,
            message: None,
            error: Some(join2("Unexpected response: ", t.as_str())),
        }
    }
}

/// The outcome of removing `package_name`, given how the removal command
/// went; an empty name fails whatever the command did.
pub fn uninstall_package(package_name: String, outcome: Result<String, AdbError>) -> (r: UninstallResult)
    ensures
        package_name@.len() == 0 ==> uninstall_view(r) == (false, None::<Seq<char>>, Some(
            "Package name cannot be empty"@,
        )),
        package_name@.len() > 0 ==> match outcome {
            Ok(out) => uninstall_view(r) == uninstall_model(package_name@, out@, lower_of(out@)),
            Err(e) => uninstall_view(r) == (false, None::<Seq<char>>, Some(error_message(e@))),
        },
{
    if package_name.as_str().is_empty() {
        return UninstallResult {
            success: false,
            message: None,
            error: Some("Package name cannot be empty".to_owned()),
        };
    }
    match outcome {
        Ok(out) => {
            let lowered = lowercase(out.as_str());
            uninstall_result(package_name.as_str(), out.as_str(), lowered.as_str())
        },
        Err(e) => UninstallResult { success: false, message: None, error: Some(adb_error_to_string(e)) },
    }
}

} // verus!
