use vstd::prelude::*;

use crate::text::{
    chars_of, contains, has_str, lemma_split_on_nonempty, slice_of, split_char, split_on,
    string_of, views,
};

verus! {

/// How safe it is to remove a package from a device.
#[derive(Debug, Clone, Copy, PartialEq, Eq, Structural)]
pub enum SafetyLevel {
    /// Third-party apps and bloatware.
    Safe,
    /// Vendor apps: some features may be affected.
    Caution,
    /// May break functionality; for experienced users.
    Expert,
    /// Critical system components.
    Dangerous,
}

pub open spec fn level_name(l: SafetyLevel) -> Seq<char> {
    match l {
        SafetyLevel::Safe => "Safe"@,
        SafetyLevel::Caution => "Caution"@,
        SafetyLevel::Expert => "Expert"@,
        SafetyLevel::Dangerous => "Dangerous"@,
    }
}

impl SafetyLevel {
    pub fn as_str(&self) -> (r: &'static str)
        ensures
            r@ == level_name(*self),
    {
        match self {
            SafetyLevel::Safe => "Safe",
            SafetyLevel::Caution => "Caution",
            SafetyLevel::Expert => "Expert",
            SafetyLevel::Dangerous => "Dangerous",
        }
    }
}

/// What the knowledge base records of one package.
#[derive(Debug)]
pub struct PackageInfo {
    pub name: String,
    pub display_name: String,
    pub safety_level: SafetyLevel,
    pub reason: String,
    pub can_reinstall: bool,
}

/// A record of the knowledge base as plain values: name, display name,
/// safety level, reason, whether it can be reinstalled.
pub type Entry = (Seq<char>, Seq<char>, SafetyLevel, Seq<char>, bool);

pub open spec fn entry_of(i: PackageInfo) -> Entry {
    (i.name@, i.display_name@, i.safety_level, i.reason@, i.can_reinstall)
}

pub open spec fn entries_of(v: Seq<PackageInfo>) -> Seq<Entry> {
    Seq::new(v.len(), |k: int| entry_of(v[k]))
}

/// The packages whose safety is known, in a fixed order.
pub open spec fn known_packages() -> Seq<Entry> {
    seq![
        ("com.android.systemui"@, "System UI"@, SafetyLevel::Dangerous, "Critical system component - manages UI, notifications, status bar"@, false),
        ("com.android.phone"@, "Phone"@, SafetyLevel::Dangerous, "Required for phone calls and cellular functionality"@, false),
        ("com.android.settings"@, "Settings"@, SafetyLevel::Dangerous, "System settings app - removing will break device configuration"@, false),
        ("com.android.launcher3"@, "Launcher"@, SafetyLevel::Dangerous, "Default launcher - removing may prevent accessing home screen"@, false),
        ("com.android.vending"@, "Google Play Store"@, SafetyLevel::Dangerous, "Required for app installation and updates"@, false),
        ("com.google.android.gms"@, "Google Play Services"@, SafetyLevel::Expert, "Many apps depend on this - removing may break functionality"@, true),
        ("com.google.android.gsf"@, "Google Services Framework"@, SafetyLevel::Expert, "Required for Google account sync and Play Store"@, true),
        ("com.android.bluetooth"@, "Bluetooth"@, SafetyLevel::Expert, "Bluetooth functionality - removing disables BT completely"@, false),
        ("com.android.nfc"@, "NFC Service"@, SafetyLevel::Expert, "Near-field communication - needed for contactless payments"@, false),
        ("com.android.providers.contacts"@, "Contacts Storage"@, SafetyLevel::Expert, "Stores contacts data - removing may cause data loss"@, false),
        ("com.verizon.services"@, "Verizon Services"@, SafetyLevel::Expert, "Carrier-specific services - may affect network features"@, true),
        ("com.att.myWireless"@, "AT&T MyWireless"@, SafetyLevel::Expert, "AT&T account management - may affect carrier features"@, true),
        ("com.sprint.zone"@, "Sprint Zone"@, SafetyLevel::Expert, "Sprint carrier app - may impact network services"@, true),
        ("com.facebook.katana"@, "Facebook"@, SafetyLevel::Caution, "Pre-installed Facebook app - safe to remove but may be system app"@, true),
        ("com.facebook.services"@, "Facebook Services"@, SafetyLevel::Caution, "Facebook background services - tracks usage"@, true),
        ("com.facebook.system"@, "Facebook App Manager"@, SafetyLevel::Caution, "Facebook system integration - can be removed"@, true),
        ("com.instagram.android"@, "Instagram"@, SafetyLevel::Caution, "Pre-installed Instagram - safe to remove"@, true),
        ("com.whatsapp"@, "WhatsApp"@, SafetyLevel::Caution, "Pre-installed messaging app - can be reinstalled from Play Store"@, true),
        ("com.samsung.android.app.spage"@, "Samsung Free"@, SafetyLevel::Caution, "Samsung news/content aggregator - safe to remove"@, true),
        ("com.samsung.android.bixby.agent"@, "Bixby Voice"@, SafetyLevel::Caution, "Samsung voice assistant - safe to remove if not used"@, true),
        ("com.samsung.android.game.gametools"@, "Game Tools"@, SafetyLevel::Caution, "Samsung gaming features - safe to remove if not gaming"@, true),
        ("com.sec.android.app.samsungapps"@, "Galaxy Store"@, SafetyLevel::Caution, "Samsung app store - can be removed if using Play Store only"@, true),
        ("com.samsung.android.messaging"@, "Samsung Messages"@, SafetyLevel::Caution, "Samsung SMS app - safe if using alternative messaging app"@, true),
        ("com.xiaomi.micloud.sdk"@, "Mi Cloud"@, SafetyLevel::Caution, "Xiaomi cloud services - safe to remove if not using Mi account"@, true),
        ("com.miui.analytics"@, "MIUI Analytics"@, SafetyLevel::Caution, "Xiaomi usage tracking - recommended to remove for privacy"@, true),
        ("com.miui.msa.global"@, "MIUI Ad Services"@, SafetyLevel::Caution, "Xiaomi advertising service - safe to remove"@, true),
        ("com.huawei.appmarket"@, "Huawei AppGallery"@, SafetyLevel::Caution, "Huawei app store - can be removed if using alternatives"@, true),
        ("com.oppo.market"@, "OPPO App Market"@, SafetyLevel::Caution, "OPPO app store - safe to remove"@, true),
        ("com.google.android.apps.maps"@, "Google Maps"@, SafetyLevel::Safe, "Navigation app - easily reinstallable from Play Store"@, true),
        ("com.google.android.gm"@, "Gmail"@, SafetyLevel::Safe, "Email client - can be reinstalled from Play Store"@, true),
        ("com.google.android.youtube"@, "YouTube"@, SafetyLevel::Safe, "Video streaming app - easily reinstallable"@, true),
        ("com.google.android.apps.photos"@, "Google Photos"@, SafetyLevel::Safe, "Photo management app - can be reinstalled"@, true),
        ("com.google.android.apps.docs"@, "Google Drive"@, SafetyLevel::Safe, "Cloud storage app - reinstallable from Play Store"@, true),
        ("com.google.android.music"@, "Google Play Music"@, SafetyLevel::Safe, "Music player (deprecated) - safe to remove"@, true),
        ("com.google.android.videos"@, "Google Play Movies & TV"@, SafetyLevel::Safe, "Video streaming app - easily reinstallable"@, true),
        ("com.android.chrome"@, "Chrome Browser"@, SafetyLevel::Safe, "Web browser - can be reinstalled from Play Store"@, true),
        ("com.netflix.mediaclient"@, "Netflix"@, SafetyLevel::Safe, "Pre-installed streaming app - easily reinstallable"@, true),
        ("com.spotify.music"@, "Spotify"@, SafetyLevel::Safe, "Music streaming app - reinstallable from Play Store"@, true),
        ("com.microsoft.office.officehubrow"@, "Microsoft Office"@, SafetyLevel::Safe, "Office productivity app - can be reinstalled"@, true),
        ("com.android.calendar"@, "Calendar"@, SafetyLevel::Safe, "Calendar app - safe to remove if using alternative"@, true),
        ("com.android.calculator2"@, "Calculator"@, SafetyLevel::Safe, "Calculator app - easily replaceable"@, true),
        ("com.android.deskclock"@, "Clock"@, SafetyLevel::Safe, "Clock/timer/alarm app - safe to remove if using alternative"@, true),
        ("com.android.email"@, "Email"@, SafetyLevel::Safe, "Stock email client - safe to remove if using Gmail/Outlook"@, true),
        ("com.tiktok.android"@, "TikTok"@, SafetyLevel::Caution, "Pre-installed social media app - tracks usage extensively"@, true),
        ("com.android.traceur"@, "System Tracing"@, SafetyLevel::Caution, "Developer debugging tool - safe to remove for regular users"@, true),
        ("com.google.android.apps.turbo"@, "Device Health Services"@, SafetyLevel::Caution, "Background optimization - may affect battery estimates"@, true),
        ("com.samsung.android.scloud"@, "Samsung Cloud"@, SafetyLevel::Caution, "Samsung backup service - safe to remove if using Google backup"@, true),
    ]
}

fn entry(name: &str, display_name: &str, level: SafetyLevel, reason: &str, can_reinstall: bool) -> (r: PackageInfo)
    ensures
        entry_of(r) == (name@, display_name@, level, reason@, can_reinstall),
{
    PackageInfo {
        name: name.to_owned(),
        display_name: display_name.to_owned(),
        safety_level: level,
        reason: reason.to_owned(),
        can_reinstall,
    }
}

/// Every package of the knowledge base.
#[verifier::rlimit(40)]
pub fn get_all_packages() -> (r: Vec<PackageInfo>)
    ensures
        entries_of(r@) == known_packages(),
{
    let mut table: Vec<PackageInfo> = Vec::new();
    table.push(entry("com.android.systemui", "System UI", SafetyLevel::Dangerous, "Critical system component - manages UI, notifications, status bar", false));
    table.push(entry("com.android.phone", "Phone", SafetyLevel::Dangerous, "Required for phone calls and cellular functionality", false));
    table.push(entry("com.android.settings", "Settings", SafetyLevel::Dangerous, "System settings app - removing will break device configuration", false));
    table.push(entry("com.android.launcher3", "Launcher", SafetyLevel::Dangerous, "Default launcher - removing may prevent accessing home screen", false));
    table.push(entry("com.android.vending", "Google Play Store", SafetyLevel::Dangerous, "Required for app installation and updates", false));
    table.push(entry("com.google.android.gms", "Google Play Services", SafetyLevel::Expert, "Many apps depend on this - removing may break functionality", true));
    table.push(entry("com.google.android.gsf", "Google Services Framework", SafetyLevel::Expert, "Required for Google account sync and Play Store", true));
    table.push(entry("com.android.bluetooth", "Bluetooth", SafetyLevel::Expert, "Bluetooth functionality - removing disables BT completely", false));
    table.push(entry("com.android.nfc", "NFC Service", SafetyLevel::Expert, "Near-field communication - needed for contactless payments", false));
    table.push(entry("com.android.providers.contacts", "Contacts Storage", SafetyLevel::Expert, "Stores contacts data - removing may cause data loss", false));
    table.push(entry("com.verizon.services", "Verizon Services", SafetyLevel::Expert, "Carrier-specific services - may affect network features", true));
    table.push(entry("com.att.myWireless", "AT&T MyWireless", SafetyLevel::Expert, "AT&T account management - may affect carrier features", true));
    table.push(entry("com.sprint.zone", "Sprint Zone", SafetyLevel::Expert, "Sprint carrier app - may impact network services", true));
    table.push(entry("com.facebook.katana", "Facebook", SafetyLevel::Caution, "Pre-installed Facebook app - safe to remove but may be system app", true));
    table.push(entry("com.facebook.services", "Facebook Services", SafetyLevel::Caution, "Facebook background services - tracks usage", true));
    table.push(entry("com.facebook.system", "Facebook App Manager", SafetyLevel::Caution, "Facebook system integration - can be removed", true));
    table.push(entry("com.instagram.android", "Instagram", SafetyLevel::Caution, "Pre-installed Instagram - safe to remove", true));
    table.push(entry("com.whatsapp", "WhatsApp", SafetyLevel::Caution, "Pre-installed messaging app - can be reinstalled from Play Store", true));
    table.push(entry("com.samsung.android.app.spage", "Samsung Free", SafetyLevel::Caution, "Samsung news/content aggregator - safe to remove", true));
    table.push(entry("com.samsung.android.bixby.agent", "Bixby Voice", SafetyLevel::Caution, "Samsung voice assistant - safe to remove if not used", true));
    table.push(entry("com.samsung.android.game.gametools", "Game Tools", SafetyLevel::Caution, "Samsung gaming features - safe to remove if not gaming", true));
    table.push(entry("com.sec.android.app.samsungapps", "Galaxy Store", SafetyLevel::Caution, "Samsung app store - can be removed if using Play Store only", true));
    table.push(entry("com.samsung.android.messaging", "Samsung Messages", SafetyLevel::Caution, "Samsung SMS app - safe if using alternative messaging app", true));
    table.push(entry("com.xiaomi.micloud.sdk", "Mi Cloud", SafetyLevel::Caution, "Xiaomi cloud services - safe to remove if not using Mi account", true));
    table.push(entry("com.miui.analytics", "MIUI Analytics", SafetyLevel::Caution, "Xiaomi usage tracking - recommended to remove for privacy", true));
    table.push(entry("com.miui.msa.global", "MIUI Ad Services", SafetyLevel::Caution, "Xiaomi advertising service - safe to remove", true));
    table.push(entry("com.huawei.appmarket", "Huawei AppGallery", SafetyLevel::Caution, "Huawei app store - can be removed if using alternatives", true));
    table.push(entry("com.oppo.market", "OPPO App Market", SafetyLevel::Caution, "OPPO app store - safe to remove", true));
    table.push(entry("com.google.android.apps.maps", "Google Maps", SafetyLevel::Safe, "Navigation app - easily reinstallable from Play Store", true));
    table.push(entry("com.google.android.gm", "Gmail", SafetyLevel::Safe, "Email client - can be reinstalled from Play Store", true));
    table.push(entry("com.google.android.youtube", "YouTube", SafetyLevel::Safe, "Video streaming app - easily reinstallable", true));
    table.push(entry("com.google.android.apps.photos", "Google Photos", SafetyLevel::Safe, "Photo management app - can be reinstalled", true));
    table.push(entry("com.google.android.apps.docs", "Google Drive", SafetyLevel::Safe, "Cloud storage app - reinstallable from Play Store", true));
    table.push(entry("com.google.android.music", "Google Play Music", SafetyLevel::Safe, "Music player (deprecated) - safe to remove", true));
    table.push(entry("com.google.android.videos", "Google Play Movies & TV", SafetyLevel::Safe, "Video streaming app - easily reinstallable", true));
    table.push(entry("com.android.chrome", "Chrome Browser", SafetyLevel::Safe, "Web browser - can be reinstalled from Play Store", true));
    table.push(entry("com.netflix.mediaclient", "Netflix", SafetyLevel::Safe, "Pre-installed streaming app - easily reinstallable", true));
    table.push(entry("com.spotify.music", "Spotify", SafetyLevel::Safe, "Music streaming app - reinstallable from Play Store", true));
    table.push(entry("com.microsoft.office.officehubrow", "Microsoft Office", SafetyLevel::Safe, "Office productivity app - can be reinstalled", true));
    table.push(entry("com.android.calendar", "Calendar", SafetyLevel::Safe, "Calendar app - safe to remove if using alternative", true));
    table.push(entry("com.android.calculator2", "Calculator", SafetyLevel::Safe, "Calculator app - easily replaceable", true));
    table.push(entry("com.android.deskclock", "Clock", SafetyLevel::Safe, "Clock/timer/alarm app - safe to remove if using alternative", true));
    table.push(entry("com.android.email", "Email", SafetyLevel::Safe, "Stock email client - safe to remove if using Gmail/Outlook", true));
    table.push(entry("com.tiktok.android", "TikTok", SafetyLevel::Caution, "Pre-installed social media app - tracks usage extensively", true));
    table.push(entry("com.android.traceur", "System Tracing", SafetyLevel::Caution, "Developer debugging tool - safe to remove for regular users", true));
    table.push(entry("com.google.android.apps.turbo", "Device Health Services", SafetyLevel::Caution, "Background optimization - may affect battery estimates", true));
    table.push(entry("com.samsung.android.scloud", "Samsung Cloud", SafetyLevel::Caution, "Samsung backup service - safe to remove if using Google backup", true));
    assert(entries_of(table@) =~= known_packages());
    table
}

/// The first record of `t` named `p`.
pub open spec fn lookup_in(t: Seq<Entry>, p: Seq<char>) -> Option<Entry>
    decreases t.len(),
{
    if t.len() == 0 {
        None
    } else if t[0].0 == p {
        Some(t[0])
    } else {
        lookup_in(t.drop_first(), p)
    }
}

/// What the knowledge base records of the package named `p`.
pub open spec fn lookup(p: Seq<char>) -> Option<Entry> {
    lookup_in(known_packages(), p)
}

/// The index in `table` of the record named `package`.
fn position(table: &Vec<PackageInfo>, package: &str) -> (r: Option<usize>)
    ensures
        match r {
            Some(i) => i < table.len() && lookup_in(entries_of(table@), package@) == Some(
                entry_of(table@[i as int]),
            ),
            None => lookup_in(entries_of(table@), package@) is None,
        },
{
    let wanted = package.to_owned();
    let n = table.len();
    let mut i: usize = 0;
    assert(entries_of(table@).subrange(0, n as int) =~= entries_of(table@));
    while i < n
        invariant
            i <= n == table.len(),
            wanted@ == package@,
            lookup_in(entries_of(table@), package@) == lookup_in(
                entries_of(table@).subrange(i as int, n as int),
                package@,
            ),
        decreases n - i,
    {
        let ghost rest = entries_of(table@).subrange(i as int, n as int);
        assert(rest.len() > 0);
        assert(rest[0] == entry_of(table@[i as int]));
        if table[i].name == wanted {
            assert(lookup_in(rest, package@) == Some(rest[0]));
            return Some(i);
        }
        assert(rest[0].0 != package@);
        assert(lookup_in(rest, package@) == lookup_in(rest.drop_first(), package@));
        assert(rest.drop_first() =~= entries_of(table@).subrange(i + 1, n as int));
        i += 1;
    }
    None
}

/// The level given to a package the knowledge base does not know, from the
/// vendor its name mentions.
pub open spec fn pattern_level(p: Seq<char>) -> SafetyLevel {
    if contains(p, "com.facebook"@) || contains(p, "com.instagram"@) || contains(
        p,
        "com.tiktok"@,
    ) {
        SafetyLevel::Caution
    } else if contains(p, "com.google.android.gms"@) || contains(p, "com.android.vending"@)
        || contains(p, "com.android.systemui"@) {
        SafetyLevel::Dangerous
    } else if contains(p, "com.samsung"@) || contains(p, "com.xiaomi"@) || contains(
        p,
        "com.miui"@,
    ) || contains(p, "com.huawei"@) || contains(p, "com.oppo"@) || contains(p, "com.vivo"@) {
        SafetyLevel::Caution
    } else {
        SafetyLevel::Safe
    }
}

/// The safety level of the package named `p`.
pub open spec fn safety_of(p: Seq<char>) -> SafetyLevel {
    match lookup(p) {
        Some(e) => e.2,
        None => pattern_level(p),
    }
}

fn vendor_level(package: &str) -> (r: SafetyLevel)
    ensures
        r == pattern_level(package@),
{
    let p = chars_of(package);
    if has_str(&p, "com.facebook") || has_str(&p, "com.instagram") || has_str(&p, "com.tiktok") {
        SafetyLevel::Caution
    } else if has_str(&p, "com.google.android.gms") || has_str(&p, "com.android.vending")
        || has_str(&p, "com.android.systemui") {
        SafetyLevel::Dangerous
    } else if has_str(&p, "com.samsung") || has_str(&p, "com.xiaomi") || has_str(&p, "com.miui")
        || has_str(&p, "com.huawei") || has_str(&p, "com.oppo") || has_str(&p, "com.vivo") {
        SafetyLevel::Caution
    } else {
        SafetyLevel::Safe
    }
}

/// The safety level of a package: the knowledge base's, or else the one its
/// vendor suggests.
pub fn get_safety_level(package: &str) -> (r: SafetyLevel)
    ensures
        r == safety_of(package@),
{
    let table = get_all_packages();
    match position(&table, package) {
        Some(i) => table[i].safety_level,
        None => vendor_level(package),
    }
}

/// Whether a package may be removed without expert knowledge.
pub fn is_safe_to_remove(package: &str) -> (r: bool)
    ensures
        r == (safety_of(package@) == SafetyLevel::Safe || safety_of(package@)
            == SafetyLevel::Caution),
{
    let level = get_safety_level(package);
    match level {
        SafetyLevel::Safe | SafetyLevel::Caution => true,
        _ => false,
    }
}

/// The knowledge base's record of a package, if it has one.
pub fn get_package_info(package: &str) -> (r: Option<PackageInfo>)
    ensures
        match r {
            Some(info) => lookup(package@) == Some(entry_of(info)),
            None => lookup(package@) is None,
        },
{
    let mut table = get_all_packages();
    match position(&table, package) {
        Some(i) => Some(table.remove(i)),
        None => None,
    }
}

/// Why a package has its safety level.
pub fn get_safety_reason(package: &str) -> (r: String)
    ensures
        r@ == (match lookup(package@) {
            Some(e) => e.3,
            None => "No information available for this package."@,
        }),
{
    let mut table = get_all_packages();
    match position(&table, package) {
        Some(i) => table.remove(i).reason,
        None => "No information available for this package.".to_owned(),
    }
}

/// The name of what `char::to_uppercase` yields: the Unicode upper-case
/// mapping of one character, which may be several characters.
pub uninterp spec fn upper_of(c: char) -> Seq<char>;

/// Relies on `char::to_uppercase`: the result depends on the character alone.
#[verifier::external_body]
fn uppercase_char(c: char) -> (r: Vec<char>)
    ensures
        r@ == upper_of(c),
{
    c.to_uppercase().collect()
}

/// `w` with its first character in upper case.
pub open spec fn capitalized(w: Seq<char>) -> Seq<char> {
    if w.len() == 0 {
        w
    } else {
        upper_of(w[0]) + w.drop_first()
    }
}

/// The words `ws` joined by single spaces.
pub open spec fn joined_with_spaces(ws: Seq<Seq<char>>) -> Seq<char>
    decreases ws.len(),
{
    if ws.len() == 0 {
        Seq::empty()
    } else if ws.len() == 1 {
        ws[0]
    } else {
        joined_with_spaces(ws.drop_last()) + seq![' '] + ws.last()
    }
}

/// A readable name made from a package name: its last dot-separated part,
/// cut at underscores, each piece capitalized, joined by spaces.
pub open spec fn readable_name(p: Seq<char>) -> Seq<char> {
    let pieces = split_on(split_on(p, '.').last(), '_');
    joined_with_spaces(Seq::new(pieces.len(), |k: int| capitalized(pieces[k])))
}

/// The name shown for the package named `p`.
pub open spec fn display_name_of(p: Seq<char>) -> Seq<char> {
    match lookup(p) {
        Some(e) => e.1,
        None => readable_name(p),
    }
}

fn readable(package: &str) -> (r: String)
    ensures
        r@ == readable_name(package@),
{
    let p = chars_of(package);
    let parts = split_char(&p, '.');
    proof {
        lemma_split_on_nonempty(p@, '.');
    }
    let last = &parts[parts.len() - 1];
    assert(last@ == split_on(p@, '.').last());
    let pieces = split_char(last, '_');
    let ghost caps = Seq::new(
        views(pieces@).len(),
        |k: int| capitalized(views(pieces@)[k]),
    );
    let mut out: Vec<char> = Vec::new();
    let mut k: usize = 0;
    assert(caps.subrange(0, 0) =~= Seq::<Seq<char>>::empty());
    while k < pieces.len()
        invariant
            k <= pieces.len() == caps.len(),
            caps == Seq::new(views(pieces@).len(), |k: int| capitalized(views(pieces@)[k])),
            out@ == joined_with_spaces(caps.subrange(0, k as int)),
        decreases pieces.len() - k,
    {
        if k > 0 {
            out.push(' ');
        }
        let w = &pieces[k];
        assert(w@ == views(pieces@)[k as int]);
        if w.len() > 0 {
            let mut head = uppercase_char(w[0]);
            let mut tail = slice_of(w, 1, w.len());
            out.append(&mut head);
            out.append(&mut tail);
            assert(w@.drop_first() =~= w@.subrange(1, w@.len() as int));
        }
        assert(caps.subrange(0, k + 1).drop_last() =~= caps.subrange(0, k as int));
        if k == 0 {
            assert(out@ =~= caps[0]);
        } else {
            assert(out@ =~= joined_with_spaces(caps.subrange(0, k as int)) + seq![' '] + caps[k as int]);
        }
        k += 1;
    }
    assert(caps.subrange(0, pieces.len() as int) =~= caps);
    string_of(&out)
}

/// The name shown for a package: the knowledge base's, or else one made
/// readable from the package name.
pub fn get_display_name(package: &str) -> (r: String)
    ensures
        r@ == display_name_of(package@),
{
    let mut table = get_all_packages();
    match position(&table, package) {
        Some(i) => table.remove(i).display_name,
        None => readable(package),
    }
}

} // verus!
