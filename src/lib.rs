// Companion library for removing pre-installed apps from Android devices
// over the debug bridge (adb).
//
// - `adb`: the bridge locator, the error classification of bridge commands,
//   the device listing parser and its short-lived cache.
// - `package_stream`: the package enumeration, sent out in batches, and the
//   per-device package cache it replays from.
// - `system_health`: the device health metrics, each with its own cache slot.
// - `commands`: what the user interface asks of the device.
// - `package_database`: what is known of the safety of removing a package.
// - `backup`, `chatbot`, `ai_advisor`: backups, and the assistant's logic.
// - `text`: the text operations the parsers are built from.

pub mod adb;
pub mod ai_advisor;
pub mod backup;
pub mod chatbot;
pub mod commands;
pub mod package_database;
pub mod package_stream;
pub mod system_health;
pub mod text;
