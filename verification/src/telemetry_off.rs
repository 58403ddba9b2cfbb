//! The telemetry API of a build with telemetry disabled: every entry point
//! keeps its signature, does no I/O and reports nothing.

use vstd::prelude::*;
use crate::telemetry::PendingRecord;

verus! {

/// `telemetry disabled at compile time`.
pub open spec fn disabled_message() -> Seq<char> {
    "telemetry disabled at compile time"@
}

fn disabled() -> (s: String)
    ensures
        s@ == disabled_message(),
{
    proof {
        reveal_strlit("telemetry disabled at compile time");
    }
    "telemetry disabled at compile time".to_owned()
}

/// No install id: always empty.
pub fn get_install_id(_app_data_dir: &str) -> (s: String)
    ensures
        s@.len() == 0,
{
    String::new()
}

/// Stores nothing.
pub fn write_pending(_app_data_dir: &str, _record: &PendingRecord) {
}

/// Always no records.
pub fn list_pending(_app_data_dir: &str) -> (r: Vec<(String, PendingRecord)>)
    ensures
        r@.len() == 0,
{
    Vec::new()
}

/// Deletes nothing.
pub fn clear_uploaded(_app_data_dir: &str, _ids: &Vec<String>) {
}

/// The text unchanged: nothing is reported, so nothing needs anonymising.
pub fn anonymize_text(input: &str) -> (s: String)
    ensures
        s@ == input@,
{
    input.to_owned()
}

/// Starts nothing; the SDK is never active.
pub fn init(_app_data_dir: String, _telemetry_enabled: bool) -> (b: bool)
    ensures
        !b,
{
    false
}

/// Never active.
pub fn sdk_active() -> (b: bool)
    ensures
        !b,
{
    false
}

/// Installs no panic hook.
pub fn register_panic_hook() {
}

/// Sends no startup event.
pub fn report_startup() {
}

/// Drops the error.
pub fn report_safe_try_error(_code: &str, _function: &str, _location: String, _message: &str) {
}

/// Uploads nothing.
pub fn upload_pending_silently() {
}

/// Always fails: telemetry is disabled.
pub fn authorize_upload_all(_code: &str, _message: &str) -> (r: Result<u32, String>)
    ensures
        r matches Err(m) && m@ == disabled_message(),
{
    Err(disabled())
}

/// Always fails: telemetry is disabled.
pub fn test_report() -> (r: Result<(), String>)
    ensures
        r matches Err(m) && m@ == disabled_message(),
{
    Err(disabled())
}

/// Succeeds without storing anything.
pub fn store_pending_report(_code: &str, _message: &str) -> (r: Result<(), String>)
    ensures
        r is Ok,
{
    Ok(())
}

/// Always zero records.
pub fn list_pending_reports() -> (n: usize)
    ensures
        n == 0,
{
    0
}

} // verus!
