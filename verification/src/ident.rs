//! Fresh session identities and the conventional on-disk paths of a session.
//!
//! The identifier comes from a random UUID and the timestamp from the local
//! clock; both calls live behind trusted wrappers, and everything built on
//! top of them is verified.

use vstd::prelude::*;
use vstd::string::StringExecFns;

verus! {

/// Relies on uuid's `Uuid::new_v4` and its `Display` impl: a fresh random
/// version-4 UUID rendered in the hyphenated form, which is 36 characters
/// long. The value itself is random, so nothing more is promised of it.
#[verifier::external_body]
fn fresh_uuid_string() -> (r: String)
    ensures
        r@.len() == 36,
{
    uuid::Uuid::new_v4().to_string()
}

/// Relies on chrono's `Local::now` and `DateTime::format`: the current local
/// time rendered as year-month-day hour:minute:second. The result depends on
/// the clock, so nothing is promised of it.
#[verifier::external_body]
fn local_timestamp_string() -> (r: String) {
    chrono::Local::now().format("%Y-%m-%d %H:%M:%S").to_string()
}

/// The identity a new session is created under: a freshly generated
/// identifier and the local timestamp of the moment it was taken.
pub struct SessionIdentity {
    pub id: String,
    pub timestamp: String,
}

/// Takes a fresh session identity: a random identifier of 36 characters and
/// the current local timestamp.
pub fn new_session_identity() -> (r: SessionIdentity)
    ensures
        r.id@.len() == 36,
{
    SessionIdentity { id: fresh_uuid_string(), timestamp: local_timestamp_string() }
}

/// The current local timestamp, for naming a recording at the moment it
/// finishes. Nothing is promised of it: it depends on the clock.
pub fn current_timestamp() -> String {
    local_timestamp_string()
}

/// The directory a session records into, named after its identifier.
pub open spec fn recording_dir_spec(id: Seq<char>) -> Seq<char> {
    id + ".cap"@
}

/// Builds the session directory name from the session identifier.
pub fn recording_dir_name(id: &String) -> (r: String)
    ensures
        r@ == recording_dir_spec(id@),
{
    id.clone().concat(".cap")
}

/// The muxed output file of an instant recording, relative to the project
/// directory.
pub open spec fn instant_output_rel_spec() -> Seq<char> {
    "content/output.mp4"@
}

/// The absolute place of a file under a project directory.
pub open spec fn joined_path_spec(dir: Seq<char>, rel: Seq<char>) -> Seq<char> {
    dir + "/"@ + rel
}

/// Joins a path relative to the project directory onto the directory.
pub fn joined_path(dir: &String, rel: &String) -> (r: String)
    ensures
        r@ == joined_path_spec(dir@, rel@),
{
    dir.clone().concat("/").concat(rel.as_str())
}

/// The muxed output file of an instant recording under its project
/// directory.
pub open spec fn instant_output_path_spec(dir: Seq<char>) -> Seq<char> {
    joined_path_spec(dir, instant_output_rel_spec())
}

/// Builds the output file path of an instant recording from its project
/// directory.
pub fn instant_output_path(dir: &String) -> (r: String)
    ensures
        r@ == instant_output_path_spec(dir@),
{
    dir.clone().concat("/").concat("content/output.mp4")
}

/// The representative screenshot of a recording under its project directory.
pub open spec fn display_screenshot_path_spec(dir: Seq<char>) -> Seq<char> {
    dir + "/screenshots/display.jpg"@
}

/// Builds the screenshot path of a recording from its project directory.
pub fn display_screenshot_path(dir: &String) -> (r: String)
    ensures
        r@ == display_screenshot_path_spec(dir@),
{
    dir.clone().concat("/screenshots/display.jpg")
}

} // verus!
