//! The progress messages of a container update.

use vstd::prelude::*;
use crate::text::{owned, views};

verus! {

broadcast use vstd::string::group_string_axioms;

/// The first message of an update.
pub open spec fn spec_start_message(name: Seq<char>) -> Seq<char> {
    "Starting update for container: "@ + name + "\n"@
}

/// The message that reports a successful update.
pub open spec fn spec_success_message(name: Seq<char>) -> Seq<char> {
    "Container "@ + name + " updated successfully.\n"@
}

/// The message that reports a failed update.
pub open spec fn spec_failure_message(name: Seq<char>, error: Seq<char>) -> Seq<char> {
    "Failed to update container "@ + name + ": "@ + error + "\n"@
}

/// The first message of the update of container `name`.
pub fn start_message(name: &str) -> (r: String)
    ensures
        r@ == spec_start_message(name@),
{
    let mut m = owned("Starting update for container: ");
    m.append(name);
    m.append("\n");
    m
}

/// The messages that follow the recreation of container `name`, and whether
/// the update succeeded: on success the recreation output and a success line,
/// on failure a line with the error.
pub fn outcome_messages(name: &str, result: Result<String, String>) -> (r: (Vec<String>, bool))
    ensures
        match result {
            Ok(output) => views(r.0@) == seq![output@, spec_success_message(name@)] && r.1,
            Err(e) => views(r.0@) == seq![spec_failure_message(name@, e@)] && !r.1,
        },
{
    let mut msgs: Vec<String> = Vec::new();
    match result {
        Ok(output) => {
            let ghost out = output@;
            msgs.push(output);
            let mut m = owned("Container ");
            m.append(name);
            m.append(" updated successfully.\n");
            msgs.push(m);
            assert(views(msgs@) =~= seq![out, spec_success_message(name@)]);
            (msgs, true)
        },
        Err(e) => {
            let mut m = owned("Failed to update container ");
            m.append(name);
            m.append(": ");
            m.append(e.as_str());
            m.append("\n");
            msgs.push(m);
            assert(views(msgs@) =~= seq![spec_failure_message(name@, e@)]);
            (msgs, false)
        },
    }
}

} // verus!
