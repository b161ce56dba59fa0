//! Serving agent binaries: which file an architecture names and how it is
//! offered.

use vstd::prelude::*;
use crate::text::owned;

verus! {

broadcast use vstd::string::group_string_axioms;

/// The binary served for an architecture: one build each for `x86_64` and
/// `aarch64`.
pub open spec fn spec_agent_binary(arch: Seq<char>) -> Option<Seq<char>> {
    if arch == "x86_64"@ {
        Some("dockup-agent-x86_64"@)
    } else if arch == "aarch64"@ {
        Some("dockup-agent-aarch64"@)
    } else {
        None
    }
}

/// The text of the answer for an architecture without a build.
pub open spec fn unsupported_arch_text(arch: Seq<char>) -> Seq<char> {
    "Unsupported arch: "@ + arch + ". Valid values: x86_64, aarch64"@
}

/// The status of the answer for an architecture without a build.
pub const BAD_REQUEST: u16 = 400;

/// Chooses the binary for `arch`, or the answer `400 Bad Request` with its
/// text.
pub fn agent_binary(arch: &str) -> (r: Result<String, (u16, String)>)
    ensures
        match spec_agent_binary(arch@) {
            Some(f) => r matches Ok(name) && name@ == f,
            None => r matches Err((status, text)) && status == 400 && text@ == unsupported_arch_text(arch@),
        },
{
    let a = owned(arch);
    if a == owned("x86_64") {
        Ok(owned("dockup-agent-x86_64"))
    } else if a == owned("aarch64") {
        Ok(owned("dockup-agent-aarch64"))
    } else {
        let mut text = owned("Unsupported arch: ");
        text.append(arch);
        text.append(". Valid values: x86_64, aarch64");
        Err((BAD_REQUEST, text))
    }
}

/// Where the binaries are kept on the server.
pub fn agent_binary_path(filename: &str) -> (r: String)
    ensures
        r@ == "/app/agent-binaries/"@ + filename@,
{
    let mut p = owned("/app/agent-binaries/");
    p.append(filename);
    p
}

/// The `Content-Disposition` header that offers the binary as a download.
pub fn content_disposition(filename: &str) -> (r: String)
    ensures
        r@ == "attachment; filename=\""@ + filename@ + "\""@,
{
    let mut h = owned("attachment; filename=\"");
    h.append(filename);
    h.append("\"");
    h
}

} // verus!
