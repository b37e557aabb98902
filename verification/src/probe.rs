//! Interpretation of capability probes: presence checks that collapse every
//! failure into "absent", version retrieval, the three-tier distribution
//! detection fallback, and the static environment description.

use vstd::prelude::*;
use vstd::string::*;
use crate::CommandResult;
use crate::text::{tagged_line_value, tagged_value_spec, trim, trim_spec};

verus! {

/// A probed capability counts as present exactly when the probe's process
/// could be spawned and exited with status zero; a spawn failure is an
/// expected outcome, not an error.
pub open spec fn presence_spec(outcome: Result<CommandResult, String>) -> bool {
    outcome matches Ok(res) && res.success
}

/// The version-retrieval result: on any spawned probe, the probe's output
/// trimmed of surrounding whitespace; when no candidate could be spawned, an
/// explicit not-found failure carrying the reported cause.
pub open spec fn version_spec(outcome: Result<CommandResult, String>) -> Result<
    Seq<char>,
    Seq<char>,
> {
    match outcome {
        Result::Ok(res) => Result::Ok(trim_spec(res.output@)),
        Result::Err(cause) => Result::Err("Python not found: "@ + cause@),
    }
}

/// The distribution description drawn from the fallback sources alone: the
/// `PRETTY_NAME` field of the descriptor file when the file was readable and
/// holds one, else the unknown sentinel.
pub open spec fn distro_fallback_spec(descriptor: Option<Seq<char>>) -> Seq<char> {
    match descriptor {
        Option::Some(content) => match tagged_value_spec(content, "PRETTY_NAME="@) {
            Option::Some(value) => value,
            Option::None => "Unknown Linux"@,
        },
        Option::None => "Unknown Linux"@,
    }
}

/// The three-tier distribution description: the descriptor tool's trimmed
/// output when it ran and succeeded; else the descriptor file's
/// `PRETTY_NAME` field; else the unknown sentinel. Every tier yields a
/// string — never an error.
pub open spec fn distro_spec(
    primary: Option<CommandResult>,
    descriptor: Option<Seq<char>>,
) -> Seq<char> {
    match primary {
        Option::Some(res) => if res.success {
            trim_spec(res.output@)
        } else {
            distro_fallback_spec(descriptor)
        },
        Option::None => distro_fallback_spec(descriptor),
    }
}

/// Collapses a probe's outcome into presence: true exactly when the probe
/// spawned and exited zero. Total — a missing tool is reported as `false`,
/// never as an error.
pub fn tool_present(outcome: &Result<CommandResult, String>) -> (r: bool)
    ensures
        r == presence_spec(*outcome),
{
    match outcome {
        Result::Ok(res) => res.success,
        Result::Err(_) => false,
    }
}

/// Turns a version probe's outcome into the trimmed single-line version
/// string, or the explicit not-found failure when nothing could be spawned.
pub fn version_from_outcome(outcome: Result<CommandResult, String>) -> (r: Result<String, String>)
    ensures
        r matches Ok(v) ==> (version_spec(outcome) matches Ok(w) && v@ == w),
        r matches Err(m) ==> (version_spec(outcome) matches Err(w) && m@ == w),
        (r is Ok) == (outcome is Ok),
{
    match outcome {
        Result::Ok(res) => Result::Ok(trim(res.output.as_str())),
        Result::Err(cause) => Result::Err(
            String::from_str("Python not found: ").concat(cause.as_str()),
        ),
    }
}

/// Applies the fallback tiers to the descriptor file's content (or its
/// absence).
fn distro_fallback(descriptor: Option<String>) -> (r: String)
    ensures
        r@ == distro_fallback_spec(
            match descriptor {
                Option::Some(content) => Option::Some(content@),
                Option::None => Option::None,
            },
        ),
{
    match descriptor {
        Option::Some(content) => match tagged_line_value(content.as_str(), "PRETTY_NAME=") {
            Option::Some(value) => value,
            Option::None => String::from_str("Unknown Linux"),
        },
        Option::None => String::from_str("Unknown Linux"),
    }
}

/// The distribution description. `primary` is the descriptor tool's result
/// where it could be spawned; `descriptor` is the descriptor file's content
/// where it could be read. Yields a description through the first tier that
/// answers, and the unknown sentinel when none does — never an error.
pub fn distro_description(primary: Option<CommandResult>, descriptor: Option<String>) -> (r:
    String)
    ensures
        r@ == distro_spec(
            primary,
            match descriptor {
                Option::Some(content) => Option::Some(content@),
                Option::None => Option::None,
            },
        ),
{
    match primary {
        Option::Some(res) => {
            if res.success {
                trim(res.output.as_str())
            } else {
                distro_fallback(descriptor)
            }
        },
        Option::None => distro_fallback(descriptor),
    }
}

/// Static descriptive strings of the host, read once per query and never
/// mutated.
pub struct EnvironmentInfo {
    pub platform: String,
    pub architecture: String,
    pub family: String,
}

impl EnvironmentInfo {
    /// Packages the host's descriptive constants.
    pub fn new(platform: String, architecture: String, family: String) -> (r: EnvironmentInfo)
        ensures
            r.platform@ == platform@,
            r.architecture@ == architecture@,
            r.family@ == family@,
    {
        EnvironmentInfo { platform, architecture, family }
    }
}

/// Read-only checks are idempotent: the interpretation of a presence,
/// version or distribution probe is a function of the host's response alone,
/// so two invocations that observe the same responses — a host whose state
/// has not changed — yield identical results.
pub proof fn lemma_probe_idempotent(
    a: Result<CommandResult, String>,
    b: Result<CommandResult, String>,
    pa: Option<CommandResult>,
    pb: Option<CommandResult>,
    da: Option<Seq<char>>,
    db: Option<Seq<char>>,
)
    requires
        a == b,
        pa == pb,
        da == db,
    ensures
        presence_spec(a) == presence_spec(b),
        version_spec(a) == version_spec(b),
        distro_spec(pa, da) == distro_spec(pb, db),
{
}

} // verus!
