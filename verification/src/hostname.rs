//! The container's host name.

use vstd::prelude::*;
use crate::errors::Errcode;
use crate::host::{HostCall, HostCallView, Origin, Step, StepView};
use crate::text::{all_alphanumeric, concat3};
use crate::utils::generate_random_str;

verus! {

/// The name of the runtime, with which every generated host name starts.
pub open spec fn hostname_base() -> Seq<char> {
    "orjail"@
}

/// The host name built from a given suffix.
pub open spec fn hostname_of(suffix: Seq<char>) -> Seq<char> {
    hostname_base() + "-"@ + suffix
}

/// Whether `name` is a host name that this library generates: the base
/// name, a hyphen, and four ASCII letters or digits.
pub open spec fn is_generated_hostname(name: Seq<char>) -> bool {
    exists|suffix: Seq<char>|
        suffix.len() == 4 && all_alphanumeric(suffix) && name == #[trigger] hostname_of(suffix)
}

/// The host name with the given suffix.
pub fn hostname_with(suffix: &str) -> (name: String)
    ensures
        name@ == hostname_of(suffix@),
{
    concat3("orjail", "-", suffix)
}

/// A fresh host name for a container. The random part only keeps
/// concurrent runs apart; nothing relies on it for security.
pub fn generate_hostname() -> (r: Result<String, Errcode>)
    ensures
        r matches Ok(name) && is_generated_hostname(name@),
{
    let suffix = generate_random_str(4);
    let name = hostname_with(suffix.as_str());
    assert(name@ == hostname_of(suffix@));
    Ok(name)
}

/// The step that gives the container its host name.
pub open spec fn hostname_step(hostname: Seq<char>) -> StepView {
    StepView { call: HostCallView::SetHostname { name: hostname }, origin: Origin::SetHostname }
}

/// Plans the change of the host name inside the container.
pub fn set_container_hostname(hostname: &String) -> (step: Step)
    ensures
        step.deep_view() == hostname_step(hostname@),
{
    Step { call: HostCall::SetHostname { name: hostname.clone() }, origin: Origin::SetHostname }
}

} // verus!
