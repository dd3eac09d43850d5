//! Choosing the overlay configuration of a monitor. The configuration file
//! itself (floating-point geometry) is read by the caller; what is decided
//! here is which monitor entry applies.

use vstd::prelude::*;
use vstd::string::StringExecFns;

verus! {

/// The position of the first monitor entry named `monitor_name`, or `None`
/// when the configuration has no entry for it (and so no overlay).
pub fn find_monitor(names: &Vec<String>, monitor_name: &str) -> (r: Option<usize>)
    ensures
        match r {
            Some(i) => i < names@.len() && names@[i as int]@ == monitor_name@ && forall|j: int|
                0 <= j < i ==> (#[trigger] names@[j])@ != monitor_name@,
            None => forall|j: int| 0 <= j < names@.len() ==> (#[trigger] names@[j])@ != monitor_name@,
        },
{
    let wanted = String::from_str(monitor_name);
    let mut i: usize = 0;
    while i < names.len()
        invariant
            i <= names@.len(),
            wanted@ == monitor_name@,
            forall|j: int| 0 <= j < i ==> (#[trigger] names@[j])@ != monitor_name@,
        decreases names@.len() - i,
    {
        if names[i] == wanted {
            return Some(i);
        }
        i = i + 1;
    }
    None
}

/// A per-monitor override replaces the default where it is given.
pub fn with_override<T>(default: T, override_value: Option<T>) -> (r: T)
    ensures
        r == match override_value {
            Some(v) => v,
            None => default,
        },
{
    match override_value {
        Some(v) => v,
        None => default,
    }
}

} // verus!
