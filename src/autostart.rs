//! Start-at-login registration: a value under the user's `Run` registry key,
//! named after the program, whose data is the executable's quoted path. The
//! registry itself is read and written by the caller.

use vstd::prelude::*;
use vstd::string::StringExecFns;

verus! {

/// Path of the registry key, under the current user's hive, whose values
/// are started at login.
pub fn run_key_path() -> (r: &'static str)
    ensures
        r@ == "Software\\Microsoft\\Windows\\CurrentVersion\\Run"@,
{
    "Software\\Microsoft\\Windows\\CurrentVersion\\Run"
}

/// Name of the registry value that registers this program.
pub open spec fn value_name() -> Seq<char> {
    "DisplayPeek"@
}

/// The command line that starts the executable at `path`: the path in
/// double quotes.
pub open spec fn quoted(path: Seq<char>) -> Seq<char> {
    seq!['"'] + path + seq!['"']
}

pub fn reg_key() -> (r: &'static str)
    ensures
        r@ == value_name(),
{
    "DisplayPeek"
}

pub fn start_cmd(exe_path: &str) -> (r: String)
    ensures
        r@ == quoted(exe_path@),
{
    proof {
        reveal_strlit("\"");
    }
    let mut cmd = String::from_str("\"");
    cmd.append(exe_path);
    cmd.append("\"");
    assert(cmd@ =~= quoted(exe_path@));
    cmd
}

/// A registry value to write: its name and its string data.
#[derive(Clone, Debug, PartialEq, Eq)]
pub struct RegistryValue {
    pub name: String,
    pub data: String,
}

/// The value that registers the executable at `exe_path` to start at login.
pub fn enable(exe_path: &str) -> (r: RegistryValue)
    ensures
        r.name@ == value_name(),
        r.data@ == quoted(exe_path@),
{
    RegistryValue { name: String::from_str(reg_key()), data: start_cmd(exe_path) }
}

/// The name of the value to delete so that the program no longer starts at
/// login.
pub fn disable() -> (r: String)
    ensures
        r@ == value_name(),
{
    String::from_str(reg_key())
}

/// Whether a value of the `Run` key registers the executable at `exe_path`.
pub open spec fn registers(entry: (String, Option<String>), exe_path: Seq<char>) -> bool {
    entry.0@ == value_name() && match entry.1 {
        Some(v) => v@ == quoted(exe_path),
        None => false,
    }
}

/// Whether the values of the `Run` key (each a name, with its data where it
/// decodes as a string) register the executable at `exe_path`.
pub fn is_enabled(values: &Vec<(String, Option<String>)>, exe_path: &str) -> (r: bool)
    ensures
        r == exists|i: int| 0 <= i < values@.len() && registers(#[trigger] values@[i], exe_path@),
{
    let name = String::from_str(reg_key());
    let cmd = start_cmd(exe_path);
    let mut i: usize = 0;
    while i < values.len()
        invariant
            i <= values@.len(),
            name@ == value_name(),
            cmd@ == quoted(exe_path@),
            forall|j: int| 0 <= j < i ==> !registers(#[trigger] values@[j], exe_path@),
        decreases values@.len() - i,
    {
        let entry = &values[i];
        if entry.0 == name {
            match &entry.1 {
                Some(v) => {
                    if *v == cmd {
                        return true;
                    }
                },
                None => {},
            }
        }
        i = i + 1;
    }
    false
}

} // verus!
