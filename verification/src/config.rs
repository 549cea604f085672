//! Configuration records: one per tracked repository, and one
//! daemon-wide record holding the poll interval.

use vstd::prelude::*;

verus! {

/// One tracked repository: its identifier, the absolute path of its
/// working copy, the branch that is kept synchronized, the remote the
/// branch is fetched from, and the command that builds it.
///
/// The orchestrator only reads these records; they are created and
/// removed by external commands.
pub struct Config {
    pub name: String,
    pub path: String,
    pub branch: String,
    pub remote: String,
    pub build_command: String,
}

impl Config {
    /// A fresh record for `repo_name` whose working copy sits at `path`,
    /// with the stock defaults for everything else.
    pub fn new(repo_name: String, path: String) -> (c: Config)
        ensures
            c.name@ == repo_name@,
            c.path@ == path@,
            c.branch@ == "master"@,
            c.remote@ == "origin"@,
            c.build_command@ == "bun run build"@,
    {
        Config {
            name: repo_name,
            path,
            branch: "master".to_owned(),
            remote: "origin".to_owned(),
            build_command: "bun run build".to_owned(),
        }
    }
}

/// The position of the record named `target` among `names`: the first
/// index holding an equal name, if any.  The add command uses this to
/// refuse a duplicate record, the remove command to pick the record to
/// delete.
pub fn find_named(names: &Vec<String>, target: &String) -> (r: Option<usize>)
    ensures
        (match r {
            Some(i) => i < names@.len() && names@[i as int]@ == target@ && (forall|j: int|
                0 <= j < i ==> names@[j]@ != target@),
            None => forall|j: int| 0 <= j < names@.len() ==> names@[j]@ != target@,
        }),
{
    let n = names.len();
    let mut i: usize = 0;
    while i < n
        invariant
            n == names@.len(),
            0 <= i <= n,
            forall|j: int| 0 <= j < i ==> names@[j]@ != target@,
        decreases n - i,
    {
        if names[i].eq(target) {
            return Some(i);
        }
        i += 1;
    }
    None
}

/// The daemon-wide record: how long to sleep between cycles.
pub struct DaemonConfig {
    pub poll_interval_seconds: u64,
}

impl DaemonConfig {
    /// Interprets the optional `sleep_time` field of the daemon-wide
    /// record.  An absent field falls back to zero; a zero interval —
    /// absent or explicit — makes the daemon busy-poll, so the second
    /// component asks the caller to surface a warning.
    pub fn resolve(field: Option<u64>) -> (r: (DaemonConfig, bool))
        ensures
            r.0.poll_interval_seconds == (match field {
                Some(n) => n,
                None => 0u64,
            }),
            r.1 == (r.0.poll_interval_seconds == 0),
    {
        let interval: u64 = match field {
            Some(n) => n,
            None => 0,
        };
        (DaemonConfig { poll_interval_seconds: interval }, interval == 0)
    }
}

} // verus!
