use vstd::prelude::*;

verus! {

/// Default minimum interval between accepted triggers, in milliseconds.
pub const DEFAULT_DEBOUNCE_MS: u64 = 500;

/// The fixed subcommand the child process is started with; the passthrough
/// arguments follow it.
pub open spec fn child_subcommand() -> Seq<char> {
    "run"@
}

/// What one run watches and supervises: the root path (also the child's
/// working directory), whether the watch descends into subdirectories, the
/// debounce interval, and the arguments passed through to the child.
pub struct WatchConfig {
    pub root_path: String,
    pub recursive: bool,
    pub debounce_ms: u64,
    pub passthrough_args: Vec<String>,
}

impl WatchConfig {
    /// A configuration for one run. The watch is always recursive.
    pub fn new(root_path: String, debounce_ms: u64, passthrough_args: Vec<String>) -> (c: Self)
        ensures
            c.root_path == root_path,
            c.recursive == true,
            c.debounce_ms == debounce_ms,
            c.passthrough_args == passthrough_args,
    {
        WatchConfig { root_path, recursive: true, debounce_ms, passthrough_args }
    }
}

/// The argument list for the child process: the fixed subcommand first,
/// then every passthrough argument, in order.
pub fn child_args(passthrough: &Vec<String>) -> (r: Vec<String>)
    ensures
        r@.len() == passthrough@.len() + 1,
        r@[0]@ == child_subcommand(),
        forall|i: int| 0 <= i < passthrough@.len() ==> r@[i + 1] == passthrough@[i],
{
    let mut r: Vec<String> = Vec::new();
    r.push("run".to_owned());
    let mut i: usize = 0;
    while i < passthrough.len()
        invariant
            i <= passthrough@.len(),
            r@.len() == i + 1,
            r@[0]@ == child_subcommand(),
            forall|j: int| 0 <= j < i ==> r@[j + 1] == passthrough@[j],
        decreases passthrough@.len() - i,
    {
        r.push(passthrough[i].clone());
        i = i + 1;
    }
    r
}

} // verus!
