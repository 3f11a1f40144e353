//! Runtime handles, one for each way of running a future: spinning on the
//! calling thread, parking the calling thread between polls, or a new thread per
//! future.
use vstd::prelude::*;


verus! {

/// Runs each future on the calling thread, re-polling in a busy loop.
#[derive(Debug, Copy, Clone, PartialEq, Eq, Structural, PartialOrd, Ord, Hash)]
pub struct SpinRuntime;

/// Runs each future on the calling thread, blocking it between polls until the
/// future's waker is used.
#[derive(Debug, Copy, Clone, PartialEq, Eq, Structural, PartialOrd, Ord, Hash)]
pub struct SleepRuntime;

/// Runs each future on a new thread of its own, parked between polls; the
/// caller does not wait for it.
#[derive(Debug, Copy, Clone, PartialEq, Eq, Structural, PartialOrd, Ord, Hash)]
pub struct SpawnRuntime;

impl SpinRuntime {
    /// Creates a `SpinRuntime`.
    pub fn new() -> (r: Self)
        ensures
            r == SpinRuntime,
    {
        SpinRuntime
    }

    /// The runtime's name.
    pub fn to_string(&self) -> (r: String)
        ensures
            r@ == "SpinRuntime"@,
    {
        "SpinRuntime".to_owned()
    }

}

impl SleepRuntime {
    /// Creates a `SleepRuntime`.
    pub fn new() -> (r: Self)
        ensures
            r == SleepRuntime,
    {
        SleepRuntime
    }

    /// The runtime's name.
    pub fn to_string(&self) -> (r: String)
        ensures
            r@ == "SleepRuntime"@,
    {
        "SleepRuntime".to_owned()
    }
}

impl SpawnRuntime {
    /// Creates a `SpawnRuntime`.
    pub fn new() -> (r: Self)
        ensures
            r == SpawnRuntime,
    {
        SpawnRuntime
    }

    /// The runtime's name.
    pub fn to_string(&self) -> (r: String)
        ensures
            r@ == "SpawnRuntime"@,
    {
        "SpawnRuntime".to_owned()
    }
}

impl Default for SpinRuntime {
    fn default() -> (r: Self)
        ensures
            r == SpinRuntime,
    {
        Self::new()
    }
}

impl Default for SleepRuntime {
    fn default() -> (r: Self)
        ensures
            r == SleepRuntime,
    {
        Self::new()
    }
}

impl Default for SpawnRuntime {
    fn default() -> (r: Self)
        ensures
            r == SpawnRuntime,
    {
        Self::new()
    }
}

} // verus!
