use vstd::prelude::*;

verus! {

/// The number of inference threads that keeps a device with `cores` logical
/// cores within its thermal budget: two on low-end parts (up to four cores),
/// three on mid-range parts (five or six), and never more than four.
pub open spec fn safe_threads_for(cores: nat) -> i32 {
    if cores <= 4 {
        2
    } else if cores <= 6 {
        3
    } else {
        4
    }
}

/// Relies on num_cpus::get: the number of logical CPUs available to this
/// process, which is always at least one.
#[verifier::external_body]
fn available_cores() -> (r: usize)
    ensures
        r >= 1,
{
    num_cpus::get()
}

/// Maps a core count to the thread count of the thermal policy.
pub fn threads_for_cores(cores: usize) -> (r: i32)
    ensures
        r == safe_threads_for(cores as nat),
{
    if cores <= 4 {
        2
    } else if cores <= 6 {
        3
    } else {
        4
    }
}

/// Chooses a thread count for inference on this device.
pub fn determine_safe_threads() -> (r: i32)
    ensures
        exists|cores: nat| cores >= 1 && r == safe_threads_for(cores),
        2 <= r <= 4,
{
    let cores = available_cores();
    threads_for_cores(cores)
}

/// Reports whether the device is currently being thermally throttled; no
/// temperature source is wired in, so it never is.
pub fn check_thermal_throttle() -> (r: bool)
    ensures
        !r,
{
    false
}

} // verus!
