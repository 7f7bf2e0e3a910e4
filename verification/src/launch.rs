//! Launch configuration for the worker process: which launcher command to
//! run on each operating system, and which script path to hand it in each
//! build flavor. Both are fixed choices, resolved once at startup.

use vstd::prelude::*;

use crate::platform::HostOs;

verus! {

/// The launcher command chosen for each operating system.
pub open spec fn spec_launcher_command(os: HostOs) -> Seq<char> {
    match os {
        HostOs::MacOs => "python3"@,
        HostOs::Windows => "python"@,
        HostOs::Linux => "python3"@,
    }
}

/// The worker script path chosen by the build flavor: the development tree
/// in a debug build, the bundled resource otherwise.
pub open spec fn spec_script_path(debug_build: bool) -> Seq<char> {
    if debug_build {
        "../web-app/backend/main.py"@
    } else {
        "python-backend/main.py"@
    }
}

/// Command name used to launch the worker interpreter on the given
/// operating system.
pub fn launcher_command(os: HostOs) -> (r: &'static str)
    ensures
        r@ == spec_launcher_command(os),
{
    match os {
        HostOs::MacOs => "python3",
        HostOs::Windows => "python",
        HostOs::Linux => "python3",
    }
}

/// Filesystem path of the worker script for the given build flavor.
pub fn backend_script_path(debug_build: bool) -> (r: &'static str)
    ensures
        r@ == spec_script_path(debug_build),
{
    if debug_build {
        "../web-app/backend/main.py"
    } else {
        "python-backend/main.py"
    }
}

} // verus!
