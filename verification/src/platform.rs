//! Host identity: the supported operating systems and the snapshot of
//! operating-system and CPU-architecture names handed to the UI layer.

use vstd::prelude::*;

verus! {

/// Operating systems the shell supports launching the worker on.
#[derive(Clone, Copy, Debug, PartialEq, Eq, Structural)]
pub enum HostOs {
    MacOs,
    Windows,
    Linux,
}

/// The host operating system's name, as the platform constants report it.
pub open spec fn spec_os_name(os: HostOs) -> Seq<char> {
    match os {
        HostOs::MacOs => "macos"@,
        HostOs::Windows => "windows"@,
        HostOs::Linux => "linux"@,
    }
}

/// Name of the host operating system.
pub fn os_name(os: HostOs) -> (r: &'static str)
    ensures
        r@ == spec_os_name(os),
{
    match os {
        HostOs::MacOs => "macos",
        HostOs::Windows => "windows",
        HostOs::Linux => "linux",
    }
}

/// Read-only snapshot of host identity: the operating-system and
/// CPU-architecture names, and three convenience flags derived from the
/// same operating-system choice.
pub struct SystemInfo {
    pub os: &'static str,
    pub arch: &'static str,
    pub is_macos: bool,
    pub is_windows: bool,
    pub is_linux: bool,
}

/// Exactly one of the three platform flags is set.
pub open spec fn exactly_one_flag(info: SystemInfo) -> bool {
    &&& info.is_macos || info.is_windows || info.is_linux
    &&& !(info.is_macos && info.is_windows)
    &&& !(info.is_macos && info.is_linux)
    &&& !(info.is_windows && info.is_linux)
}

/// Build the host-identity snapshot. Pure and deterministic: the names are
/// taken over as given, and each flag holds exactly for its own operating
/// system, so exactly one flag is set.
pub fn system_info(os: HostOs, arch: &'static str) -> (r: SystemInfo)
    ensures
        r.os@ == spec_os_name(os),
        r.arch@ == arch@,
        r.is_macos == (os is MacOs),
        r.is_windows == (os is Windows),
        r.is_linux == (os is Linux),
        exactly_one_flag(r),
{
    SystemInfo {
        os: os_name(os),
        arch,
        is_macos: os == HostOs::MacOs,
        is_windows: os == HostOs::Windows,
        is_linux: os == HostOs::Linux,
    }
}

/// The three platform flags are mutually exclusive, exactly one is set, and
/// each one agrees with the reported operating-system name.
pub proof fn lemma_flags_match_os_name(info: SystemInfo, os: HostOs)
    requires
        info.os@ == spec_os_name(os),
        info.is_macos == (os is MacOs),
        info.is_windows == (os is Windows),
        info.is_linux == (os is Linux),
    ensures
        exactly_one_flag(info),
        info.is_macos <==> info.os@ == "macos"@,
        info.is_windows <==> info.os@ == "windows"@,
        info.is_linux <==> info.os@ == "linux"@,
{
    reveal_strlit("macos");
    reveal_strlit("windows");
    reveal_strlit("linux");
    assert("macos"@.len() == 5);
    assert("windows"@.len() == 7);
    assert("linux"@.len() == 5);
    assert("macos"@[0] == 'm' && "linux"@[0] == 'l');
}

} // verus!
