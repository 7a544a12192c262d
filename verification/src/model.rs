//! Distro, version and progress values reported by WSL.
use vstd::prelude::*;

verus! {

/// Parsed distro state from `wsl.exe --list --verbose`.
#[derive(Debug, Clone, PartialEq)]
pub enum DistroState {
    Running,
    Stopped,
    Installing,
    Unknown(String),
}

/// Merged distro info from `wsl.exe` output and registry metadata.
#[derive(Debug, Clone, PartialEq)]
pub struct DistroInfo {
    pub name: String,
    pub state: DistroState,
    pub version: u8,
    pub is_default: bool,
    pub base_path: Option<String>,
    pub vhd_file_name: Option<String>,
    pub flavor: Option<String>,
    pub os_version: Option<String>,
    pub default_uid: Option<u32>,
}

/// Structured output from `wsl.exe --version`; `wsl` and `windows` stay required.
#[derive(Debug, Clone, PartialEq)]
pub struct WslVersion {
    pub wsl: String,
    pub kernel: Option<String>,
    pub wslg: Option<String>,
    pub msrdc: Option<String>,
    pub direct3d: Option<String>,
    pub dxcore: Option<String>,
    pub windows: String,
}

/// One installable distro entry from `wsl.exe --list --online`.
#[derive(Debug, Clone, PartialEq)]
pub struct OnlineDistro {
    pub name: String,
    pub friendly_name: String,
}

/// A distro as `wsl.exe --list --verbose` reports it, before registry metadata is merged.
#[derive(Debug, Clone, PartialEq)]
pub struct InstalledDistroSnapshot {
    pub name: String,
    pub state: DistroState,
    pub version: u8,
    pub is_default: bool,
}

/// Registry-side metadata of a registered distro.
#[derive(Debug, Clone, PartialEq)]
pub struct RegisteredDistroMetadata {
    pub name: String,
    pub version: u8,
    pub base_path: Option<String>,
    pub vhd_file_name: Option<String>,
    pub flavor: Option<String>,
    pub os_version: Option<String>,
    pub default_uid: Option<u32>,
}

/// Phase for long-running WSL commands.
#[derive(Debug, Clone, Copy, PartialEq, Eq, Structural)]
pub enum ProgressPhase {
    Downloading,
    Installing,
    Exporting,
    Importing,
}

/// Status fallback when percentage progress is unavailable.
#[derive(Debug, Clone, Copy, PartialEq, Eq, Structural)]
pub enum ProgressState {
    Started,
    Running,
    Completed,
}

/// Phase of a long task as the user interface shows it; copying a VHDX is its own phase.
#[derive(Debug, Clone, Copy, PartialEq, Eq, Structural)]
pub enum TransferProgressPhase {
    Downloading,
    Installing,
    Exporting,
    Importing,
    Copying,
}

/// The user-interface phase of a core phase.
pub open spec fn transfer_phase_of(phase: ProgressPhase) -> TransferProgressPhase {
    match phase {
        ProgressPhase::Downloading => TransferProgressPhase::Downloading,
        ProgressPhase::Installing => TransferProgressPhase::Installing,
        ProgressPhase::Exporting => TransferProgressPhase::Exporting,
        ProgressPhase::Importing => TransferProgressPhase::Importing,
    }
}

/// Maps the phase of a core progress event to the phase relayed to the user interface.
pub fn map_core_phase(phase: ProgressPhase) -> (r: TransferProgressPhase)
    ensures
        r == transfer_phase_of(phase),
{
    match phase {
        ProgressPhase::Downloading => TransferProgressPhase::Downloading,
        ProgressPhase::Installing => TransferProgressPhase::Installing,
        ProgressPhase::Exporting => TransferProgressPhase::Exporting,
        ProgressPhase::Importing => TransferProgressPhase::Importing,
    }
}

/// A copy of an optional string.
pub fn duplicate_opt_string(o: &Option<String>) -> (r: Option<String>)
    ensures
        r == *o,
{
    match o {
        Some(s) => Some(s.clone()),
        None => None,
    }
}

impl DistroState {
    /// A copy of the state.
    pub fn duplicate(&self) -> (r: DistroState)
        ensures
            r == *self,
    {
        match self {
            DistroState::Running => DistroState::Running,
            DistroState::Stopped => DistroState::Stopped,
            DistroState::Installing => DistroState::Installing,
            DistroState::Unknown(s) => DistroState::Unknown(s.clone()),
        }
    }
}

impl DistroInfo {
    /// A copy of the distro info.
    pub fn duplicate(&self) -> (r: DistroInfo)
        ensures
            r == *self,
    {
        DistroInfo {
            name: self.name.clone(),
            state: self.state.duplicate(),
            version: self.version,
            is_default: self.is_default,
            base_path: duplicate_opt_string(&self.base_path),
            vhd_file_name: duplicate_opt_string(&self.vhd_file_name),
            flavor: duplicate_opt_string(&self.flavor),
            os_version: duplicate_opt_string(&self.os_version),
            default_uid: self.default_uid,
        }
    }
}

impl InstalledDistroSnapshot {
    /// A copy of the snapshot.
    pub fn duplicate(&self) -> (r: InstalledDistroSnapshot)
        ensures
            r == *self,
    {
        InstalledDistroSnapshot {
            name: self.name.clone(),
            state: self.state.duplicate(),
            version: self.version,
            is_default: self.is_default,
        }
    }
}

impl RegisteredDistroMetadata {
    /// A copy of the metadata.
    pub fn duplicate(&self) -> (r: RegisteredDistroMetadata)
        ensures
            r == *self,
    {
        RegisteredDistroMetadata {
            name: self.name.clone(),
            version: self.version,
            base_path: duplicate_opt_string(&self.base_path),
            vhd_file_name: duplicate_opt_string(&self.vhd_file_name),
            flavor: duplicate_opt_string(&self.flavor),
            os_version: duplicate_opt_string(&self.os_version),
            default_uid: self.default_uid,
        }
    }
}

} // verus!
