//! Requests the user interface sends for long-running distro transfers.
use vstd::prelude::*;

use crate::command_error::opt_view;
use crate::error::{WslCommandContext, WslError, WslErrorView};
use crate::install::InstallOptions;
use crate::storage::{disk_size_text, DiskSize, DiskSizeParseError, ExportFormat};

verus! {

/// Request to install an online distro.
#[derive(Debug, Clone, PartialEq)]
pub struct InstallDistroRequest {
    pub request_id: String,
    pub distro: String,
    pub options: InstallOptionsPayload,
}

/// Install options as the user interface sends them, with the disk size still text.
#[derive(Debug, Clone, PartialEq)]
pub struct InstallOptionsPayload {
    pub name: Option<String>,
    pub location: Option<String>,
    pub vhd_size: Option<String>,
    pub fixed_vhd: bool,
}

/// Request to import a distro from an archive.
#[derive(Debug, Clone, PartialEq)]
pub struct ImportDistroRequest {
    pub request_id: String,
    pub distro: String,
    pub location: String,
    pub file: String,
}

/// Request to register an existing VHDX, optionally copied to a new directory first.
#[derive(Debug, Clone, PartialEq)]
pub struct ImportDistroInPlaceRequest {
    pub request_id: String,
    pub distro: String,
    pub source_vhdx: String,
    pub target_directory: Option<String>,
}

/// Request to export a distro to a file.
#[derive(Debug, Clone, PartialEq)]
pub struct ExportDistroRequest {
    pub request_id: String,
    pub distro: String,
    pub file: String,
    pub format: ExportFormat,
}

impl InstallOptionsPayload {
    /// The core install options; a disk size that does not parse is an invalid argument.
    pub fn into_core(self) -> (r: Result<InstallOptions, WslError>)
        ensures
            match self.vhd_size {
                None => r matches Ok(o) && o.vhd_size is None,
                Some(text) => match disk_size_text(text@) {
                    Some(canonical) => r matches Ok(o) && o.vhd_size matches Some(d) && d@
                        == canonical,
                    None => r matches Err(e) && e@ == (WslErrorView::InvalidArgument {
                        context: WslCommandContext::Install,
                        raw_output: "invalid WSL disk size"@,
                    }),
                },
            },
            r matches Ok(o) ==> o.name == self.name && o.location == self.location && o.fixed_vhd
                == self.fixed_vhd,
    {
        let vhd_size = match &self.vhd_size {
            Some(text) => match DiskSize::parse(text.as_str()) {
                Ok(size) => Some(size),
                Err(err) => {
                    return Err(
                        WslError::InvalidArgument {
                            context: WslCommandContext::Install,
                            raw_output: err.message(),
                        },
                    );
                },
            },
            None => None,
        };
        Ok(
            InstallOptions {
                name: self.name,
                location: self.location,
                vhd_size,
                fixed_vhd: self.fixed_vhd,
            },
        )
    }
}

} // verus!
