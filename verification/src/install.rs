//! Install-time options and their validation.
use vstd::prelude::*;

use crate::distro_policy::{check_outcome, distro_input_error, distro_name_error, validate_distro_input, validate_distro_name};
use crate::error::{WslCommandContext, WslError, WslErrorView};
use crate::storage::DiskSize;
use crate::text::string_from;

verus! {

/// Install-time options accepted by `wsl.exe --install`.
#[derive(Debug, Clone, PartialEq)]
pub struct InstallOptions {
    pub name: Option<String>,
    pub location: Option<String>,
    pub vhd_size: Option<DiskSize>,
    pub fixed_vhd: bool,
}

impl Default for InstallOptions {
    fn default() -> (r: InstallOptions)
        ensures
            r.name is None,
            r.location is None,
            r.vhd_size is None,
            !r.fixed_vhd,
    {
        InstallOptions { name: None, location: None, vhd_size: None, fixed_vhd: false }
    }
}

/// Why install options are rejected, if they are: the custom name follows the
/// distro name rules, and a fixed-size disk needs a size.
pub open spec fn install_options_error(
    name: Option<Seq<char>>,
    has_vhd_size: bool,
    fixed_vhd: bool,
) -> Option<WslErrorView> {
    let name_error = match name {
        Some(n) => distro_name_error(WslCommandContext::Install, n),
        None => None,
    };
    if name_error is Some {
        name_error
    } else if fixed_vhd && !has_vhd_size {
        Some(
            WslErrorView::InvalidArgument {
                context: WslCommandContext::Install,
                raw_output: "Option `--fixed-vhd` requires `vhd_size`."@,
            },
        )
    } else {
        None
    }
}

pub open spec fn name_view(name: Option<String>) -> Option<Seq<char>> {
    match name {
        Some(n) => Some(n@),
        None => None,
    }
}

/// Checks install options before they reach `wsl.exe`.
pub fn validate_install_options(opts: &InstallOptions) -> (r: Result<(), WslError>)
    ensures
        check_outcome(r) == install_options_error(
            name_view(opts.name),
            opts.vhd_size is Some,
            opts.fixed_vhd,
        ),
{
    match &opts.name {
        Some(name) => {
            validate_distro_name(WslCommandContext::Install, name.as_str())?;
        },
        None => {},
    }
    if opts.fixed_vhd && opts.vhd_size.is_none() {
        return Err(
            WslError::InvalidArgument {
                context: WslCommandContext::Install,
                raw_output: string_from("Option `--fixed-vhd` requires `vhd_size`."),
            },
        );
    }
    Ok(())
}

/// Why an install request is rejected, if it is: the distro first, then the options.
pub open spec fn install_request_error(
    distro: Seq<char>,
    name: Option<Seq<char>>,
    has_vhd_size: bool,
    fixed_vhd: bool,
) -> Option<WslErrorView> {
    match distro_input_error(WslCommandContext::Install, distro) {
        Some(e) => Some(e),
        None => install_options_error(name, has_vhd_size, fixed_vhd),
    }
}

/// The checks an install runs before invoking `wsl.exe`: the distro, then the options.
pub fn validate_install_request(distro: &str, opts: &InstallOptions) -> (r: Result<(), WslError>)
    ensures
        check_outcome(r) == install_request_error(
            distro@,
            name_view(opts.name),
            opts.vhd_size is Some,
            opts.fixed_vhd,
        ),
{
    validate_distro_input(WslCommandContext::Install, distro)?;
    validate_install_options(opts)
}

/// A custom install name is held to the distro name rules: a name those rules
/// refuse is refused with the same error, and a name they accept leaves the
/// outcome to the remaining options.
pub proof fn lemma_install_name_follows_distro_rules(name: Seq<char>, has_vhd_size: bool, fixed_vhd: bool)
    ensures
        distro_name_error(WslCommandContext::Install, name) is Some ==> install_options_error(
            Some(name),
            has_vhd_size,
            fixed_vhd,
        ) == distro_name_error(WslCommandContext::Install, name),
        distro_name_error(WslCommandContext::Install, name) is None ==> install_options_error(
            Some(name),
            has_vhd_size,
            fixed_vhd,
        ) == install_options_error(None, has_vhd_size, fixed_vhd),
{
}

} // verus!
