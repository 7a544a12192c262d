//! The error payload commands return to the user interface.
use vstd::prelude::*;

use crate::error::{WslError, WslErrorView};
use crate::text::{string_of, trim, trimmed_chars};

verus! {

/// Error payload of a command: a classified WSL error, or a plain message.
#[derive(Debug, Clone, PartialEq, Eq)]
pub enum CommandErrorDto {
    Wsl {
        code: WslCommandErrorCode,
        wsl_code: Option<String>,
        details: Option<String>,
        distro: Option<String>,
    },
    Message { message: String },
}

/// The class of a WSL error as the user interface sees it.
#[derive(Debug, Clone, Copy, PartialEq, Eq, Structural)]
pub enum WslCommandErrorCode {
    InvalidArgument,
    FileNotFound,
    DistroNotFound,
    DiskResizeFailed,
    OperationNotPermitted,
    UnknownWslError,
    RegistryReadFailed,
    OutputParseFailed,
    WslCommandTimedOut,
    ProcessFailed,
    ProcessKilled,
    Cancelled,
}

/// `CommandErrorDto` with its text as character sequences.
pub enum CommandErrorView {
    Wsl {
        code: WslCommandErrorCode,
        wsl_code: Option<Seq<char>>,
        details: Option<Seq<char>>,
        distro: Option<Seq<char>>,
    },
    Message { message: Seq<char> },
}

pub open spec fn opt_view(o: Option<String>) -> Option<Seq<char>> {
    match o {
        Some(s) => Some(s@),
        None => None,
    }
}

impl View for CommandErrorDto {
    type V = CommandErrorView;

    open spec fn view(&self) -> CommandErrorView {
        match self {
            CommandErrorDto::Wsl { code, wsl_code, details, distro } => CommandErrorView::Wsl {
                code: *code,
                wsl_code: opt_view(*wsl_code),
                details: opt_view(*details),
                distro: opt_view(*distro),
            },
            CommandErrorDto::Message { message } => CommandErrorView::Message { message: message@ },
        }
    }
}

/// The trimmed text, or `None` when nothing but whitespace is left.
pub open spec fn non_empty_text(value: Seq<char>) -> Option<Seq<char>> {
    if trim(value).len() == 0 {
        None
    } else {
        Some(trim(value))
    }
}

/// A classified error without details.
pub open spec fn plain_wsl(code: WslCommandErrorCode) -> CommandErrorView {
    CommandErrorView::Wsl { code, wsl_code: None, details: None, distro: None }
}

/// The payload reporting a WSL error.
pub open spec fn command_error_of(e: WslErrorView) -> CommandErrorView {
    match e {
        WslErrorView::InvalidArgument { .. } => plain_wsl(WslCommandErrorCode::InvalidArgument),
        WslErrorView::FileNotFound => plain_wsl(WslCommandErrorCode::FileNotFound),
        WslErrorView::DistroNotFound => plain_wsl(WslCommandErrorCode::DistroNotFound),
        WslErrorView::DiskResizeFailed => plain_wsl(WslCommandErrorCode::DiskResizeFailed),
        WslErrorView::OperationNotPermitted { distro } => CommandErrorView::Wsl {
            code: WslCommandErrorCode::OperationNotPermitted,
            wsl_code: None,
            details: None,
            distro: Some(distro),
        },
        WslErrorView::UnknownWslError { code, raw_output, .. } => CommandErrorView::Wsl {
            code: WslCommandErrorCode::UnknownWslError,
            wsl_code: Some(code),
            details: non_empty_text(raw_output),
            distro: None,
        },
        WslErrorView::RegistryReadFailed { .. } => plain_wsl(WslCommandErrorCode::RegistryReadFailed),
        WslErrorView::OutputParseFailed { .. } => plain_wsl(WslCommandErrorCode::OutputParseFailed),
        WslErrorView::WslCommandTimedOut { .. } => plain_wsl(WslCommandErrorCode::WslCommandTimedOut),
        WslErrorView::ProcessFailed(_) => plain_wsl(WslCommandErrorCode::ProcessFailed),
        WslErrorView::ProcessKilled => plain_wsl(WslCommandErrorCode::ProcessKilled),
        WslErrorView::Cancelled => plain_wsl(WslCommandErrorCode::Cancelled),
    }
}

/// The trimmed text, or `None` when nothing but whitespace is left.
pub fn non_empty(value: &str) -> (r: Option<String>)
    ensures
        opt_view(r) == non_empty_text(value@),
{
    let trimmed = trimmed_chars(value);
    if trimmed.len() == 0 {
        None
    } else {
        Some(string_of(&trimmed))
    }
}

/// A classified error without details.
pub fn wsl_error(code: WslCommandErrorCode) -> (r: CommandErrorDto)
    ensures
        r@ == plain_wsl(code),
{
    wsl_detail_error(code, None, None, None)
}

/// A classified error with its optional details.
pub fn wsl_detail_error(
    code: WslCommandErrorCode,
    wsl_code: Option<String>,
    details: Option<String>,
    distro: Option<String>,
) -> (r: CommandErrorDto)
    ensures
        r@ == (CommandErrorView::Wsl {
            code,
            wsl_code: opt_view(wsl_code),
            details: opt_view(details),
            distro: opt_view(distro),
        }),
{
    CommandErrorDto::Wsl { code, wsl_code, details, distro }
}

/// The payload reporting a WSL error to the user interface.
pub fn map_command_error(err: WslError) -> (r: CommandErrorDto)
    ensures
        r@ == command_error_of(err@),
{
    match err {
        WslError::InvalidArgument { .. } => wsl_error(WslCommandErrorCode::InvalidArgument),
        WslError::FileNotFound => wsl_error(WslCommandErrorCode::FileNotFound),
        WslError::DistroNotFound => wsl_error(WslCommandErrorCode::DistroNotFound),
        WslError::DiskResizeFailed => wsl_error(WslCommandErrorCode::DiskResizeFailed),
        WslError::OperationNotPermitted { distro } => wsl_detail_error(
            WslCommandErrorCode::OperationNotPermitted,
            None,
            None,
            Some(distro),
        ),
        WslError::UnknownWslError { code, raw_output, .. } => {
            let details = non_empty(raw_output.as_str());
            wsl_detail_error(WslCommandErrorCode::UnknownWslError, Some(code), details, None)
        },
        WslError::RegistryReadFailed { .. } => wsl_error(WslCommandErrorCode::RegistryReadFailed),
        WslError::OutputParseFailed { .. } => wsl_error(WslCommandErrorCode::OutputParseFailed),
        WslError::WslCommandTimedOut { .. } => wsl_error(WslCommandErrorCode::WslCommandTimedOut),
        WslError::ProcessFailed(_) => wsl_error(WslCommandErrorCode::ProcessFailed),
        WslError::ProcessKilled => wsl_error(WslCommandErrorCode::ProcessKilled),
        WslError::Cancelled => wsl_error(WslCommandErrorCode::Cancelled),
    }
}

/// A plain-message payload: the trimmed message, or the message itself when it is blank.
pub fn message_command_error(message: String) -> (r: CommandErrorDto)
    ensures
        r@ == (CommandErrorView::Message {
            message: if trim(message@).len() == 0 {
                message@
            } else {
                trim(message@)
            },
        }),
{
    let text = match non_empty(message.as_str()) {
        Some(t) => t,
        None => message,
    };
    CommandErrorDto::Message { message: text }
}

/// What the user interface learns of a WSL error: only a refused operation names
/// its distro, only an unknown error carries its WSL code and (trimmed, when not
/// blank) its output, and every other error is its class alone; each class of
/// error gets a code of its own.
pub proof fn lemma_command_error_payload(e: WslErrorView)
    ensures
        e is OperationNotPermitted ==> command_error_of(e) == (CommandErrorView::Wsl {
            code: WslCommandErrorCode::OperationNotPermitted,
            wsl_code: None,
            details: None,
            distro: Some(e->OperationNotPermitted_distro),
        }),
        e is UnknownWslError ==> command_error_of(e) == (CommandErrorView::Wsl {
            code: WslCommandErrorCode::UnknownWslError,
            wsl_code: Some(e->UnknownWslError_code),
            details: if trim(e->UnknownWslError_raw_output).len() == 0 {
                None
            } else {
                Some(trim(e->UnknownWslError_raw_output))
            },
            distro: None,
        }),
        !(e is OperationNotPermitted) && !(e is UnknownWslError) ==> (command_error_of(e) matches CommandErrorView::Wsl {
            wsl_code: None,
            details: None,
            distro: None,
            ..
        }),
        e is InvalidArgument <==> command_error_of(e) matches CommandErrorView::Wsl { code: WslCommandErrorCode::InvalidArgument, .. },
        e is FileNotFound <==> command_error_of(e) matches CommandErrorView::Wsl { code: WslCommandErrorCode::FileNotFound, .. },
        e is DistroNotFound <==> command_error_of(e) matches CommandErrorView::Wsl { code: WslCommandErrorCode::DistroNotFound, .. },
        e is DiskResizeFailed <==> command_error_of(e) matches CommandErrorView::Wsl { code: WslCommandErrorCode::DiskResizeFailed, .. },
        e is RegistryReadFailed <==> command_error_of(e) matches CommandErrorView::Wsl { code: WslCommandErrorCode::RegistryReadFailed, .. },
        e is OutputParseFailed <==> command_error_of(e) matches CommandErrorView::Wsl { code: WslCommandErrorCode::OutputParseFailed, .. },
        e is WslCommandTimedOut <==> command_error_of(e) matches CommandErrorView::Wsl { code: WslCommandErrorCode::WslCommandTimedOut, .. },
        e is ProcessFailed <==> command_error_of(e) matches CommandErrorView::Wsl { code: WslCommandErrorCode::ProcessFailed, .. },
        e is ProcessKilled <==> command_error_of(e) matches CommandErrorView::Wsl { code: WslCommandErrorCode::ProcessKilled, .. },
        e is Cancelled <==> command_error_of(e) matches CommandErrorView::Wsl { code: WslCommandErrorCode::Cancelled, .. },
{
}

} // verus!
