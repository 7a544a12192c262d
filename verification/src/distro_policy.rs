//! Rules on distro names given by the user, and on operations a distro forbids.
use vstd::prelude::*;

use crate::error::{WslCommandContext, WslError, WslErrorView};
use crate::text::{
    ascii_lower, ascii_lower_char, contains_whitespace, eq_ignore_ascii_case, has_whitespace, is_unicode_whitespace, is_blank, join3, str_eq_ignore_ascii_case,
    string_from, trim, trim_end, trim_start,
};

verus! {

/// The error of a check, or `None` when the check passes.
pub open spec fn check_outcome(r: Result<(), WslError>) -> Option<WslErrorView> {
    match r {
        Ok(_) => None,
        Err(e) => Some(e@),
    }
}

/// Why a distro name is rejected, if it is.
pub open spec fn distro_name_error(ctx: WslCommandContext, distro: Seq<char>) -> Option<WslErrorView> {
    if trim(distro).len() == 0 {
        Some(WslErrorView::InvalidArgument { context: ctx, raw_output: "Distro name is required."@ })
    } else if has_whitespace(distro) {
        Some(
            WslErrorView::InvalidArgument {
                context: ctx,
                raw_output: "Distro name `"@ + distro
                    + "` contains whitespace. Project input rules do not allow spaces."@,
            },
        )
    } else {
        None
    }
}

/// The distro that operations must not touch, matched ignoring ASCII case.
pub open spec fn is_protected_name(distro: Seq<char>) -> bool {
    eq_ignore_ascii_case(distro, "docker-desktop"@)
}

/// The operations a protected distro forbids.
pub open spec fn is_restricted_operation(ctx: WslCommandContext) -> bool {
    ||| ctx == WslCommandContext::Unregister
    ||| ctx == WslCommandContext::MoveDistro
    ||| ctx == WslCommandContext::ResizeDistro
}

/// Why the operation is refused for the distro, if it is.
pub open spec fn permission_error(ctx: WslCommandContext, distro: Seq<char>) -> Option<WslErrorView> {
    if is_protected_name(distro) && is_restricted_operation(ctx) {
        Some(WslErrorView::OperationNotPermitted { distro })
    } else {
        None
    }
}

/// Why a distro given for an operation is rejected: its name first, then the operation.
pub open spec fn distro_input_error(ctx: WslCommandContext, distro: Seq<char>) -> Option<WslErrorView> {
    match distro_name_error(ctx, distro) {
        Some(e) => Some(e),
        None => permission_error(ctx, distro),
    }
}

/// Checks the distro name, then that the operation is permitted for it.
pub fn validate_distro_input(ctx: WslCommandContext, distro: &str) -> (r: Result<(), WslError>)
    ensures
        check_outcome(r) == distro_input_error(ctx, distro@),
{
    validate_distro_name(ctx, distro)?;
    ensure_operation_permitted(ctx, distro)
}

/// A distro name is required and may not contain whitespace.
pub fn validate_distro_name(ctx: WslCommandContext, distro: &str) -> (r: Result<(), WslError>)
    ensures
        check_outcome(r) == distro_name_error(ctx, distro@),
{
    if is_blank(distro) {
        return Err(
            WslError::InvalidArgument {
                context: ctx,
                raw_output: string_from("Distro name is required."),
            },
        );
    }
    if contains_whitespace(distro) {
        return Err(
            WslError::InvalidArgument {
                context: ctx,
                raw_output: join3(
                    "Distro name `",
                    distro,
                    "` contains whitespace. Project input rules do not allow spaces.",
                ),
            },
        );
    }
    Ok(())
}

/// Refuses unregistering, moving and resizing the protected distro.
pub fn ensure_operation_permitted(ctx: WslCommandContext, distro: &str) -> (r: Result<(), WslError>)
    ensures
        check_outcome(r) == permission_error(ctx, distro@),
{
    if is_protected_distro(distro) && (ctx == WslCommandContext::Unregister || ctx
        == WslCommandContext::MoveDistro || ctx == WslCommandContext::ResizeDistro) {
        return Err(WslError::OperationNotPermitted { distro: string_from(distro) });
    }
    Ok(())
}

/// Whether the distro is the protected one, ignoring ASCII case.
pub fn is_protected_distro(distro: &str) -> (b: bool)
    ensures
        b == is_protected_name(distro@),
{
    str_eq_ignore_ascii_case(distro, "docker-desktop")
}

/// Whether an operation is refused does not depend on the ASCII case of the
/// distro name: names equal up to ASCII case are refused for the same operations.
pub proof fn lemma_permission_ignores_ascii_case(ctx: WslCommandContext, a: Seq<char>, b: Seq<char>)
    requires
        eq_ignore_ascii_case(a, b),
    ensures
        (permission_error(ctx, a) is Some) == (permission_error(ctx, b) is Some),
{
}

/// Operations other than unregistering, moving and resizing are permitted for
/// every distro, the protected one included.
pub proof fn lemma_unrestricted_operations_permitted(ctx: WslCommandContext, distro: Seq<char>)
    requires
        !is_restricted_operation(ctx),
    ensures
        permission_error(ctx, distro) is None,
{
}

/// The name rules, character by character: a name that is empty once trimmed is
/// refused as required; any other name holding a whitespace character anywhere
/// (leading, inner or trailing) is refused with that name quoted; every other
/// name passes.
pub proof fn lemma_distro_name_rules(ctx: WslCommandContext, distro: Seq<char>, i: int)
    ensures
        trim(distro).len() == 0 ==> distro_name_error(ctx, distro) == Some(
            WslErrorView::InvalidArgument { context: ctx, raw_output: "Distro name is required."@ },
        ),
        trim(distro).len() > 0 && 0 <= i < distro.len() && is_unicode_whitespace(distro[i])
            ==> distro_name_error(ctx, distro) == Some(
            WslErrorView::InvalidArgument {
                context: ctx,
                raw_output: "Distro name `"@ + distro + "` contains whitespace. Project input rules do not allow spaces."@,
            },
        ),
        trim(distro).len() > 0 && (forall|k: int| 0 <= k < distro.len() ==> !is_unicode_whitespace(#[trigger] distro[k]))
            ==> distro_name_error(ctx, distro) is None,
{
}

/// The protected distro, `docker-desktop` in any ASCII case, may not be
/// unregistered, moved or resized: each of these is refused, naming the distro
/// as given, while every other operation on it passes both the name and the
/// permission checks. A name that is not `docker-desktop` in some ASCII case is
/// never refused for its operation.
pub proof fn lemma_protected_distro_rules(ctx: WslCommandContext, distro: Seq<char>)
    ensures
        ascii_lower(distro) == "docker-desktop"@ && (ctx == WslCommandContext::Unregister || ctx
            == WslCommandContext::MoveDistro || ctx == WslCommandContext::ResizeDistro) ==> permission_error(ctx, distro)
            == Some(WslErrorView::OperationNotPermitted { distro }) && distro_input_error(ctx, distro) == Some(
            WslErrorView::OperationNotPermitted { distro },
        ),
        ascii_lower(distro) == "docker-desktop"@ && ctx != WslCommandContext::Unregister && ctx
            != WslCommandContext::MoveDistro && ctx != WslCommandContext::ResizeDistro ==> distro_input_error(
            ctx,
            distro,
        ) is None,
        ascii_lower(distro) != "docker-desktop"@ ==> permission_error(ctx, distro) is None,
{
    reveal_strlit("docker-desktop");
    let d = "docker-desktop"@;
    assert(ascii_lower(d) =~= d);
    assert(ascii_lower(distro).len() == distro.len());
    if ascii_lower(distro) == d {
        assert(distro.len() == 14);
        assert forall|k: int| 0 <= k < distro.len() implies !is_unicode_whitespace(#[trigger] distro[k]) by {
            assert(ascii_lower(distro)[k] == ascii_lower_char(distro[k]));
            if is_unicode_whitespace(distro[k]) {
                assert(ascii_lower_char(distro[k]) == distro[k]);
                assert(!is_unicode_whitespace(d[k]));
            }
        }
        assert(!is_unicode_whitespace(distro[0]));
        assert(!is_unicode_whitespace(distro.last()));
        assert(trim_start(distro) == distro);
        assert(trim_end(distro) == distro);
        assert(trim(distro) == distro);
        if has_whitespace(distro) {
            let k = choose|k: int| 0 <= k < distro.len() && is_unicode_whitespace(#[trigger] distro[k]);
            assert(!is_unicode_whitespace(distro[k]));
        }
        assert(distro_name_error(ctx, distro) is None);
    }
}

} // verus!
