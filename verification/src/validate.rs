use vstd::prelude::*;
use crate::loc::Loc;
use crate::ast::TypeExpr;
use crate::errors::{SigRule, UnsupportedSignature};

verus! {

/// The structured form of a declared function interface, as the upstream
/// parser hands it over: the flags the validator rules on, the parameter
/// types, and the return type (absent when the function returns nothing).
pub struct Signature {
    pub is_async: bool,
    pub has_foreign_abi: bool,
    pub is_variadic: bool,
    pub span: Loc,
    pub params: Vec<TypeExpr>,
    pub ret: Option<TypeExpr>,
}

/// Checks that the signature may be exposed as a synchronous entry point.
///
/// Three independent rules are checked in fixed order, stopping at the
/// first violation: no asynchronous flag, no foreign binding convention,
/// no variadic arguments. The error carries the rule that failed and the
/// signature's location; a signature with none of the flags is accepted.
pub fn sig_is_supported(sig: &Signature) -> (r: Result<(), UnsupportedSignature>)
    ensures
        sig.is_async ==> r == Err::<(), UnsupportedSignature>(
            (UnsupportedSignature { rule: SigRule::Asynchronous, span: sig.span }),
        ),
        !sig.is_async && sig.has_foreign_abi ==> r == Err::<(), UnsupportedSignature>(
            (UnsupportedSignature { rule: SigRule::ForeignBinding, span: sig.span }),
        ),
        !sig.is_async && !sig.has_foreign_abi && sig.is_variadic ==> r == Err::<
            (),
            UnsupportedSignature,
        >((UnsupportedSignature { rule: SigRule::Variadic, span: sig.span })),
        !sig.is_async && !sig.has_foreign_abi && !sig.is_variadic ==> r == Ok::<
            (),
            UnsupportedSignature,
        >(()),
{
    if sig.is_async {
        return Err(UnsupportedSignature { rule: SigRule::Asynchronous, span: sig.span });
    }
    if sig.has_foreign_abi {
        return Err(UnsupportedSignature { rule: SigRule::ForeignBinding, span: sig.span });
    }
    if sig.is_variadic {
        return Err(UnsupportedSignature { rule: SigRule::Variadic, span: sig.span });
    }
    Ok(())
}

} // verus!
