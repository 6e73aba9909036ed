use vstd::prelude::*;
use crate::loc::Loc;
use crate::ast::{TypeExpr, clone_type};
use crate::errors::UnsupportedTypeShape;

verus! {

/// Decomposes a type expression into (is-reference, is-mutable, inner
/// type), one level deep.
///
/// A named, array, tuple or group type is no reference: the result is
/// `(false, false, a structural copy of the type)`. A reference yields its
/// mutability and its inner type, with any top-level lifetime annotation
/// discarded. Any other shape cannot appear in the exposed surface and is
/// rejected with the caller-supplied location.
pub fn extract_ref_mut(ty: &TypeExpr, span: Loc) -> (r: Result<
    (bool, bool, TypeExpr),
    UnsupportedTypeShape,
>)
    ensures
        match *ty {
            TypeExpr::Reference { lifetime, mutable, inner } => r matches Ok(t3) && t3.0 == true
                && t3.1 == mutable && t3.2.m() == (*inner).m(),
            TypeExpr::Opaque { .. } => r matches Err(e) && e == (UnsupportedTypeShape { span }),
            _ => r matches Ok(t3) && t3.0 == false && t3.1 == false && t3.2.m() == ty.m(),
        },
{
    match ty {
        TypeExpr::Array { .. } | TypeExpr::Named { .. } | TypeExpr::Tuple { .. }
            | TypeExpr::Group { .. } => Ok((false, false, clone_type(ty))),
        TypeExpr::Reference { lifetime: _, mutable, inner } => Ok(
            (true, *mutable, clone_type(inner)),
        ),
        TypeExpr::Opaque { .. } => Err(UnsupportedTypeShape { span }),
    }
}

} // verus!
