use vstd::prelude::*;
use crate::ast::{TypeExpr, TypePath, GenericArg, TypeM, PathM, ArgM, args_m, lemma_segs_m, lemma_args_m};
use crate::token::str_is;

verus! {

/// A bare path: unqualified (no leading path-root marker), one single
/// segment, whose identifier is `name`. A fully qualified path or an alias
/// never matches; alias resolution is not attempted.
pub open spec fn path_is(p: PathM, name: Seq<char>) -> bool {
    !p.absolute && p.segments.len() == 1 && p.segments[0].name == name
}

/// A named type that is a bare wrapper of kind `name`. No other node shape
/// ever matches.
pub open spec fn bare_wrapper(t: TypeM, name: Seq<char>) -> bool {
    match t {
        TypeM::Named { path } => path_is(path, name),
        _ => false,
    }
}

/// The type-valued generic argument of a bare wrapper at `idx`, if the
/// wrapper matches, the angle-bracketed list is present, the index is in
/// range, and the argument there is a type (not a lifetime or a constant).
pub open spec fn wrapper_arg(t: TypeM, name: Seq<char>, idx: int) -> Option<TypeM> {
    if bare_wrapper(t, name) {
        match t {
            TypeM::Named { path } => match path.segments[0].args {
                Option::Some(args) => if 0 <= idx < args.len() {
                    match args[idx] {
                        ArgM::TypeArg { ty } => Option::Some(ty),
                        _ => Option::None,
                    }
                } else {
                    Option::None
                },
                Option::None => Option::None,
            },
            _ => Option::None,
        }
    } else {
        Option::None
    }
}

/// The payload of a bare `Vec` wrapper, which additionally requires the
/// argument list to hold exactly one argument.
pub open spec fn vec_arg(t: TypeM) -> Option<TypeM> {
    match t {
        TypeM::Named { path } => if path.segments.len() == 1 && (match path.segments[0].args {
            Option::Some(args) => args.len() == 1,
            Option::None => false,
        }) {
            wrapper_arg(t, "Vec"@, 0)
        } else {
            Option::None
        },
        _ => Option::None,
    }
}

/// True iff `ty` is a bare single-segment named type whose identifier is
/// `wrapper_name`.
pub fn recognizes(ty: &TypeExpr, wrapper_name: &str) -> (r: bool)
    ensures
        r == bare_wrapper(ty.m(), wrapper_name@),
{
    match ty {
        TypeExpr::Named { path } => path_is_named(path, wrapper_name),
        _ => false,
    }
}

/// True iff `path` is bare and names `wrapper_name`.
pub fn path_is_named(path: &TypePath, wrapper_name: &str) -> (r: bool)
    ensures
        r == path_is(path.m(), wrapper_name@),
{
    proof {
        lemma_segs_m(path.segments@);
    }
    if !path.absolute && path.segments.len() == 1 {
        str_is(&path.segments[0].name, wrapper_name)
    } else {
        false
    }
}

/// The type-valued generic argument of the wrapper at `arg_index`, or
/// absence; never an error.
pub fn extract_argument<'a>(ty: &'a TypeExpr, wrapper_name: &str, arg_index: usize) -> (r: Option<
    &'a TypeExpr,
>)
    ensures
        r matches Option::Some(a) ==> wrapper_arg(ty.m(), wrapper_name@, arg_index as int)
            == Option::Some(a.m()),
        r is None ==> wrapper_arg(ty.m(), wrapper_name@, arg_index as int) is None,
{
    match ty {
        TypeExpr::Named { path } => {
            proof {
                lemma_segs_m(path.segments@);
            }
            if !path.absolute && path.segments.len() == 1 {
                let seg = &path.segments[0];
                proof {
                    assert(path.m().segments[0] == path.segments@[0].m());
                }
                if str_is(&seg.name, wrapper_name) {
                    match &seg.args {
                        Option::Some(args) => {
                            proof {
                                lemma_args_m(args@);
                                assert(seg.m().args == Option::Some(args_m(args@)));
                            }
                            if arg_index < args.len() {
                                proof {
                                    assert(args_m(args@)[arg_index as int] == args@[arg_index as int].m());
                                }
                                match &args[arg_index] {
                                    GenericArg::TypeArg { ty: inner } => {
                                        proof {
                                            assert(args@[arg_index as int].m() == (ArgM::TypeArg {
                                                ty: inner.m(),
                                            }));
                                        }
                                        Option::Some(inner)
                                    },
                                    _ => Option::None,
                                }
                            } else {
                                Option::None
                            }
                        },
                        Option::None => Option::None,
                    }
                } else {
                    Option::None
                }
            } else {
                Option::None
            }
        },
        _ => Option::None,
    }
}

/// Checks whether the given path is literally `Result`; a fully qualified
/// name or a type alias does not match.
pub fn path_is_result(path: &TypePath) -> (r: bool)
    ensures
        r == path_is(path.m(), "Result"@),
{
    path_is_named(path, "Result")
}

/// Like `path_is_result`, on a whole type expression.
pub fn type_is_result(ty: &TypeExpr) -> (r: bool)
    ensures
        r == bare_wrapper(ty.m(), "Result"@),
{
    recognizes(ty, "Result")
}

/// Extracts the success type from a bare `Result` type: given
/// `Result<String, u8>` it yields `String`.
pub fn extract_ok_type<'a>(ty: &'a TypeExpr) -> (r: Option<&'a TypeExpr>)
    ensures
        r matches Option::Some(a) ==> wrapper_arg(ty.m(), "Result"@, 0) == Option::Some(a.m()),
        r is None ==> wrapper_arg(ty.m(), "Result"@, 0) is None,
{
    extract_argument(ty, "Result", 0)
}

/// Checks whether the given path is literally `Vec`; a fully qualified
/// name or a type alias does not match.
pub fn path_is_vec(path: &TypePath) -> (r: bool)
    ensures
        r == path_is(path.m(), "Vec"@),
{
    path_is_named(path, "Vec")
}

/// Extracts the element type from a bare `Vec<_>` type, requiring the
/// argument list to hold exactly one argument.
pub fn extract_vec_type<'a>(ty: &'a TypeExpr) -> (r: Option<&'a TypeExpr>)
    ensures
        r matches Option::Some(a) ==> vec_arg(ty.m()) == Option::Some(a.m()),
        r is None ==> vec_arg(ty.m()) is None,
{
    match ty {
        TypeExpr::Named { path } => {
            proof {
                lemma_segs_m(path.segments@);
            }
            if !path.absolute && path.segments.len() == 1 {
                let seg = &path.segments[0];
                proof {
                    assert(path.m().segments[0] == path.segments@[0].m());
                }
                if str_is(&seg.name, "Vec") {
                    match &seg.args {
                        Option::Some(args) => {
                            proof {
                                lemma_args_m(args@);
                                assert(seg.m().args == Option::Some(args_m(args@)));
                            }
                            if args.len() == 1 {
                                proof {
                                    assert(args_m(args@)[0] == args@[0].m());
                                }
                                match &args[0] {
                                    GenericArg::TypeArg { ty: inner } => {
                                        proof {
                                            assert(args@[0].m() == (ArgM::TypeArg {
                                                ty: inner.m(),
                                            }));
                                        }
                                        Option::Some(inner)
                                    },
                                    _ => Option::None,
                                }
                            } else {
                                Option::None
                            }
                        },
                        Option::None => Option::None,
                    }
                } else {
                    Option::None
                }
            } else {
                Option::None
            }
        },
        _ => Option::None,
    }
}

/// For every bare, unqualified, single-segment wrapper `W<...>` whose
/// argument at `idx` is the type `a`, recognition succeeds and extraction
/// at `idx` yields exactly `a`.
pub proof fn lemma_wrapper_recognized_and_extracted(path: PathM, name: Seq<char>, idx: int, a: TypeM)
    requires
        !path.absolute,
        path.segments.len() == 1,
        path.segments[0].name == name,
        path.segments[0].args matches Option::Some(args) && 0 <= idx < args.len() && args[idx]
            == (ArgM::TypeArg { ty: a }),
    ensures
        bare_wrapper((TypeM::Named { path }), name),
        wrapper_arg((TypeM::Named { path }), name, idx) == Option::Some(a),
{
}

/// A path that is qualified — absolute, or of more than one segment —
/// never recognizes as a wrapper, whatever identifier it ends in, and no
/// argument is ever extracted from it.
pub proof fn lemma_qualified_never_recognized(path: PathM, name: Seq<char>)
    requires
        path.absolute || path.segments.len() != 1,
    ensures
        !bare_wrapper((TypeM::Named { path }), name),
        forall|idx: int| #[trigger] wrapper_arg((TypeM::Named { path }), name, idx) is None,
{
}

} // verus!
