use tyshape::ast::{GenericArg, Lifetime, PathSegment, TypeExpr, TypePath};
use tyshape::classify::extract_ref_mut;
use tyshape::errors::SigRule;
use tyshape::loc::Loc;
use tyshape::matcher::{extract_argument, extract_ok_type, extract_vec_type, path_is_result,
    path_is_vec, recognizes, type_is_result};
use tyshape::text::type_text;
use tyshape::token::Token;
use tyshape::validate::{sig_is_supported, Signature};

fn loc(id: u32) -> Loc {
    Loc { id }
}

fn seg(name: &str, args: Option<Vec<GenericArg>>) -> PathSegment {
    PathSegment { name: name.to_string(), span: loc(1), args }
}

fn named(name: &str, args: Option<Vec<GenericArg>>) -> TypeExpr {
    TypeExpr::Named {
        path: TypePath { absolute: false, segments: vec![seg(name, args)] },
    }
}

fn ty_arg(t: TypeExpr) -> GenericArg {
    GenericArg::TypeArg { ty: t }
}

fn text_of(t: &TypeExpr) -> String {
    type_text(t).into_iter().collect()
}

fn plain_sig(span: Loc) -> Signature {
    Signature {
        is_async: false,
        has_foreign_abi: false,
        is_variadic: false,
        span,
        params: vec![],
        ret: None,
    }
}

#[test]
fn recognizes_bare_wrapper_and_extracts_argument() {
    let t = named("Wrapper", Some(vec![ty_arg(named("Inner", None))]));
    assert!(recognizes(&t, "Wrapper"));
    assert!(!recognizes(&t, "Other"));
    let arg = extract_argument(&t, "Wrapper", 0).unwrap();
    assert_eq!(text_of(arg), "Inner");
    assert!(extract_argument(&t, "Wrapper", 1).is_none());
}

#[test]
fn qualified_or_multi_segment_path_is_not_recognized() {
    let multi = TypeExpr::Named {
        path: TypePath {
            absolute: false,
            segments: vec![seg("result", None), seg("Result", None)],
        },
    };
    assert!(!recognizes(&multi, "Result"));
    assert!(!type_is_result(&multi));
    assert!(extract_argument(&multi, "Result", 0).is_none());

    let absolute = TypeExpr::Named {
        path: TypePath { absolute: true, segments: vec![seg("Result", None)] },
    };
    assert!(!recognizes(&absolute, "Result"));
    assert!(extract_ok_type(&absolute).is_none());
}

#[test]
fn path_predicates_check_the_exact_identifier() {
    let result_path = TypePath { absolute: false, segments: vec![seg("Result", None)] };
    assert!(path_is_result(&result_path));
    assert!(!path_is_vec(&result_path));
    let vec_path = TypePath { absolute: false, segments: vec![seg("Vec", None)] };
    assert!(path_is_vec(&vec_path));
    assert!(!path_is_result(&vec_path));
}

#[test]
fn extract_ok_type_takes_first_argument_regardless_of_arity() {
    let t = named(
        "Result",
        Some(vec![ty_arg(named("String", None)), ty_arg(named("u8", None))]),
    );
    assert!(type_is_result(&t));
    let ok = extract_ok_type(&t).unwrap();
    assert_eq!(text_of(ok), "String");

    // no argument list at all
    assert!(extract_ok_type(&named("Result", None)).is_none());

    // the first argument must be a type, not a lifetime
    let t = named(
        "Result",
        Some(vec![
            GenericArg::LifetimeArg {
                lifetime: Lifetime { name: "a".to_string(), span: loc(2) },
            },
            ty_arg(named("String", None)),
        ]),
    );
    assert!(extract_ok_type(&t).is_none());
}

#[test]
fn extract_vec_type_requires_exactly_one_argument() {
    let t = named("Vec", Some(vec![ty_arg(named("String", None))]));
    let elem = extract_vec_type(&t).unwrap();
    assert_eq!(text_of(elem), "String");

    // two arguments: the arity guard refuses, unlike the Result extractor
    let two = named(
        "Vec",
        Some(vec![ty_arg(named("String", None)), ty_arg(named("Alloc", None))]),
    );
    assert!(extract_vec_type(&two).is_none());
    assert!(extract_argument(&two, "Vec", 0).is_some());

    assert!(extract_vec_type(&named("Vec", None)).is_none());
    assert!(extract_vec_type(&named("MyVec", Some(vec![ty_arg(named("u8", None))]))).is_none());
}

#[test]
fn classify_plain_named_type_is_no_reference() {
    let t = named("Balance", None);
    let (is_ref, is_mut, inner) = extract_ref_mut(&t, loc(5)).unwrap();
    assert!(!is_ref);
    assert!(!is_mut);
    assert_eq!(text_of(&inner), "Balance");
}

#[test]
fn classify_mutable_reference() {
    let t = TypeExpr::Reference {
        lifetime: None,
        mutable: true,
        inner: Box::new(named("State", None)),
    };
    let (is_ref, is_mut, inner) = extract_ref_mut(&t, loc(5)).unwrap();
    assert!(is_ref);
    assert!(is_mut);
    assert_eq!(text_of(&inner), "State");
}

#[test]
fn classify_reference_with_lifetime_drops_the_lifetime() {
    let t = TypeExpr::Reference {
        lifetime: Some(Lifetime { name: "a".to_string(), span: loc(2) }),
        mutable: false,
        inner: Box::new(named("State", None)),
    };
    assert_eq!(text_of(&t), "& 'a State");
    let (is_ref, is_mut, inner) = extract_ref_mut(&t, loc(5)).unwrap();
    assert!(is_ref);
    assert!(!is_mut);
    assert_eq!(text_of(&inner), "State");
}

#[test]
fn classify_rejects_unsupported_shape_with_location() {
    let t = TypeExpr::Opaque {
        tokens: vec![Token::Punct { ch: '*', span: loc(8) }],
    };
    let err = extract_ref_mut(&t, loc(5)).unwrap_err();
    assert_eq!(err.span, loc(5));
    let diag = err.to_diagnostic();
    assert_eq!(diag.message, "Unsupported contract API type.");
    assert_eq!(diag.span, loc(5));
}

#[test]
fn validate_accepts_a_plain_signature() {
    assert!(sig_is_supported(&plain_sig(loc(11))).is_ok());
}

#[test]
fn validate_rejects_async_first_whatever_else_is_set() {
    let mut sig = plain_sig(loc(11));
    sig.is_async = true;
    sig.is_variadic = true;
    sig.has_foreign_abi = true;
    let err = sig_is_supported(&sig).unwrap_err();
    assert_eq!(err.rule, SigRule::Asynchronous);
    assert_eq!(err.span, loc(11));
    assert_eq!(err.to_diagnostic().message, "Contract API is not allowed to be async.");
}

#[test]
fn validate_rejects_foreign_binding_before_variadic() {
    let mut sig = plain_sig(loc(11));
    sig.has_foreign_abi = true;
    sig.is_variadic = true;
    let err = sig_is_supported(&sig).unwrap_err();
    assert_eq!(err.rule, SigRule::ForeignBinding);
    assert_eq!(
        err.to_diagnostic().message,
        "Contract API is not allowed to have binary interface."
    );
}

#[test]
fn validate_rejects_variadic_alone_with_third_rule() {
    let mut sig = plain_sig(loc(11));
    sig.is_variadic = true;
    let err = sig_is_supported(&sig).unwrap_err();
    assert_eq!(err.rule, SigRule::Variadic);
    assert_eq!(
        err.to_diagnostic().message,
        "Contract API is not allowed to have variadic arguments."
    );
}

#[test]
fn only_named_nodes_recognize_as_wrappers() {
    let reference = TypeExpr::Reference {
        lifetime: None,
        mutable: false,
        inner: Box::new(named("Result", None)),
    };
    assert!(!recognizes(&reference, "Result"));
    assert!(extract_argument(&reference, "Result", 0).is_none());

    let tuple = TypeExpr::Tuple { elems: vec![named("Vec", None)] };
    assert!(!recognizes(&tuple, "Vec"));
    assert!(extract_vec_type(&tuple).is_none());
}

#[test]
fn rendering_spaces_tokens_and_hugs_delimiters() {
    let unit = TypeExpr::Tuple { elems: vec![] };
    assert_eq!(text_of(&unit), "()");

    let pair = TypeExpr::Tuple {
        elems: vec![named("A", None), named("B", None)],
    };
    assert_eq!(text_of(&pair), "(A , B)");

    let one = TypeExpr::Tuple { elems: vec![named("A", None)] };
    assert_eq!(text_of(&one), "(A ,)");

    let grouped = TypeExpr::Group { inner: Box::new(named("A", None)) };
    assert_eq!(text_of(&grouped), "(A)");

    let absolute = TypeExpr::Named {
        path: TypePath {
            absolute: true,
            segments: vec![seg("std", None), seg("string", None), seg("String", None)],
        },
    };
    assert_eq!(text_of(&absolute), ":: std :: string :: String");
}
