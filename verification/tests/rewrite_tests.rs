use tyshape::ast::{GenericArg, PathSegment, TypeExpr, TypePath};
use tyshape::loc::Loc;
use tyshape::rewrite::sanitize_self;
use tyshape::text::type_text;
use tyshape::token::Token;

fn loc(id: u32) -> Loc {
    Loc { id }
}

fn seg(name: &str, span: Loc, args: Option<Vec<GenericArg>>) -> PathSegment {
    PathSegment { name: name.to_string(), span, args }
}

fn named_at(name: &str, span: Loc, args: Option<Vec<GenericArg>>) -> TypeExpr {
    TypeExpr::Named {
        path: TypePath { absolute: false, segments: vec![seg(name, span, args)] },
    }
}

fn named(name: &str, args: Option<Vec<GenericArg>>) -> TypeExpr {
    named_at(name, loc(1), args)
}

fn ty_arg(t: TypeExpr) -> GenericArg {
    GenericArg::TypeArg { ty: t }
}

fn wrap(outer: &str, inner: TypeExpr) -> TypeExpr {
    named(outer, Some(vec![ty_arg(inner)]))
}

fn ident_tok(text: &str, span: Loc) -> Token {
    Token::Ident { text: text.to_string(), span }
}

fn text_of(t: &TypeExpr) -> String {
    type_text(t).into_iter().collect()
}

#[test]
fn sanitize_self_works() {
    let typ = named("Self", None);
    let replace_with = vec![ident_tok("MyType", loc(9))];
    let sanitized = sanitize_self(&typ, &replace_with).unwrap();
    assert_eq!(text_of(&sanitized), "MyType");

    let typ = wrap("Vec", named("Self", None));
    let replace_with = vec![ident_tok("MyType", loc(9))];
    let sanitized = sanitize_self(&typ, &replace_with).unwrap();
    assert_eq!(text_of(&sanitized), "Vec < MyType >");

    let typ = wrap("Vec", wrap("Vec", named("Self", None)));
    let replace_with = vec![ident_tok("MyType", loc(9))];
    let sanitized = sanitize_self(&typ, &replace_with).unwrap();
    assert_eq!(text_of(&sanitized), "Vec < Vec < MyType > >");

    // Option<[(Self, Result<Self, ()>); 2]>
    let tuple = TypeExpr::Tuple {
        elems: vec![
            named("Self", None),
            named(
                "Result",
                Some(vec![ty_arg(named("Self", None)), ty_arg(TypeExpr::Tuple { elems: vec![] })]),
            ),
        ],
    };
    let array = TypeExpr::Array {
        elem: Box::new(tuple),
        len_text: "2".to_string(),
        len_span: loc(3),
    };
    let typ = wrap("Option", array);
    let replace_with = vec![ident_tok("MyType", loc(9))];
    let sanitized = sanitize_self(&typ, &replace_with).unwrap();
    assert_eq!(text_of(&sanitized), "Option < [(MyType , Result < MyType , () >) ; 2] >");
}

#[test]
fn rewrite_without_placeholder_returns_equal_tree() {
    let typ = wrap("Vec", named("String", None));
    let replace_with = vec![ident_tok("MyType", loc(9))];
    let out = sanitize_self(&typ, &replace_with).unwrap();
    assert_eq!(text_of(&out), "Vec < String >");
    match &out {
        TypeExpr::Named { path } => {
            assert!(!path.absolute);
            assert_eq!(path.segments.len(), 1);
            assert_eq!(path.segments[0].name, "Vec");
            assert_eq!(path.segments[0].span, loc(1));
        }
        _ => panic!("expected a named type"),
    }
}

#[test]
fn rewrite_with_placeholder_itself_is_identity() {
    let typ = wrap("Vec", named_at("Self", loc(4), None));
    let replace_with = vec![ident_tok("Self", loc(9))];
    let out = sanitize_self(&typ, &replace_with).unwrap();
    assert_eq!(text_of(&out), "Vec < Self >");
    match &out {
        TypeExpr::Named { path } => match &path.segments[0].args {
            Some(args) => match &args[0] {
                GenericArg::TypeArg { ty: TypeExpr::Named { path: p2 } } => {
                    // the kept placeholder still carries its own location
                    assert_eq!(p2.segments[0].span, loc(4));
                }
                _ => panic!("expected a named argument"),
            },
            None => panic!("expected arguments"),
        },
        _ => panic!("expected a named type"),
    }
}

#[test]
fn rewrite_restamps_substituted_tokens() {
    let typ = wrap("Vec", named_at("Self", loc(42), None));
    let replace_with = vec![ident_tok("MyType", loc(9))];
    let out = sanitize_self(&typ, &replace_with).unwrap();
    match &out {
        TypeExpr::Named { path } => match &path.segments[0].args {
            Some(args) => match &args[0] {
                GenericArg::TypeArg { ty: TypeExpr::Named { path: p2 } } => {
                    // the substituted identifier carries the replaced one's location
                    assert_eq!(p2.segments[0].name, "MyType");
                    assert_eq!(p2.segments[0].span, loc(42));
                }
                _ => panic!("expected a named argument"),
            },
            None => panic!("expected arguments"),
        },
        _ => panic!("expected a named type"),
    }
}

#[test]
fn rewrite_replaces_multi_token_replacement() {
    // Self -> (u8, u8): the replacement is a whole token group
    let typ = wrap("Vec", named("Self", None));
    let replace_with = vec![Token::Group {
        delim: tyshape::token::Delim::Paren,
        inner: vec![
            ident_tok("u8", loc(5)),
            Token::Punct { ch: ',', span: loc(5) },
            ident_tok("u8", loc(6)),
        ],
        span: loc(9),
    }];
    let out = sanitize_self(&typ, &replace_with).unwrap();
    assert_eq!(text_of(&out), "Vec < (u8 , u8) >");
}

#[test]
fn rewrite_with_qualified_replacement() {
    let typ = wrap("Vec", named("Self", None));
    let replace_with = vec![
        ident_tok("contract", loc(9)),
        Token::Punct { ch: ':', span: loc(9) },
        Token::Punct { ch: ':', span: loc(9) },
        ident_tok("State", loc(9)),
    ];
    let out = sanitize_self(&typ, &replace_with).unwrap();
    assert_eq!(text_of(&out), "Vec < contract :: State >");
}

#[test]
fn rewrite_leaves_opaque_type_without_placeholder_alone() {
    let typ = TypeExpr::Opaque {
        tokens: vec![
            Token::Punct { ch: '*', span: loc(2) },
            ident_tok("const", loc(3)),
            ident_tok("u8", loc(4)),
        ],
    };
    let replace_with = vec![ident_tok("MyType", loc(9))];
    let out = sanitize_self(&typ, &replace_with).unwrap();
    assert_eq!(text_of(&out), "* const u8");
}

#[test]
fn rewrite_inside_opaque_tokens() {
    // a shape outside the structured set still has its placeholder replaced
    let typ = TypeExpr::Opaque {
        tokens: vec![
            Token::Punct { ch: '*', span: loc(2) },
            ident_tok("const", loc(3)),
            ident_tok("Self", loc(4)),
        ],
    };
    let replace_with = vec![ident_tok("MyType", loc(9))];
    let out = sanitize_self(&typ, &replace_with).unwrap();
    assert_eq!(text_of(&out), "* const MyType");
    match &out {
        TypeExpr::Opaque { tokens } => match &tokens[2] {
            Token::Ident { text, span } => {
                assert_eq!(text, "MyType");
                // re-stamped onto the replaced identifier's location
                assert_eq!(*span, loc(4));
            }
            _ => panic!("expected an identifier"),
        },
        _ => panic!("expected an opaque type"),
    }
}

#[test]
fn rewrite_failure_reports_location_of_rewritten_tokens() {
    let typ = named_at("Self", loc(7), None);
    // a replacement that is not a type fragment at all
    let replace_with = vec![Token::Punct { ch: ';', span: loc(9) }];
    let err = sanitize_self(&typ, &replace_with).unwrap_err();
    // the offending token was re-stamped with the replaced identifier's location
    assert_eq!(err.span, loc(7));
    let diag = err.to_diagnostic();
    assert_eq!(diag.message, "Self sanitization failed. Please report this as a bug.");
}

#[test]
fn rewrite_walks_tuples_arrays_and_references() {
    // &mut [(Self, Outer<Self>); 3]
    let tuple = TypeExpr::Tuple {
        elems: vec![named("Self", None), wrap("Outer", named("Self", None))],
    };
    let array = TypeExpr::Array {
        elem: Box::new(tuple),
        len_text: "3".to_string(),
        len_span: loc(3),
    };
    let typ = TypeExpr::Reference { lifetime: None, mutable: true, inner: Box::new(array) };
    let replace_with = vec![ident_tok("Concrete", loc(9))];
    let out = sanitize_self(&typ, &replace_with).unwrap();
    assert_eq!(text_of(&out), "& mut [(Concrete , Outer < Concrete >) ; 3]");
}
