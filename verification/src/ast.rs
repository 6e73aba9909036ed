use vstd::prelude::*;
use crate::loc::Loc;
use crate::token::{Token, TokM, toks_m, clone_tokens};

verus! {

/// A lifetime annotation, such as the one a reference may carry.
#[derive(Debug)]
pub struct Lifetime {
    pub name: String,
    pub span: Loc,
}

/// One argument of an angle-bracketed generic argument list: a type, a
/// lifetime, or a constant (kept as its literal text).
#[derive(Debug)]
pub enum GenericArg {
    TypeArg { ty: TypeExpr },
    LifetimeArg { lifetime: Lifetime },
    ConstArg { text: String, span: Loc },
}

/// One segment of a path: an identifier, optionally followed by an
/// angle-bracketed generic argument list.
#[derive(Debug)]
pub struct PathSegment {
    pub name: String,
    pub span: Loc,
    pub args: Option<Vec<GenericArg>>,
}

/// A (possibly absolute, possibly multi-segment) path naming a type.
#[derive(Debug)]
pub struct TypePath {
    pub absolute: bool,
    pub segments: Vec<PathSegment>,
}

/// A type expression, as the upstream parser hands it over.
///
/// `Opaque` stands for any shape outside the closed set this crate
/// understands (function pointers, trait objects, raw pointers, ...); it
/// carries the raw tokens so that rewriting can still walk them, but no
/// structural question can be answered about it.
#[derive(Debug)]
pub enum TypeExpr {
    Named { path: TypePath },
    Reference { lifetime: Option<Lifetime>, mutable: bool, inner: Box<TypeExpr> },
    Array { elem: Box<TypeExpr>, len_text: String, len_span: Loc },
    Tuple { elems: Vec<TypeExpr> },
    Group { inner: Box<TypeExpr> },
    Opaque { tokens: Vec<Token> },
}

/// Mathematical model of a lifetime.
#[verifier::ext_equal]
pub struct LifetimeM {
    pub name: Seq<char>,
    pub span: Loc,
}

/// Mathematical model of a generic argument.
#[verifier::ext_equal]
pub enum ArgM {
    TypeArg { ty: TypeM },
    LifetimeArg { lifetime: LifetimeM },
    ConstArg { text: Seq<char>, span: Loc },
}

/// Mathematical model of a path segment.
#[verifier::ext_equal]
pub struct SegM {
    pub name: Seq<char>,
    pub span: Loc,
    pub args: Option<Seq<ArgM>>,
}

/// Mathematical model of a path.
#[verifier::ext_equal]
pub struct PathM {
    pub absolute: bool,
    pub segments: Seq<SegM>,
}

/// Mathematical model of a type expression.
#[verifier::ext_equal]
pub enum TypeM {
    Named { path: PathM },
    Reference { lifetime: Option<LifetimeM>, mutable: bool, inner: Box<TypeM> },
    Array { elem: Box<TypeM>, len_text: Seq<char>, len_span: Loc },
    Tuple { elems: Seq<TypeM> },
    Group { inner: Box<TypeM> },
    Opaque { tokens: Seq<TokM> },
}

impl Lifetime {
    /// The model of this lifetime.
    pub open spec fn m(self) -> LifetimeM {
        LifetimeM { name: self.name@, span: self.span }
    }
}

impl GenericArg {
    /// The model of this generic argument.
    pub open spec fn m(self) -> ArgM
        decreases self,
    {
        match self {
            GenericArg::TypeArg { ty } => ArgM::TypeArg { ty: ty.m() },
            GenericArg::LifetimeArg { lifetime } => ArgM::LifetimeArg { lifetime: lifetime.m() },
            GenericArg::ConstArg { text, span } => ArgM::ConstArg { text: text@, span },
        }
    }
}

/// The model of a generic argument sequence.
pub open spec fn args_m(aa: Seq<GenericArg>) -> Seq<ArgM>
    decreases aa,
{
    if aa.len() == 0 {
        Seq::empty()
    } else {
        seq![aa[0].m()] + args_m(aa.drop_first())
    }
}

impl PathSegment {
    /// The model of this segment.
    pub open spec fn m(self) -> SegM
        decreases self,
    {
        SegM {
            name: self.name@,
            span: self.span,
            args: match self.args {
                Option::Some(v) => Option::Some(args_m(v@)),
                Option::None => Option::None,
            },
        }
    }
}

/// The model of a segment sequence.
pub open spec fn segs_m(ss: Seq<PathSegment>) -> Seq<SegM>
    decreases ss,
{
    if ss.len() == 0 {
        Seq::empty()
    } else {
        seq![ss[0].m()] + segs_m(ss.drop_first())
    }
}

impl TypePath {
    /// The model of this path.
    pub open spec fn m(self) -> PathM
        decreases self,
    {
        PathM { absolute: self.absolute, segments: segs_m(self.segments@) }
    }
}

impl TypeExpr {
    /// The model of this type expression.
    pub open spec fn m(self) -> TypeM
        decreases self,
    {
        match self {
            TypeExpr::Named { path } => TypeM::Named { path: path.m() },
            TypeExpr::Reference { lifetime, mutable, inner } => TypeM::Reference {
                lifetime: match lifetime {
                    Option::Some(l) => Option::Some(l.m()),
                    Option::None => Option::None,
                },
                mutable,
                inner: Box::new((*inner).m()),
            },
            TypeExpr::Array { elem, len_text, len_span } => TypeM::Array {
                elem: Box::new((*elem).m()),
                len_text: len_text@,
                len_span,
            },
            TypeExpr::Tuple { elems } => TypeM::Tuple { elems: tys_m(elems@) },
            TypeExpr::Group { inner } => TypeM::Group { inner: Box::new((*inner).m()) },
            TypeExpr::Opaque { tokens } => TypeM::Opaque { tokens: toks_m(tokens@) },
        }
    }
}

/// The model of a type expression sequence.
pub open spec fn tys_m(tt: Seq<TypeExpr>) -> Seq<TypeM>
    decreases tt,
{
    if tt.len() == 0 {
        Seq::empty()
    } else {
        seq![tt[0].m()] + tys_m(tt.drop_first())
    }
}

/// The model of an argument sequence is the sequence of the models.
pub proof fn lemma_args_m(aa: Seq<GenericArg>)
    ensures
        args_m(aa).len() == aa.len(),
        forall|i: int| 0 <= i < aa.len() ==> args_m(aa)[i] == #[trigger] aa[i].m(),
    decreases aa.len(),
{
    if aa.len() > 0 {
        lemma_args_m(aa.drop_first());
        assert forall|i: int| 0 <= i < aa.len() implies args_m(aa)[i] == #[trigger] aa[i].m() by {
            if i > 0 {
                assert(aa.drop_first()[i - 1] == aa[i]);
                assert(args_m(aa)[i] == args_m(aa.drop_first())[i - 1]);
            }
        }
    }
}

/// The model of a segment sequence is the sequence of the models.
pub proof fn lemma_segs_m(ss: Seq<PathSegment>)
    ensures
        segs_m(ss).len() == ss.len(),
        forall|i: int| 0 <= i < ss.len() ==> segs_m(ss)[i] == #[trigger] ss[i].m(),
    decreases ss.len(),
{
    if ss.len() > 0 {
        lemma_segs_m(ss.drop_first());
        assert forall|i: int| 0 <= i < ss.len() implies segs_m(ss)[i] == #[trigger] ss[i].m() by {
            if i > 0 {
                assert(ss.drop_first()[i - 1] == ss[i]);
                assert(segs_m(ss)[i] == segs_m(ss.drop_first())[i - 1]);
            }
        }
    }
}

/// The model of a type sequence is the sequence of the models.
pub proof fn lemma_tys_m(tt: Seq<TypeExpr>)
    ensures
        tys_m(tt).len() == tt.len(),
        forall|i: int| 0 <= i < tt.len() ==> tys_m(tt)[i] == #[trigger] tt[i].m(),
    decreases tt.len(),
{
    if tt.len() > 0 {
        lemma_tys_m(tt.drop_first());
        assert forall|i: int| 0 <= i < tt.len() implies tys_m(tt)[i] == #[trigger] tt[i].m() by {
            if i > 0 {
                assert(tt.drop_first()[i - 1] == tt[i]);
                assert(tys_m(tt)[i] == tys_m(tt.drop_first())[i - 1]);
            }
        }
    }
}

/// A structural copy of a lifetime; the copy has the same model.
pub fn clone_lifetime(l: &Lifetime) -> (r: Lifetime)
    ensures
        r.m() == l.m(),
{
    Lifetime { name: l.name.clone(), span: l.span }
}

/// A structural copy of a generic argument; the copy has the same model.
pub fn clone_arg(a: &GenericArg) -> (r: GenericArg)
    ensures
        r.m() == a.m(),
    decreases a,
{
    match a {
        GenericArg::TypeArg { ty } => GenericArg::TypeArg { ty: clone_type(ty) },
        GenericArg::LifetimeArg { lifetime } => GenericArg::LifetimeArg {
            lifetime: clone_lifetime(lifetime),
        },
        GenericArg::ConstArg { text, span } => GenericArg::ConstArg {
            text: text.clone(),
            span: *span,
        },
    }
}

/// A structural copy of an argument list; the copy has the same model.
pub fn clone_args(aa: &Vec<GenericArg>) -> (r: Vec<GenericArg>)
    ensures
        args_m(r@) == args_m(aa@),
    decreases aa,
{
    let mut r: Vec<GenericArg> = Vec::new();
    let mut i: usize = 0;
    while i < aa.len()
        invariant
            i <= aa.len(),
            r@.len() == i,
            forall|k: int| 0 <= k < i ==> r@[k].m() == #[trigger] aa@[k].m(),
        decreases aa.len() - i,
    {
        r.push(clone_arg(&aa[i]));
        i = i + 1;
    }
    proof {
        lemma_args_m(r@);
        lemma_args_m(aa@);
        assert forall|k: int| 0 <= k < aa@.len() implies args_m(r@)[k] == args_m(aa@)[k] by {
            assert(r@[k].m() == aa@[k].m());
        }
        assert(args_m(r@) =~= args_m(aa@));
    }
    r
}

/// A structural copy of a path segment; the copy has the same model.
pub fn clone_segment(s: &PathSegment) -> (r: PathSegment)
    ensures
        r.m() == s.m(),
    decreases s,
{
    PathSegment {
        name: s.name.clone(),
        span: s.span,
        args: match &s.args {
            Option::Some(v) => Option::Some(clone_args(v)),
            Option::None => Option::None,
        },
    }
}

/// A structural copy of a path; the copy has the same model.
pub fn clone_path(p: &TypePath) -> (r: TypePath)
    ensures
        r.m() == p.m(),
    decreases p,
{
    let mut segs: Vec<PathSegment> = Vec::new();
    let mut i: usize = 0;
    while i < p.segments.len()
        invariant
            i <= p.segments.len(),
            segs@.len() == i,
            forall|k: int| 0 <= k < i ==> segs@[k].m() == #[trigger] p.segments@[k].m(),
        decreases p.segments.len() - i,
    {
        segs.push(clone_segment(&p.segments[i]));
        i = i + 1;
    }
    proof {
        lemma_segs_m(segs@);
        lemma_segs_m(p.segments@);
        assert forall|k: int| 0 <= k < p.segments@.len() implies segs_m(segs@)[k] == segs_m(
            p.segments@,
        )[k] by {
            assert(segs@[k].m() == p.segments@[k].m());
        }
        assert(segs_m(segs@) =~= segs_m(p.segments@));
    }
    TypePath { absolute: p.absolute, segments: segs }
}

/// A structural copy of a type expression; the copy has the same model.
pub fn clone_type(t: &TypeExpr) -> (r: TypeExpr)
    ensures
        r.m() == t.m(),
    decreases t,
{
    match t {
        TypeExpr::Named { path } => TypeExpr::Named { path: clone_path(path) },
        TypeExpr::Reference { lifetime, mutable, inner } => TypeExpr::Reference {
            lifetime: match lifetime {
                Option::Some(l) => Option::Some(clone_lifetime(l)),
                Option::None => Option::None,
            },
            mutable: *mutable,
            inner: Box::new(clone_type(inner)),
        },
        TypeExpr::Array { elem, len_text, len_span } => TypeExpr::Array {
            elem: Box::new(clone_type(elem)),
            len_text: len_text.clone(),
            len_span: *len_span,
        },
        TypeExpr::Tuple { elems } => TypeExpr::Tuple { elems: clone_types(elems) },
        TypeExpr::Group { inner } => TypeExpr::Group { inner: Box::new(clone_type(inner)) },
        TypeExpr::Opaque { tokens } => TypeExpr::Opaque { tokens: clone_tokens(tokens) },
    }
}

/// A structural copy of a type list; the copy has the same model.
pub fn clone_types(tt: &Vec<TypeExpr>) -> (r: Vec<TypeExpr>)
    ensures
        tys_m(r@) == tys_m(tt@),
    decreases tt,
{
    let mut r: Vec<TypeExpr> = Vec::new();
    let mut i: usize = 0;
    while i < tt.len()
        invariant
            i <= tt.len(),
            r@.len() == i,
            forall|k: int| 0 <= k < i ==> r@[k].m() == #[trigger] tt@[k].m(),
        decreases tt.len() - i,
    {
        r.push(clone_type(&tt[i]));
        i = i + 1;
    }
    proof {
        lemma_tys_m(r@);
        lemma_tys_m(tt@);
        assert forall|k: int| 0 <= k < tt@.len() implies tys_m(r@)[k] == tys_m(tt@)[k] by {
            assert(r@[k].m() == tt@[k].m());
        }
        assert(tys_m(r@) =~= tys_m(tt@));
    }
    r
}

} // verus!
