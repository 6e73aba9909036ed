use vstd::prelude::*;
use crate::loc::{Loc, Diagnostic};

verus! {

/// The rule a rejected signature violated, in the order the rules are
/// checked.
#[derive(Clone, Copy, PartialEq, Eq, Structural, Debug)]
pub enum SigRule {
    Asynchronous,
    ForeignBinding,
    Variadic,
}

/// A signature that cannot be exposed as an entry point, tagged with the
/// first rule it violated and the signature's location.
#[derive(Clone, Copy, PartialEq, Eq, Structural, Debug)]
pub struct UnsupportedSignature {
    pub rule: SigRule,
    pub span: Loc,
}

/// A type expression that cannot be decomposed into reference, mutability
/// and inner type.
#[derive(Clone, Copy, PartialEq, Eq, Structural, Debug)]
pub struct UnsupportedTypeShape {
    pub span: Loc,
}

/// Placeholder substitution produced a token sequence that is not a type
/// expression again: an internal-invariant violation, not a user error.
#[derive(Clone, Copy, PartialEq, Eq, Structural, Debug)]
pub struct RewriteFailure {
    pub span: Loc,
}

impl SigRule {
    /// The message reported for this rule.
    pub fn message(&self) -> (r: String)
        ensures
            *self == SigRule::Asynchronous ==> r@ == "Contract API is not allowed to be async."@,
            *self == SigRule::ForeignBinding ==> r@
                == "Contract API is not allowed to have binary interface."@,
            *self == SigRule::Variadic ==> r@
                == "Contract API is not allowed to have variadic arguments."@,
    {
        match self {
            SigRule::Asynchronous => "Contract API is not allowed to be async.".to_owned(),
            SigRule::ForeignBinding => "Contract API is not allowed to have binary interface.".to_owned(),
            SigRule::Variadic => "Contract API is not allowed to have variadic arguments.".to_owned(),
        }
    }
}

impl UnsupportedSignature {
    /// The located diagnostic for this rejection.
    pub fn to_diagnostic(&self) -> (r: Diagnostic)
        ensures
            r.span == self.span,
            self.rule == SigRule::Asynchronous ==> r.message@
                == "Contract API is not allowed to be async."@,
            self.rule == SigRule::ForeignBinding ==> r.message@
                == "Contract API is not allowed to have binary interface."@,
            self.rule == SigRule::Variadic ==> r.message@
                == "Contract API is not allowed to have variadic arguments."@,
    {
        Diagnostic { span: self.span, message: self.rule.message() }
    }
}

impl UnsupportedTypeShape {
    /// The located diagnostic for this rejection.
    pub fn to_diagnostic(&self) -> (r: Diagnostic)
        ensures
            r.span == self.span,
            r.message@ == "Unsupported contract API type."@,
    {
        Diagnostic { span: self.span, message: "Unsupported contract API type.".to_owned() }
    }
}

impl RewriteFailure {
    /// The located diagnostic for this failure.
    pub fn to_diagnostic(&self) -> (r: Diagnostic)
        ensures
            r.span == self.span,
            r.message@ == "Self sanitization failed. Please report this as a bug."@,
    {
        Diagnostic {
            span: self.span,
            message: "Self sanitization failed. Please report this as a bug.".to_owned(),
        }
    }
}

} // verus!
