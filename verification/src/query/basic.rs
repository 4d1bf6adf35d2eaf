//! Basic functions.

use vstd::prelude::*;
use crate::expr::{Expr, Value};

verus! {

/// The `Var` function evaluates to the value bound to a variable name in
/// the current lexical scope.
#[derive(Debug)]
pub struct Var {
    pub var: Expr,
}

impl Var {
    /// A variable use, by name.
    pub fn new(name: &str) -> (r: Self)
        ensures
            r.var matches Expr::Val(Value::Str(s)) && s@ == name@,
    {
        Self { var: Expr::string(name) }
    }
}

} // verus!
