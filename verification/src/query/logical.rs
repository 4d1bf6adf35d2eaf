//! Logical functions.

use vstd::prelude::*;
use crate::expr::{Expr, Reference, Timestamp, Value};

verus! {

/// The `And` function computes the conjunction of a list of boolean values,
/// returning `true` if all elements are `true`, and `false` otherwise.
#[derive(Debug)]
pub struct And {
    pub and: Vec<Expr>,
}

impl And {
    /// A simple conjunction of two expressions. For a list, use the `From`
    /// trait.
    pub fn new(left: Expr, right: Expr) -> (r: Self)
        ensures
            r.and@ == seq![left, right],
    {
        let r = Self { and: vec![left, right] };
        proof {
            assert(r.and@ =~= seq![left, right]);
        }
        r
    }
}

impl From<Vec<Expr>> for And {
    fn from(exprs: Vec<Expr>) -> And {
        And { and: exprs }
    }
}

impl vstd::std_specs::convert::FromSpecImpl<Vec<Expr>> for And {
    open spec fn obeys_from_spec() -> bool {
        true
    }

    open spec fn from_spec(exprs: Vec<Expr>) -> And {
        And { and: exprs }
    }
}

/// The `Or` function operates on one or more values and returns `true` if
/// at least one of the values is `true`.
#[derive(Debug)]
pub struct Or {
    pub or: Vec<Expr>,
}

impl Or {
    /// A simple disjunction of two expressions. For a list, use the `From`
    /// trait.
    pub fn new(left: Expr, right: Expr) -> (r: Self)
        ensures
            r.or@ == seq![left, right],
    {
        let r = Self { or: vec![left, right] };
        proof {
            assert(r.or@ =~= seq![left, right]);
        }
        r
    }
}

impl From<Vec<Expr>> for Or {
    fn from(exprs: Vec<Expr>) -> Or {
        Or { or: exprs }
    }
}

impl vstd::std_specs::convert::FromSpecImpl<Vec<Expr>> for Or {
    open spec fn obeys_from_spec() -> bool {
        true
    }

    open spec fn from_spec(exprs: Vec<Expr>) -> Or {
        Or { or: exprs }
    }
}

/// The `Not` function computes the negation of a boolean value, returning
/// `true` if its argument is `false`, or `false` if its argument is `true`.
#[derive(Debug)]
pub struct Not {
    pub not: Expr,
}

impl Not {
    pub fn new(expr: Expr) -> (r: Self)
        ensures
            r.not == expr,
    {
        Self { not: expr }
    }
}

/// The `Equals` function tests equivalence between a list of values.
#[derive(Debug)]
pub struct Equals {
    pub equals: Vec<Expr>,
}

impl Equals {
    /// A simple equivalence of two expressions. For a list, use the `From`
    /// trait.
    pub fn new(left: Expr, right: Expr) -> (r: Self)
        ensures
            r.equals@ == seq![left, right],
    {
        let r = Self { equals: vec![left, right] };
        proof {
            assert(r.equals@ =~= seq![left, right]);
        }
        r
    }
}

impl From<Vec<Expr>> for Equals {
    fn from(exprs: Vec<Expr>) -> Equals {
        Equals { equals: exprs }
    }
}

impl vstd::std_specs::convert::FromSpecImpl<Vec<Expr>> for Equals {
    open spec fn obeys_from_spec() -> bool {
        true
    }

    open spec fn from_spec(exprs: Vec<Expr>) -> Equals {
        Equals { equals: exprs }
    }
}

/// The `Lt` function returns `true` if each specified value is less than
/// the ones following it, and `false` otherwise.
#[derive(Debug)]
pub struct Lt {
    pub lt: Vec<Expr>,
}

impl Lt {
    /// A simple comparison of two expressions. For a list, use the `From`
    /// trait.
    pub fn new(left: Expr, right: Expr) -> (r: Self)
        ensures
            r.lt@ == seq![left, right],
    {
        let r = Self { lt: vec![left, right] };
        proof {
            assert(r.lt@ =~= seq![left, right]);
        }
        r
    }
}

impl From<Vec<Expr>> for Lt {
    fn from(exprs: Vec<Expr>) -> Lt {
        Lt { lt: exprs }
    }
}

impl vstd::std_specs::convert::FromSpecImpl<Vec<Expr>> for Lt {
    open spec fn obeys_from_spec() -> bool {
        true
    }

    open spec fn from_spec(exprs: Vec<Expr>) -> Lt {
        Lt { lt: exprs }
    }
}

/// The `Lte` function returns `true` if each specified value is less than
/// or equal to the ones following it, and `false` otherwise.
#[derive(Debug)]
pub struct Lte {
    pub lte: Vec<Expr>,
}

impl Lte {
    /// A simple comparison of two expressions. For a list, use the `From`
    /// trait.
    pub fn new(left: Expr, right: Expr) -> (r: Self)
        ensures
            r.lte@ == seq![left, right],
    {
        let r = Self { lte: vec![left, right] };
        proof {
            assert(r.lte@ =~= seq![left, right]);
        }
        r
    }
}

impl From<Vec<Expr>> for Lte {
    fn from(exprs: Vec<Expr>) -> Lte {
        Lte { lte: exprs }
    }
}

impl vstd::std_specs::convert::FromSpecImpl<Vec<Expr>> for Lte {
    open spec fn obeys_from_spec() -> bool {
        true
    }

    open spec fn from_spec(exprs: Vec<Expr>) -> Lte {
        Lte { lte: exprs }
    }
}

/// The `Gt` function returns `true` if each specified value is greater
/// than the ones following it, and `false` otherwise.
#[derive(Debug)]
pub struct Gt {
    pub gt: Vec<Expr>,
}

impl Gt {
    /// A simple comparison of two expressions. For a list, use the `From`
    /// trait.
    pub fn new(left: Expr, right: Expr) -> (r: Self)
        ensures
            r.gt@ == seq![left, right],
    {
        let r = Self { gt: vec![left, right] };
        proof {
            assert(r.gt@ =~= seq![left, right]);
        }
        r
    }
}

impl From<Vec<Expr>> for Gt {
    fn from(exprs: Vec<Expr>) -> Gt {
        Gt { gt: exprs }
    }
}

impl vstd::std_specs::convert::FromSpecImpl<Vec<Expr>> for Gt {
    open spec fn obeys_from_spec() -> bool {
        true
    }

    open spec fn from_spec(exprs: Vec<Expr>) -> Gt {
        Gt { gt: exprs }
    }
}

/// The `Gte` function returns `true` if each specified value is greater
/// than or equal to the ones following it, and `false` otherwise.
#[derive(Debug)]
pub struct Gte {
    pub gte: Vec<Expr>,
}

impl Gte {
    /// A simple comparison of two expressions. For a list, use the `From`
    /// trait.
    pub fn new(left: Expr, right: Expr) -> (r: Self)
        ensures
            r.gte@ == seq![left, right],
    {
        let r = Self { gte: vec![left, right] };
        proof {
            assert(r.gte@ =~= seq![left, right]);
        }
        r
    }
}

impl From<Vec<Expr>> for Gte {
    fn from(exprs: Vec<Expr>) -> Gte {
        Gte { gte: exprs }
    }
}

impl vstd::std_specs::convert::FromSpecImpl<Vec<Expr>> for Gte {
    open spec fn obeys_from_spec() -> bool {
        true
    }

    open spec fn from_spec(exprs: Vec<Expr>) -> Gte {
        Gte { gte: exprs }
    }
}

/// The `Contains` function returns `true` if the argument passed as `in_`
/// contains a value at the specified path, and `false` otherwise.
#[derive(Debug)]
pub struct Contains {
    pub contains: Vec<Expr>,
    pub in_: Expr,
}

impl Contains {
    pub fn new(path: Vec<Expr>, in_: Expr) -> (r: Self)
        ensures
            r.contains == path,
            r.in_ == in_,
    {
        Self { contains: path, in_ }
    }
}

/// The `Exists` function returns boolean `true` if the provided ref exists
/// at the specified timestamp (in the case of an instance), or is non-empty
/// (in the case of a set), and `false` otherwise.
#[derive(Debug)]
pub struct Exists {
    pub exists: Expr,
    pub timestamp: Option<Expr>,
}

impl Exists {
    /// An existence test with no timestamp filter: the `ts` key is absent
    /// from the encoded form until `timestamp` sets it.
    pub fn new(reference: Reference) -> (r: Self)
        ensures
            r.exists == Expr::Val(Value::Ref(reference)),
            r.timestamp is None,
    {
        Self { exists: Expr::Val(Value::Ref(reference)), timestamp: None }
    }

    /// Sets the timestamp filter: the encoded form gains exactly the `ts`
    /// key, and nothing else changes.
    pub fn timestamp(&mut self, ts: Timestamp)
        ensures
            final(self).exists == old(self).exists,
            final(self).timestamp == Some(Expr::Val(Value::Timestamp(ts))),
    {
        self.timestamp = Some(Expr::Val(Value::Timestamp(ts)));
    }
}

} // verus!
