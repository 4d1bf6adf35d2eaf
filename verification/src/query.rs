//! A query call: one record type per query function, unified by a tagged
//! union so any call can stand wherever an expression is expected.

use vstd::prelude::*;

pub mod basic;
pub mod datetime;
pub mod logical;

use crate::expr::Expr;
use basic::Var;
use datetime::{Date, Epoch, Time};
use logical::{And, Contains, Equals, Exists, Gt, Gte, Lt, Lte, Not, Or};

verus! {

/// The query functions this library covers, each serializing to one fixed
/// top-level key.
#[derive(Debug)]
pub enum Query {
    Date(Date),
    Epoch(Epoch),
    Time(Time),
    Var(Var),
    And(And),
    Or(Or),
    Not(Not),
    Lt(Lt),
    Lte(Lte),
    Gt(Gt),
    Gte(Gte),
    Contains(Contains),
    Equals(Equals),
    Exists(Exists),
}

impl From<Date> for Query {
    fn from(q: Date) -> Query {
        Query::Date(q)
    }
}

impl vstd::std_specs::convert::FromSpecImpl<Date> for Query {
    open spec fn obeys_from_spec() -> bool {
        true
    }

    open spec fn from_spec(q: Date) -> Query {
        Query::Date(q)
    }
}

impl From<Epoch> for Query {
    fn from(q: Epoch) -> Query {
        Query::Epoch(q)
    }
}

impl vstd::std_specs::convert::FromSpecImpl<Epoch> for Query {
    open spec fn obeys_from_spec() -> bool {
        true
    }

    open spec fn from_spec(q: Epoch) -> Query {
        Query::Epoch(q)
    }
}

impl From<Time> for Query {
    fn from(q: Time) -> Query {
        Query::Time(q)
    }
}

impl vstd::std_specs::convert::FromSpecImpl<Time> for Query {
    open spec fn obeys_from_spec() -> bool {
        true
    }

    open spec fn from_spec(q: Time) -> Query {
        Query::Time(q)
    }
}

impl From<Var> for Query {
    fn from(q: Var) -> Query {
        Query::Var(q)
    }
}

impl vstd::std_specs::convert::FromSpecImpl<Var> for Query {
    open spec fn obeys_from_spec() -> bool {
        true
    }

    open spec fn from_spec(q: Var) -> Query {
        Query::Var(q)
    }
}

impl From<And> for Query {
    fn from(q: And) -> Query {
        Query::And(q)
    }
}

impl vstd::std_specs::convert::FromSpecImpl<And> for Query {
    open spec fn obeys_from_spec() -> bool {
        true
    }

    open spec fn from_spec(q: And) -> Query {
        Query::And(q)
    }
}

impl From<Or> for Query {
    fn from(q: Or) -> Query {
        Query::Or(q)
    }
}

impl vstd::std_specs::convert::FromSpecImpl<Or> for Query {
    open spec fn obeys_from_spec() -> bool {
        true
    }

    open spec fn from_spec(q: Or) -> Query {
        Query::Or(q)
    }
}

impl From<Not> for Query {
    fn from(q: Not) -> Query {
        Query::Not(q)
    }
}

impl vstd::std_specs::convert::FromSpecImpl<Not> for Query {
    open spec fn obeys_from_spec() -> bool {
        true
    }

    open spec fn from_spec(q: Not) -> Query {
        Query::Not(q)
    }
}

impl From<Lt> for Query {
    fn from(q: Lt) -> Query {
        Query::Lt(q)
    }
}

impl vstd::std_specs::convert::FromSpecImpl<Lt> for Query {
    open spec fn obeys_from_spec() -> bool {
        true
    }

    open spec fn from_spec(q: Lt) -> Query {
        Query::Lt(q)
    }
}

impl From<Lte> for Query {
    fn from(q: Lte) -> Query {
        Query::Lte(q)
    }
}

impl vstd::std_specs::convert::FromSpecImpl<Lte> for Query {
    open spec fn obeys_from_spec() -> bool {
        true
    }

    open spec fn from_spec(q: Lte) -> Query {
        Query::Lte(q)
    }
}

impl From<Gt> for Query {
    fn from(q: Gt) -> Query {
        Query::Gt(q)
    }
}

impl vstd::std_specs::convert::FromSpecImpl<Gt> for Query {
    open spec fn obeys_from_spec() -> bool {
        true
    }

    open spec fn from_spec(q: Gt) -> Query {
        Query::Gt(q)
    }
}

impl From<Gte> for Query {
    fn from(q: Gte) -> Query {
        Query::Gte(q)
    }
}

impl vstd::std_specs::convert::FromSpecImpl<Gte> for Query {
    open spec fn obeys_from_spec() -> bool {
        true
    }

    open spec fn from_spec(q: Gte) -> Query {
        Query::Gte(q)
    }
}

impl From<Contains> for Query {
    fn from(q: Contains) -> Query {
        Query::Contains(q)
    }
}

impl vstd::std_specs::convert::FromSpecImpl<Contains> for Query {
    open spec fn obeys_from_spec() -> bool {
        true
    }

    open spec fn from_spec(q: Contains) -> Query {
        Query::Contains(q)
    }
}

impl From<Equals> for Query {
    fn from(q: Equals) -> Query {
        Query::Equals(q)
    }
}

impl vstd::std_specs::convert::FromSpecImpl<Equals> for Query {
    open spec fn obeys_from_spec() -> bool {
        true
    }

    open spec fn from_spec(q: Equals) -> Query {
        Query::Equals(q)
    }
}

impl From<Exists> for Query {
    fn from(q: Exists) -> Query {
        Query::Exists(q)
    }
}

impl vstd::std_specs::convert::FromSpecImpl<Exists> for Query {
    open spec fn obeys_from_spec() -> bool {
        true
    }

    open spec fn from_spec(q: Exists) -> Query {
        Query::Exists(q)
    }
}

} // verus!
