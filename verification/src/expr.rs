//! The value and expression model: every legal query value — scalar
//! literals, byte blobs, instants, calendar dates, resource references,
//! plain objects and arrays, and nested query calls — as one tagged union.

use vstd::prelude::*;
use crate::query::Query;

verus! {

/// Seconds of `0001-01-01T00:00:00Z`, the earliest instant a `Timestamp`
/// accepts.
pub const TS_MIN_SECS: i64 = -62135596800;

/// Seconds of `9999-12-31T23:59:59Z`, the latest instant a `Timestamp`
/// accepts.
pub const TS_MAX_SECS: i64 = 253402300799;

/// Nanoseconds per second: the bound a `Timestamp`'s subsecond part obeys.
pub const NANOS_PER_SEC: u32 = 1000000000;

/// An instant in UTC: non-leap seconds since the Unix epoch plus a
/// subsecond part in nanoseconds. Kept within the years 1 to 9999 so the
/// instant always has an RFC 3339 text.
#[derive(Clone, Copy, Debug)]
pub struct Timestamp {
    secs: i64,
    nanos: u32,
}

impl Timestamp {
    /// The well-formedness every `Timestamp` carries.
    #[verifier::type_invariant]
    pub closed spec fn wf(self) -> bool {
        &&& TS_MIN_SECS <= self.secs <= TS_MAX_SECS
        &&& self.nanos < NANOS_PER_SEC
    }

    /// Seconds since the Unix epoch.
    pub closed spec fn spec_secs(self) -> int {
        self.secs as int
    }

    /// The subsecond part, in nanoseconds.
    pub closed spec fn spec_nanos(self) -> int {
        self.nanos as int
    }

    /// Seconds since the Unix epoch, always within the accepted range.
    pub fn secs(&self) -> (r: i64)
        ensures
            r as int == self.spec_secs(),
            TS_MIN_SECS <= r <= TS_MAX_SECS,
    {
        proof {
            use_type_invariant(self);
        }
        self.secs
    }

    /// The subsecond part in nanoseconds, always below one second.
    pub fn nanos(&self) -> (r: u32)
        ensures
            r as int == self.spec_nanos(),
            r < NANOS_PER_SEC,
    {
        proof {
            use_type_invariant(self);
        }
        self.nanos
    }

    /// Builds the instant `secs` seconds and `nanos` nanoseconds after the
    /// Unix epoch; yields `None` exactly when the instant falls outside the
    /// years 1 to 9999 or the subsecond part overflows a second.
    pub fn new(secs: i64, nanos: u32) -> (r: Option<Timestamp>)
        ensures
            (TS_MIN_SECS <= secs <= TS_MAX_SECS && nanos < NANOS_PER_SEC) <==> r is Some,
            r matches Some(t) ==> t.spec_secs() == secs && t.spec_nanos() == nanos,
    {
        if TS_MIN_SECS <= secs && secs <= TS_MAX_SECS && nanos < NANOS_PER_SEC {
            Some(Timestamp { secs, nanos })
        } else {
            None
        }
    }
}

/// A calendar date, year 0 to 9999, with the month and day bounds that give
/// it a fixed-width `YYYY-MM-DD` text.
#[derive(Clone, Copy, Debug)]
pub struct CalendarDate {
    year: i32,
    month: u8,
    day: u8,
}

impl CalendarDate {
    /// The well-formedness every `CalendarDate` carries.
    #[verifier::type_invariant]
    pub closed spec fn wf(self) -> bool {
        &&& 0 <= self.year <= 9999
        &&& 1 <= self.month <= 12
        &&& 1 <= self.day <= 31
    }

    pub closed spec fn spec_year(self) -> int {
        self.year as int
    }

    pub closed spec fn spec_month(self) -> int {
        self.month as int
    }

    pub closed spec fn spec_day(self) -> int {
        self.day as int
    }

    /// A well-formed date lies within the calendar ranges.
    pub proof fn lemma_wf_ranges(d: CalendarDate)
        requires
            d.wf(),
        ensures
            0 <= d.spec_year() <= 9999,
            1 <= d.spec_month() <= 12,
            1 <= d.spec_day() <= 31,
    {
    }

    /// A date is nothing but its year, month and day.
    pub proof fn lemma_fields_determine(a: CalendarDate, b: CalendarDate)
        requires
            a.spec_year() == b.spec_year(),
            a.spec_month() == b.spec_month(),
            a.spec_day() == b.spec_day(),
        ensures
            a == b,
    {
    }

    /// The year, always within 0 to 9999.
    pub fn year(&self) -> (r: i32)
        ensures
            r as int == self.spec_year(),
            0 <= r <= 9999,
    {
        proof {
            use_type_invariant(self);
        }
        self.year
    }

    /// The month, always within 1 to 12.
    pub fn month(&self) -> (r: u8)
        ensures
            r as int == self.spec_month(),
            1 <= r <= 12,
    {
        proof {
            use_type_invariant(self);
        }
        self.month
    }

    /// The day, always within 1 to 31.
    pub fn day(&self) -> (r: u8)
        ensures
            r as int == self.spec_day(),
            1 <= r <= 31,
    {
        proof {
            use_type_invariant(self);
        }
        self.day
    }

    /// Builds the date; yields `None` exactly when a field is out of range.
    pub fn new(year: i32, month: u8, day: u8) -> (r: Option<CalendarDate>)
        ensures
            (0 <= year <= 9999 && 1 <= month <= 12 && 1 <= day <= 31) <==> r is Some,
            r matches Some(d) ==> d.spec_year() == year && d.spec_month() == month
                && d.spec_day() == day,
    {
        if 0 <= year && year <= 9999 && 1 <= month && month <= 12 && 1 <= day && day <= 31 {
            Some(CalendarDate { year, month, day })
        } else {
            None
        }
    }
}

/// A typed address of a server-side resource. `class` is the containing
/// collection — absent only for the synthetic top-level collections — and
/// `database` an owning database scope for multi-tenant addressing.
#[derive(Debug)]
pub struct Reference {
    pub id: String,
    pub class: Option<Box<Reference>>,
    pub database: Option<Box<Reference>>,
}

impl Clone for Reference {
    /// A deep copy, equal to the original.
    fn clone(&self) -> (res: Self)
        ensures
            res == *self,
        decreases *self,
    {
        let id = self.id.clone();
        let class = match &self.class {
            Some(b) => Some(Box::new((**b).clone())),
            None => None,
        };
        let database = match &self.database {
            Some(b) => Some(Box::new((**b).clone())),
            None => None,
        };
        Reference { id, class, database }
    }
}


/// Equality of two references up to character-for-character id contents.
pub open spec fn ref_eqv(a: Reference, b: Reference) -> bool
    decreases a,
{
    &&& a.id@ == b.id@
    &&& match (a.class, b.class) {
        (Option::None, Option::None) => true,
        (Option::Some(x), Option::Some(y)) => ref_eqv(*x, *y),
        _ => false,
    }
    &&& match (a.database, b.database) {
        (Option::None, Option::None) => true,
        (Option::Some(x), Option::Some(y)) => ref_eqv(*x, *y),
        _ => false,
    }
}

impl PartialEq for Reference {
    /// Structural equality: same id, same class chain, same database
    /// chain, compared character for character.
    fn eq(&self, other: &Reference) -> (r: bool)
        decreases *self,
    {
        let ids: bool = self.id == other.id;
        let classes: bool = match (&self.class, &other.class) {
            (None, None) => true,
            (Some(a), Some(b)) => (**a).eq(&**b),
            _ => false,
        };
        let databases: bool = match (&self.database, &other.database) {
            (None, None) => true,
            (Some(a), Some(b)) => (**a).eq(&**b),
            _ => false,
        };
        ids && classes && databases
    }
}

impl vstd::std_specs::cmp::PartialEqSpecImpl for Reference {
    open spec fn obeys_eq_spec() -> bool {
        true
    }

    open spec fn eq_spec(&self, other: &Reference) -> bool {
        ref_eqv(*self, *other)
    }
}

impl Reference {
    /// A bare reference to the document with this id, in no collection and
    /// no database scope.
    pub fn instance(id: &str) -> (r: Reference)
        ensures
            r.id@ == id@,
            r.class is None,
            r.database is None,
    {
        Reference { id: id.to_owned(), class: None, database: None }
    }

    /// A reference to a class, scoped under the built-in `classes`
    /// collection.
    pub fn class(name: &str) -> (r: Reference)
        ensures
            r.id@ == name@,
            r.class matches Some(c) && c.id@ == "classes"@ && c.class is None
                && c.database is None,
            r.database is None,
    {
        Reference {
            id: name.to_owned(),
            class: Some(Box::new(Reference::instance("classes"))),
            database: None,
        }
    }

    /// A reference to a database, scoped under the built-in `databases`
    /// collection.
    pub fn database(name: &str) -> (r: Reference)
        ensures
            r.id@ == name@,
            r.class matches Some(c) && c.id@ == "databases"@ && c.class is None
                && c.database is None,
            r.database is None,
    {
        Reference {
            id: name.to_owned(),
            class: Some(Box::new(Reference::instance("databases"))),
            database: None,
        }
    }

    /// A reference to an index, scoped under the built-in `indexes`
    /// collection.
    pub fn index(name: &str) -> (r: Reference)
        ensures
            r.id@ == name@,
            r.class matches Some(c) && c.id@ == "indexes"@ && c.class is None
                && c.database is None,
            r.database is None,
    {
        Reference {
            id: name.to_owned(),
            class: Some(Box::new(Reference::instance("indexes"))),
            database: None,
        }
    }

    /// A reference to a user-defined function, scoped under the built-in
    /// `functions` collection.
    pub fn function(name: &str) -> (r: Reference)
        ensures
            r.id@ == name@,
            r.class matches Some(c) && c.id@ == "functions"@ && c.class is None
                && c.database is None,
            r.database is None,
    {
        Reference {
            id: name.to_owned(),
            class: Some(Box::new(Reference::instance("functions"))),
            database: None,
        }
    }

    /// A reference to a key, scoped under the built-in `keys` collection.
    pub fn key(id: &str) -> (r: Reference)
        ensures
            r.id@ == id@,
            r.class matches Some(c) && c.id@ == "keys"@ && c.class is None
                && c.database is None,
            r.database is None,
    {
        Reference {
            id: id.to_owned(),
            class: Some(Box::new(Reference::instance("keys"))),
            database: None,
        }
    }

    /// Scopes the reference under `class`, replacing — never nesting — any
    /// class scope it already had.
    pub fn in_class(self, class: Reference) -> (r: Reference)
        ensures
            r.id == self.id,
            r.database == self.database,
            r.class matches Some(c) && *c == class,
    {
        Reference { id: self.id, class: Some(Box::new(class)), database: self.database }
    }

    /// Scopes the reference under `database`, replacing — never nesting —
    /// any database scope it already had.
    pub fn in_database(self, database: Reference) -> (r: Reference)
        ensures
            r.id == self.id,
            r.class == self.class,
            r.database matches Some(d) && *d == database,
    {
        Reference { id: self.id, class: self.class, database: Some(Box::new(database)) }
    }
}

/// A scalar wire-representable value.
#[derive(Debug)]
pub enum Value {
    Null,
    Bool(bool),
    Int(i64),
    Str(String),
    Bytes(Vec<u8>),
    Timestamp(Timestamp),
    Date(CalendarDate),
    Ref(Reference),
}

/// The universal value-or-expression union every query constructor accepts:
/// a raw value, a plain object, an array, or a nested query call.
#[derive(Debug)]
pub enum Expr {
    Val(Value),
    Obj(Vec<(String, Expr)>),
    Arr(Vec<Expr>),
    Call(Box<Query>),
}

impl Expr {
    /// The string expression holding the characters of `s`.
    pub fn string(s: &str) -> (r: Expr)
        ensures
            r matches Expr::Val(Value::Str(st)) && st@ == s@,
    {
        Expr::Val(Value::Str(s.to_owned()))
    }

    /// The null expression.
    pub fn null() -> (r: Expr)
        ensures
            r == Expr::Val(Value::Null),
    {
        Expr::Val(Value::Null)
    }

    /// The expression calling the query `q`.
    pub fn query(q: Query) -> (r: Expr)
        ensures
            r matches Expr::Call(b) && *b == q,
    {
        Expr::Call(Box::new(q))
    }
}

impl From<bool> for Expr {
    fn from(b: bool) -> Expr {
        Expr::Val(Value::Bool(b))
    }
}

impl vstd::std_specs::convert::FromSpecImpl<bool> for Expr {
    open spec fn obeys_from_spec() -> bool {
        true
    }

    open spec fn from_spec(b: bool) -> Expr {
        Expr::Val(Value::Bool(b))
    }
}

impl From<i64> for Expr {
    fn from(n: i64) -> Expr {
        Expr::Val(Value::Int(n))
    }
}

impl vstd::std_specs::convert::FromSpecImpl<i64> for Expr {
    open spec fn obeys_from_spec() -> bool {
        true
    }

    open spec fn from_spec(n: i64) -> Expr {
        Expr::Val(Value::Int(n))
    }
}

impl From<String> for Expr {
    fn from(s: String) -> Expr {
        Expr::Val(Value::Str(s))
    }
}

impl vstd::std_specs::convert::FromSpecImpl<String> for Expr {
    open spec fn obeys_from_spec() -> bool {
        true
    }

    open spec fn from_spec(s: String) -> Expr {
        Expr::Val(Value::Str(s))
    }
}

impl From<Timestamp> for Expr {
    fn from(t: Timestamp) -> Expr {
        Expr::Val(Value::Timestamp(t))
    }
}

impl vstd::std_specs::convert::FromSpecImpl<Timestamp> for Expr {
    open spec fn obeys_from_spec() -> bool {
        true
    }

    open spec fn from_spec(t: Timestamp) -> Expr {
        Expr::Val(Value::Timestamp(t))
    }
}

impl From<CalendarDate> for Expr {
    fn from(d: CalendarDate) -> Expr {
        Expr::Val(Value::Date(d))
    }
}

impl vstd::std_specs::convert::FromSpecImpl<CalendarDate> for Expr {
    open spec fn obeys_from_spec() -> bool {
        true
    }

    open spec fn from_spec(d: CalendarDate) -> Expr {
        Expr::Val(Value::Date(d))
    }
}

impl From<Reference> for Expr {
    fn from(r: Reference) -> Expr {
        Expr::Val(Value::Ref(r))
    }
}

impl vstd::std_specs::convert::FromSpecImpl<Reference> for Expr {
    open spec fn obeys_from_spec() -> bool {
        true
    }

    open spec fn from_spec(r: Reference) -> Expr {
        Expr::Val(Value::Ref(r))
    }
}

impl From<Vec<Expr>> for Expr {
    fn from(v: Vec<Expr>) -> Expr {
        Expr::Arr(v)
    }
}

impl vstd::std_specs::convert::FromSpecImpl<Vec<Expr>> for Expr {
    open spec fn obeys_from_spec() -> bool {
        true
    }

    open spec fn from_spec(v: Vec<Expr>) -> Expr {
        Expr::Arr(v)
    }
}

} // verus!
