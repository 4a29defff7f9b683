//! Stored-record model: identifiers, the record shape, and the
//! idempotent schema definition the storage engine runs at startup.

use vstd::prelude::*;

verus! {

/// Relies on `nanoid::format` with nanoid's default secure generator,
/// its 64-character URL-safe ASCII alphabet and size 21: every outcome
/// is a string of exactly 21 characters from that alphabet.
#[verifier::external_body]
fn gen_id() -> (r: String)
    ensures
        r@.len() == 21,
{
    nanoid::format(nanoid::rngs::default, &nanoid::alphabet::SAFE, 21)
}

/// A record identifier: 21 characters from a URL-safe alphabet when
/// freshly generated, or the text a stored row carries.
#[derive(Debug, Clone, PartialEq, Eq)]
pub struct Nanoid(String);

impl View for Nanoid {
    type V = Seq<char>;

    closed spec fn view(&self) -> Seq<char> {
        self.0@
    }
}

impl Nanoid {
    /// Generates a fresh random identifier of 21 characters.
    pub fn new() -> (r: Nanoid)
        ensures
            r@.len() == 21,
    {
        Nanoid(gen_id())
    }

    /// Wraps the identifier text a stored row carries.
    pub fn from_string(s: String) -> (r: Nanoid)
        ensures
            r@ == s@,
    {
        Nanoid(s)
    }

    /// The identifier's text.
    pub fn as_str(&self) -> (r: &str)
        ensures
            r@ == self@,
    {
        self.0.as_str()
    }
}

/// One stored record.
#[derive(Debug, Clone, PartialEq, Eq)]
pub struct Coffee {
    pub id: Nanoid,
    pub roastery: String,
    pub icon: String,
    pub farmer: String,
    pub price: i64,
    pub origin: String,
}

/// The text of the schema definition run at every startup.
pub open spec fn schema_sql_spec() -> Seq<char> {
    "CREATE TABLE IF NOT EXISTS coffees (id TEXT PRIMARY KEY UNIQUE, roastery TEXT NOT NULL, icon TEXT NOT NULL, farmer TEXT NOT NULL, price INTEGER NOT NULL, origin TEXT NOT NULL)"@
}

/// The schema definition the storage engine runs at startup.
///
/// `CREATE TABLE IF NOT EXISTS` makes the statement idempotent: running
/// it against an already-initialized store changes nothing and does not
/// fail.
pub fn schema_sql() -> (r: &'static str)
    ensures
        r@ == schema_sql_spec(),
{
    "CREATE TABLE IF NOT EXISTS coffees (id TEXT PRIMARY KEY UNIQUE, roastery TEXT NOT NULL, icon TEXT NOT NULL, farmer TEXT NOT NULL, price INTEGER NOT NULL, origin TEXT NOT NULL)"
}

} // verus!
