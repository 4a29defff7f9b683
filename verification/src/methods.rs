//! The calls the application layer supports, as plain data.
//!
//! The transport core never reads these shapes: they cross the handler
//! seam as the decoded form of a request's `{method, data}` payload, and
//! the application layer maps each variant to one storage operation.

use vstd::prelude::*;

use crate::db::Nanoid;
use crate::service::ServerError;

verus! {

/// The parameters of a record insertion; the identifier is generated on
/// insert.
#[derive(Debug, Clone, PartialEq, Eq)]
pub struct AddCoffeeParams {
    pub roastery: String,
    pub icon: String,
    pub farmer: String,
    pub price: i64,
    pub origin: String,
}

/// A partial update: the identifier of the record to edit, and a new
/// value for each field that is to change.
#[derive(Debug, Clone, PartialEq, Eq)]
pub struct EditCoffee {
    pub id: Nanoid,
    pub roastery: Option<String>,
    pub icon: Option<String>,
    pub farmer: Option<String>,
    pub price: Option<i64>,
    pub origin: Option<String>,
}

/// The closed set of supported calls.
#[derive(Debug, Clone, PartialEq, Eq)]
pub enum Methods {
    GetRandomCoffee,
    AddCoffee(AddCoffeeParams),
    GrabId { roastery: String, origin: String },
    GrabCoffee(Nanoid),
    EditCoffee(EditCoffee),
}

/// The decision inside the identifier lookup: a row that carries an
/// identifier yields it, a row without one is the `No coffee found`
/// failure.
pub fn require_found(id: Option<String>) -> (r: Result<String, ServerError>)
    ensures
        id matches Some(s) ==> (r matches Ok(v) && v == s),
        id is None ==> (r matches Err(e) && e.message@ == "No coffee found"@),
{
    match id {
        Some(s) => Ok(s),
        None => Err(ServerError::new("No coffee found")),
    }
}

} // verus!
