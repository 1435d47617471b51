use vstd::prelude::*;
use vstd::string::*;

verus! {

/// The failures of the services and handlers.
#[derive(Debug)]
pub enum AllError {
    /// The requested entity does not exist.
    NotFound,
    /// No authenticated caller.
    Unauthorized,
    /// The caller is not a member, or holds too little authority.
    Forbidden,
    /// A store call failed; the detail is the store's own message.
    StoreError(String),
    /// A record fetched by key could not be decoded.
    CorruptRecord,
}

/// The transport status that each error maps to.
pub open spec fn status_of(e: AllError) -> u16 {
    match e {
        AllError::NotFound => 404,
        AllError::Unauthorized => 401,
        AllError::Forbidden => 403,
        AllError::StoreError(_) => 500,
        AllError::CorruptRecord => 404,
    }
}

/// A text that describes an error: the store's own message for a store
/// failure.
pub open spec fn detail_spec(e: AllError) -> Seq<char> {
    match e {
        AllError::NotFound => "not found"@,
        AllError::Unauthorized => "unauthorized"@,
        AllError::Forbidden => "forbidden"@,
        AllError::StoreError(d) => d@,
        AllError::CorruptRecord => "corrupt record"@,
    }
}

impl AllError {
    pub fn detail(&self) -> (r: String)
        ensures
            r@ == detail_spec(*self),
    {
        match self {
            AllError::NotFound => String::from_str("not found"),
            AllError::Unauthorized => String::from_str("unauthorized"),
            AllError::Forbidden => String::from_str("forbidden"),
            AllError::StoreError(d) => d.clone(),
            AllError::CorruptRecord => String::from_str("corrupt record"),
        }
    }

    pub fn status_code(&self) -> (r: u16)
        ensures
            r == status_of(*self),
    {
        match self {
            AllError::NotFound => 404,
            AllError::Unauthorized => 401,
            AllError::Forbidden => 403,
            AllError::StoreError(_) => 500,
            AllError::CorruptRecord => 404,
        }
    }

    pub fn is_not_found(&self) -> (r: bool)
        ensures
            r == (*self is NotFound || *self is CorruptRecord),
    {
        match self {
            AllError::NotFound | AllError::CorruptRecord => true,
            _ => false,
        }
    }
}

} // verus!
