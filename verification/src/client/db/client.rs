use vstd::prelude::*;
use vstd::string::*;

verus! {

/// The identifier the document store assigns to a stored document. It is only
/// carried around: nothing here looks inside it.
#[verifier::external_type_specification]
#[verifier::external_body]
pub struct ExObjectId(mongodb::bson::oid::ObjectId);

/// The databases of the document store.
#[allow(non_camel_case_types)]
#[derive(Debug, Clone, Copy, PartialEq, Eq, Hash, Structural)]
pub enum DATABASE {
    MANSA,
}

impl DATABASE {
    pub open spec fn spec_name(self) -> Seq<char> {
        "MANSA"@
    }

    pub fn to_string(&self) -> (name: String)
        ensures
            name@ == self.spec_name(),
    {
        String::from_str("MANSA")
    }
}

/// The collections of the crawler's database.
#[allow(non_camel_case_types)]
#[derive(Debug, Clone, Copy, PartialEq, Eq, Hash, Structural)]
pub enum DATABASE_COLLECTIONS {
    ENTITIES,
    PARSING_TASKS,
}

impl DATABASE_COLLECTIONS {
    pub open spec fn spec_name(self) -> Seq<char> {
        match self {
            DATABASE_COLLECTIONS::ENTITIES => "ENTITIES"@,
            DATABASE_COLLECTIONS::PARSING_TASKS => "PARSING_TASKS"@,
        }
    }

    pub fn to_string(&self) -> (name: String)
        ensures
            name@ == self.spec_name(),
    {
        match self {
            DATABASE_COLLECTIONS::ENTITIES => String::from_str("ENTITIES"),
            DATABASE_COLLECTIONS::PARSING_TASKS => String::from_str("PARSING_TASKS"),
        }
    }
}

/// A document type that knows the collection it is stored in.
pub trait DBCollection {
    spec fn spec_collection() -> DATABASE_COLLECTIONS;

    fn get_collection() -> (name: String)
        ensures
            name@ == Self::spec_collection().spec_name(),
    ;
}

/// The smallest and the largest key of one bucket of a grouped fetch.
#[derive(Debug, Clone, PartialEq, Eq, Hash)]
pub struct GroupBoundaries<T> {
    pub min: T,
    pub max: T,
}

/// Documents to append to a collection.
#[derive(Debug, Clone, PartialEq, Eq)]
pub struct Insertion<T> {
    pub database: DATABASE,
    pub collection: DATABASE_COLLECTIONS,
    pub documents: Vec<T>,
}

/// The insertion of `collection` into a collection of the store. There is
/// nothing to insert where `collection` is empty: the store is not asked
/// then.
pub fn insert_if_not_empty<T>(
    collection: Vec<T>,
    database: DATABASE,
    database_collection: DATABASE_COLLECTIONS,
) -> (insertion: Option<Insertion<T>>)
    ensures
        collection@.len() == 0 ==> insertion is None,
        collection@.len() > 0 ==> insertion == Some(
            Insertion { database, collection: database_collection, documents: collection },
        ),
{
    if collection.len() == 0 {
        None
    } else {
        Some(Insertion { database, collection: database_collection, documents: collection })
    }
}

} // verus!
