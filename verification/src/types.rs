//! The arguments that instructions carry.

use vstd::prelude::*;

verus! {

/// What a new collection is created with.
#[derive(Debug, PartialEq, Eq)]
pub struct CreateCollectionArgs {
    pub name: String,
    pub uri: String,
}

/// What a new asset is created with.
#[derive(Debug, PartialEq, Eq)]
pub struct CreateAssetArgs {
    pub name: String,
    pub uri: String,
}

} // verus!
