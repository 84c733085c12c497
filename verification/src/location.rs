//! The types that can name a location: a plain path or a URL.

use vstd::prelude::*;
use crate::sealed::Sealed;
use url::Url;

verus! {

/// Marks the types that can be serialised. Every type is marked: the
/// library itself serialises nothing.
pub trait SerdeSupport {

}

/// Marks the types that have a schema. Every type is marked: the library
/// itself describes none.
pub trait SchemaSupport {

}

impl<T> SerdeSupport for T {

}

impl<T> SchemaSupport for T {

}

/// A type that names a location: `String` for a path, `Url` for a URL.
pub trait LocationType: Sealed + SerdeSupport + SchemaSupport {

}

impl LocationType for Url {

}

impl LocationType for String {

}

} // verus!
