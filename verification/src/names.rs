//! Names that the resolver itself knows: the receiver pattern and the
//! built-in global types.
use vstd::prelude::*;

use crate::types::Name;

verus! {

/// The synthetic `this` parameter.
pub const THIS: Name = 0;

/// The built-in interface `Object`.
pub const OBJECT: Name = 1;

/// The built-in interface `Function`.
pub const FUNCTION: Name = 2;

/// The built-in interface `Array`.
pub const ARRAY: Name = 3;

/// The built-in interface `ArrayConstructor`.
pub const ARRAY_CONSTRUCTOR: Name = 4;

/// The built-in interface `Number`.
pub const NUMBER: Name = 5;

/// The built-in interface `String`.
pub const STRING: Name = 6;

/// The built-in `Symbol`.
pub const SYMBOL: Name = 7;

/// The member `toString`.
pub const TO_STRING: Name = 8;

/// The first name that is free for identifiers of a program.
pub const FIRST_FREE: Name = 16;

} // verus!
