//! The order of two tags, in the terms of the standard library.

use vstd::prelude::*;
use std::cmp::Ordering;
use crate::errors::{Error, ErrorKind};
use crate::migration::Migration;
use crate::precedence::{precede, source_tags, tag_precedence, Precedence};

verus! {

/// The order that a precedence stands for.
pub open spec fn order_of(precedence: Precedence) -> Ordering {
    match precedence {
        Precedence::Before => Ordering::Less,
        Precedence::Same => Ordering::Equal,
        Precedence::After => Ordering::Greater,
    }
}

/// Compares two tags. `source` are the migrations that the program
/// registered, where it registered any.
///
/// Generated tags compare as their stamps do, and registered tags as their
/// places in the source do. Fails as [`precede`] does.
pub fn compare(a: &str, b: &str, source: Option<&[Migration]>) -> (result: Result<Ordering, Error>)
    ensures
        match result {
            Ok(order) => tag_precedence(a@, b@, source_tags(source)) matches Ok(precedence)
                && order == order_of(precedence),
            Err(e) => tag_precedence(a@, b@, source_tags(source)) == Err::<Precedence, ErrorKind>(
                e.kind_of(),
            ),
        },
{
    match precede(a, b, source) {
        Err(e) => Err(e),
        Ok(Precedence::Before) => Ok(Ordering::Less),
        Ok(Precedence::Same) => Ok(Ordering::Equal),
        Ok(Precedence::After) => Ok(Ordering::Greater),
    }
}

} // verus!
