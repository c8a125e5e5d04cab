//! Conversion to a native 64-bit float.

use vstd::prelude::*;
use crate::coercions::{Target, TypeTag};

verus! {

/// Marks the native 64-bit float as a conversion target.
#[derive(Clone, Copy, Debug)]
pub struct Float64;

impl Target for Float64 {
    open spec fn accepts(tag: TypeTag) -> bool {
        tag is Float || tag is Fixnum || tag is Bignum
    }

    open spec fn description() -> Seq<char> {
        "a 64-bit float"@
    }

    fn check(tag: TypeTag) -> (r: bool) {
        match tag {
            TypeTag::Float | TypeTag::Fixnum | TypeTag::Bignum => true,
            _ => false,
        }
    }

    fn describe() -> (r: &'static str) {
        "a 64-bit float"
    }
}

} // verus!
