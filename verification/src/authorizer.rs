//! The `Authorizer` derive: implements `Authorizer` for the item with the trait's default
//! methods.

use vstd::prelude::*;
use crate::syntax::DeriveInput;

verus! {

/// The name of the item that receives `impl Authorizer for {name} {}`.
pub fn authorizer_expand(input: &DeriveInput) -> (r: String)
    ensures
        r@ == input.ident@,
{
    input.ident.clone()
}

} // verus!
