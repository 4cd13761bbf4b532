//! Type tokens and texts: what the standard library compares for this crate.

use vstd::prelude::*;
use std::any::TypeId;

verus! {

#[verifier::external_type_specification]
#[verifier::external_body]
pub struct ExTypeId(TypeId);

/// `TypeId::of`: a call for the type `T`. Nothing is claimed of it here; it
/// is the call whose outcomes `stands_for` speaks of.
#[verifier::external_body]
pub(crate) fn token_of<T: 'static>() -> (token: TypeId) {
    TypeId::of::<T>()
}

/// Whether `token` is what a call of `TypeId::of` for the type `T` returns.
pub closed spec fn stands_for<T: 'static>(token: TypeId) -> bool {
    call_ensures(token_of::<T>, (), token)
}

/// The token of the type `T`.
pub closed spec fn type_token<T: 'static>() -> TypeId {
    choose|token: TypeId| stands_for::<T>(token)
}

/// `TypeId::of`: the token of the type `T`. A type has one token: whatever a
/// call for `T` returns is this token.
#[verifier::external_body]
pub(crate) fn token_for<T: 'static>() -> (token: TypeId)
    ensures
        stands_for::<T>(token),
        forall|other: TypeId| #[trigger] stands_for::<T>(other) ==> other == token,
{
    TypeId::of::<T>()
}

/// The token of the type `T`.
pub(crate) fn token<T: 'static>() -> (token: TypeId)
    ensures
        token == type_token::<T>(),
{
    token_for::<T>()
}

/// `TypeId::eq`: whether two tokens are the same token.
#[verifier::external_body]
pub(crate) fn same_token(a: &TypeId, b: &TypeId) -> (r: bool)
    ensures
        r == (*a == *b),
{
    a == b
}

/// `str::eq`: whether two strings hold the same text.
#[verifier::external_body]
pub(crate) fn same_text(a: &str, b: &str) -> (r: bool)
    ensures
        r == (a@ == b@),
{
    a == b
}

} // verus!
