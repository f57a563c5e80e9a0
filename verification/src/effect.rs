//! The `comp_cat_rs` effect types that the lazy entry points return, and
//! the suspended decoding the library builds with them.
use comp_cat_rs::effect::io::Io;
use comp_cat_rs::effect::stream::Stream;
use vstd::prelude::*;
use crate::attribute::DecodedEntity;
use crate::error::{Error, Result};

verus! {

/// `comp_cat_rs::effect::io::Io`: a suspended computation, run by the caller.
#[verifier::external_type_specification]
#[verifier::external_body]
#[verifier::reject_recursive_types(E)]
#[verifier::reject_recursive_types(A)]
pub struct ExIo<E, A>(Io<E, A>);

/// `comp_cat_rs::effect::stream::Stream`: a lazy sequence of effectful steps.
#[verifier::external_type_specification]
#[verifier::external_body]
#[verifier::reject_recursive_types(E)]
#[verifier::reject_recursive_types(A)]
pub struct ExStream<E, A>(Stream<E, A>);

/// What running an [`Io`] that decodes an entity yields.
///
/// The name stands for `Io::run`'s result on the value; [`suspend_decoding`]
/// ties it to the computation it was built from.
pub uninterp spec fn decoding_outcome(io: Io<Error, DecodedEntity>) -> Result<DecodedEntity>;

/// `Io::suspend`: an [`Io`] that runs `f` when the caller runs it, and
/// yields what `f` returns.
#[verifier::external_body]
pub(crate) fn suspend_decoding<F: FnOnce() -> Result<DecodedEntity> + Send + 'static>(f: F) -> (r: Io<
    Error,
    DecodedEntity,
>)
    requires
        f.requires(()),
    ensures
        f.ensures((), decoding_outcome(r)),
{
    Io::suspend(f)
}

} // verus!
