//! Errors of the Cap'n Proto RPC layer.

use vstd::prelude::*;

use capnp::Error as CapnpError;

verus! {

#[verifier::external_type_specification]
#[verifier::external_body]
pub struct ExCapnpError(CapnpError);

/// The error that `capnp::Error::failed` builds from a description.
pub uninterp spec fn capnp_failed(description: Seq<char>) -> capnp::Error;

/// The error that `capnp::Error::overloaded` builds from a description.
pub uninterp spec fn capnp_overloaded(description: Seq<char>) -> capnp::Error;

/// The error that `capnp::Error::unimplemented` builds from a description.
pub uninterp spec fn capnp_unimplemented(description: Seq<char>) -> capnp::Error;

/// Calls `capnp::Error::failed`. Trusted: the error depends on the
/// description alone (it is the `Failed` kind with the description as its
/// text).
#[verifier::external_body]
pub(crate) fn rpc_failed(description: String) -> (e: capnp::Error)
    ensures
        e == capnp_failed(description@),
{
    capnp::Error::failed(description)
}

/// Calls `capnp::Error::overloaded`. Trusted: the error depends on the
/// description alone (it is the `Overloaded` kind with the description as its
/// text).
#[verifier::external_body]
pub(crate) fn rpc_overloaded(description: String) -> (e: capnp::Error)
    ensures
        e == capnp_overloaded(description@),
{
    capnp::Error::overloaded(description)
}

/// Calls `capnp::Error::unimplemented`. Trusted: the error depends on the
/// description alone (it is the `Unimplemented` kind with the description as
/// its text).
#[verifier::external_body]
pub(crate) fn rpc_unimplemented(description: String) -> (e: capnp::Error)
    ensures
        e == capnp_unimplemented(description@),
{
    capnp::Error::unimplemented(description)
}

} // verus!
