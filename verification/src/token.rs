//! The cancellation handle of a schedule.
//!
//! A schedule is stopped through a `tokio_util::sync::CancellationToken`. The
//! token is shared between the caller and the running schedule and may be
//! cancelled at any moment from any thread, so nothing is stated here of
//! whether a token is cancelled. To the verifier a token is a value that is
//! carried, and that says which token a handle leads to: two handles are equal
//! where they lead to the same one.

use tokio_util::sync::CancellationToken;
use vstd::prelude::*;

verus! {

/// `tokio_util::sync::CancellationToken`. Nothing is seen of what is inside.
#[verifier::external_type_specification]
#[verifier::external_body]
pub struct ExCancellationToken(CancellationToken);

/// `CancellationToken::new`: a token of its own, with no parent. No claim is
/// made of the result.
pub assume_specification[ CancellationToken::new ]() -> (token: CancellationToken);

/// `CancellationToken::child_token`: a token that is cancelled with `token`
/// and whose own cancellation leaves `token` alone. No claim is made of the
/// result.
pub assume_specification[ CancellationToken::child_token ](
    token: &CancellationToken,
) -> (child: CancellationToken);

/// `CancellationToken::cancel`: requests cancellation of `token` and of all
/// that was derived from it. No claim is made of what it leaves.
pub assume_specification[ CancellationToken::cancel ](token: &CancellationToken);

/// `Clone` for `CancellationToken`: another handle to the same token. The
/// clone is equal to `token`, as the crate's own `==` has it: the two lead to
/// one node of the cancellation tree, so that cancelling either cancels the
/// other. Of whether that token is cancelled, nothing is claimed.
pub assume_specification[ <CancellationToken as Clone>::clone ](
    token: &CancellationToken,
) -> (handle: CancellationToken)
    ensures
        handle == *token,
;

} // verus!
