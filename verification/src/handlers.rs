//! The two handlers this guest exposes, and the registration entry point
//! that places them in a dispatch table.

use vstd::prelude::*;

use crate::bridge::CallView;
use crate::bridge::HostBridge;
use crate::bridge::HostCall;
use crate::errors::HandlerError;
use crate::registry::DispatchTable;
use crate::registry::HandlerKind;

verus! {

/// The one outbound call `echo` makes for a request payload `p`: the fixed
/// addressing triple with `p` as its argument.
pub open spec fn echo_call(p: Seq<u8>) -> CallView {
    CallView { binding: "wapc"@, namespace: "testing"@, operation: "echo"@, payload: p }
}

/// Builds the one outbound call `echo` makes for `payload`, for a caller
/// that carries it to a real host.
pub fn echo_request(payload: &[u8]) -> (c: HostCall)
    ensures
        c@ == echo_call(payload@),
{
    HostCall {
        binding: "wapc".to_owned(),
        namespace: "testing".to_owned(),
        operation: "echo".to_owned(),
        payload: vstd::slice::slice_to_vec(payload),
    }
}

/// Concludes an `echo` invocation once the outbound call has been answered.
///
/// Whatever `outcome` the bridge produced, success or failure, the reply to
/// the host is the request payload unchanged: a handler may ignore a failed
/// nested host call and still report its own success.
pub fn echo_reply(payload: &[u8], outcome: Result<Vec<u8>, HandlerError>) -> (r: Result<
    Vec<u8>,
    HandlerError,
>)
    ensures
        r matches Ok(v) && v@ == payload@,
{
    let _ = outcome;
    Ok(vstd::slice::slice_to_vec(payload))
}

/// The `echo` handler: calls the host once at `("wapc", "testing", "echo")`
/// with the request payload, discards the outcome of that call, and hands
/// the payload back unchanged. It never fails.
pub fn echo(bridge: &mut HostBridge, payload: &[u8]) -> (r: Result<Vec<u8>, HandlerError>)
    ensures
        r matches Ok(v) && v@ == payload@,
        final(bridge).log() == old(bridge).log().push(echo_call(payload@)),
        final(bridge).scripted_reply() == old(bridge).scripted_reply(),
{
    let outcome = bridge.call("wapc", "testing", "echo", vstd::slice::slice_to_vec(payload));
    echo_reply(payload, outcome)
}

/// The `nope` handler: ignores its payload and always fails with the
/// planned message.
pub fn nope(payload: &[u8]) -> (r: Result<Vec<u8>, HandlerError>)
    ensures
        r matches Err(e) && e == HandlerError::PlannedFailure,
{
    let _ = payload;
    Err(HandlerError::PlannedFailure)
}

/// Runs the handler that `kind` names on `payload`, with `bridge` as the
/// host-call capability: `Echo` behaves as [`echo`], `Nope` as [`nope`].
pub fn run_handler(kind: HandlerKind, bridge: &mut HostBridge, payload: &[u8]) -> (r: Result<
    Vec<u8>,
    HandlerError,
>)
    ensures
        kind == HandlerKind::Echo ==> (r matches Ok(v) && v@ == payload@) && final(bridge).log()
            == old(bridge).log().push(echo_call(payload@)) && final(bridge).scripted_reply()
            == old(bridge).scripted_reply(),
        kind == HandlerKind::Nope ==> (r matches Err(e) && e == HandlerError::PlannedFailure)
            && *final(bridge) == *old(bridge),
{
    match kind {
        HandlerKind::Echo => echo(bridge, payload),
        HandlerKind::Nope => nope(payload),
    }
}

/// The table contents that registration produces on top of `m`: `m` with
/// `"echo"` bound to [`HandlerKind::Echo`] and `"nope"` to
/// [`HandlerKind::Nope`].
pub open spec fn registered_names(m: Map<Seq<char>, HandlerKind>) -> Map<Seq<char>, HandlerKind> {
    m.insert("echo"@, HandlerKind::Echo).insert("nope"@, HandlerKind::Nope)
}

/// The initialization entry point: registers the two handlers of this guest
/// in `table` under the names the host addresses them by.
pub fn initialize(table: &mut DispatchTable)
    ensures
        final(table)@ == registered_names(old(table)@),
{
    table.register("echo", HandlerKind::Echo);
    table.register("nope", HandlerKind::Nope);
}

/// Law: initializing an empty table yields exactly the two names `"echo"`
/// and `"nope"`, resolving to the echo and nope handlers respectively.
pub proof fn lemma_initialize_exact()
    ensures
        registered_names(Map::<Seq<char>, HandlerKind>::empty()).dom() == set!["echo"@, "nope"@],
        registered_names(Map::<Seq<char>, HandlerKind>::empty())["echo"@] == HandlerKind::Echo,
        registered_names(Map::<Seq<char>, HandlerKind>::empty())["nope"@] == HandlerKind::Nope,
{
    reveal_strlit("echo");
    reveal_strlit("nope");
    assert("echo"@ != "nope"@) by {
        assert("echo"@[0] == 'e');
        assert("nope"@[0] == 'n');
    }
    assert(registered_names(Map::<Seq<char>, HandlerKind>::empty()).dom() =~= set![
        "echo"@,
        "nope"@,
    ]);
}

/// Law: registering the two handlers a second time leaves the table
/// unchanged — later registrations overwrite, they do not duplicate.
pub proof fn lemma_initialize_idempotent(m: Map<Seq<char>, HandlerKind>)
    ensures
        registered_names(registered_names(m)) == registered_names(m),
{
    assert(registered_names(registered_names(m)) =~= registered_names(m));
}

} // verus!
