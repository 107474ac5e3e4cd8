//! A model of the host-call bridge: the capability through which the guest
//! makes addressed calls back into its host.
//!
//! The bridge is owned by whoever drives the guest (the host runtime in
//! production, a test otherwise). It answers every call with one scripted
//! reply and keeps a log of the calls made through it, so that callers can
//! state exactly which outbound calls a handler performs.

use vstd::prelude::*;

use crate::errors::HandlerError;

verus! {

/// One outbound call to the host: the addressing triple and the payload.
pub struct HostCall {
    pub binding: String,
    pub namespace: String,
    pub operation: String,
    pub payload: Vec<u8>,
}

/// The mathematical content of a [`HostCall`].
pub ghost struct CallView {
    pub binding: Seq<char>,
    pub namespace: Seq<char>,
    pub operation: Seq<char>,
    pub payload: Seq<u8>,
}

impl View for HostCall {
    type V = CallView;

    open spec fn view(&self) -> CallView {
        CallView {
            binding: self.binding@,
            namespace: self.namespace@,
            operation: self.operation@,
            payload: self.payload@,
        }
    }
}

/// What the bridge answers to every call made through it.
#[derive(Debug, PartialEq, Eq)]
pub enum BridgeReply {
    Success(Vec<u8>),
    Failure(String),
}

/// The host-call capability handed to a handler.
///
/// Every call is appended to [`HostBridge::log`] and answered with the
/// scripted reply the bridge was built with.
pub struct HostBridge {
    reply: BridgeReply,
    calls: Vec<HostCall>,
}

impl HostBridge {
    /// The calls made through this bridge so far, oldest first.
    pub closed spec fn log(&self) -> Seq<CallView> {
        self.calls@.map_values(|c: HostCall| c@)
    }

    /// The reply this bridge gives to every call.
    pub closed spec fn scripted_reply(&self) -> BridgeReply {
        self.reply
    }

    /// A bridge that has served no call yet and will answer `reply` to each.
    pub fn new(reply: BridgeReply) -> (b: HostBridge)
        ensures
            b.log() == Seq::<CallView>::empty(),
            b.scripted_reply() == reply,
    {
        let b = HostBridge { reply, calls: Vec::new() };
        proof {
            assert(b.log() =~= Seq::<CallView>::empty());
        }
        b
    }

    /// Performs one addressed call to the host: the call is logged and the
    /// scripted reply comes back, bytes on success, an error message wrapped
    /// as [`HandlerError::BridgeCall`] on failure.
    pub fn call(
        &mut self,
        binding: &str,
        namespace: &str,
        operation: &str,
        payload: Vec<u8>,
    ) -> (r: Result<Vec<u8>, HandlerError>)
        ensures
            final(self).log() == old(self).log().push(
                (CallView {
                    binding: binding@,
                    namespace: namespace@,
                    operation: operation@,
                    payload: payload@,
                }),
            ),
            final(self).scripted_reply() == old(self).scripted_reply(),
            (old(self).scripted_reply() matches BridgeReply::Success(p) ==> r matches Ok(v)
                && v@ == p@),
            (old(self).scripted_reply() matches BridgeReply::Failure(m) ==> r matches Err(e)
                && e == HandlerError::BridgeCall(m)),
    {
        let record = HostCall {
            binding: binding.to_owned(),
            namespace: namespace.to_owned(),
            operation: operation.to_owned(),
            payload,
        };
        let ghost recorded = record@;
        self.calls.push(record);
        proof {
            assert(self.log() =~= old(self).log().push(recorded));
        }
        match &self.reply {
            BridgeReply::Success(v) => Ok(vstd::slice::slice_to_vec(v.as_slice())),
            BridgeReply::Failure(m) => Err(HandlerError::BridgeCall(m.clone())),
        }
    }

    /// How many calls have been made through this bridge.
    pub fn call_count(&self) -> (n: usize)
        ensures
            n == self.log().len(),
    {
        self.calls.len()
    }

    /// The `i`-th call made through this bridge, oldest first.
    pub fn call_at(&self, i: usize) -> (c: &HostCall)
        requires
            i < self.log().len(),
        ensures
            c@ == self.log()[i as int],
    {
        &self.calls[i]
    }
}

} // verus!
