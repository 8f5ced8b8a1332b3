//! The interface of a host controller.
use crate::control::{RequestCode, RequestType, WValue};
use crate::endpoint::{EpProps, HostEndpoint};
use crate::HostError;
use vstd::prelude::*;

verus! {

/// What a host controller has to tell the stack.
#[derive(Debug, Clone, Copy, PartialEq, Eq, Structural)]
pub enum HostEvent {
    /// The bus was reset: every device is gone.
    Reset,
    /// A device is attached at the root and the bus has settled.
    Ready,
}

/// The length of an optional buffer: 0 where there is none.
pub open spec fn buffer_len(buf: Option<&mut [u8]>) -> nat {
    match buf {
        Some(b) => b@.len(),
        None => 0,
    }
}

/// The bytes of an optional buffer.
pub open spec fn buffer_bytes(buf: Option<&mut [u8]>) -> Option<Seq<u8>> {
    match buf {
        Some(b) => Some(b@),
        None => None,
    }
}

/// A control transfer as a host is asked for it: the endpoint, the request,
/// and the bytes of the buffer, if there is one.
pub struct ControlCall {
    pub ep: EpProps,
    pub max_packet_size: u16,
    pub toggle: bool,
    pub bm_request_type: RequestType,
    pub b_request: RequestCode,
    pub w_value: WValue,
    pub w_index: u16,
    pub data: Option<Seq<u8>>,
}

/// A transfer of data as a host is asked for it: the endpoint and the bytes
/// of the buffer.
pub struct DataCall {
    pub ep: EpProps,
    pub max_packet_size: u16,
    pub toggle: bool,
    pub data: Seq<u8>,
}

/// What a host can be asked.
pub enum HostCall {
    /// `update`
    Update,
    /// `max_host_packet_size`
    MaxHostPacketSize,
    /// `after_millis`, with the milliseconds
    AfterMillis(u64),
    /// `control_transfer`
    Control(ControlCall),
    /// `in_transfer`
    In(DataCall),
    /// `out_transfer`
    Out(DataCall),
}

/// What came of a transfer: the data toggle of the endpoint and the bytes of
/// the buffer afterwards, and the result.
pub struct Transferred {
    pub toggle: bool,
    pub data: Option<Seq<u8>>,
    pub result: Result<usize, HostError>,
}

/// What a host answers.
pub enum HostAnswer {
    /// to `update`
    Event(Option<HostEvent>),
    /// to `max_host_packet_size`
    PacketSize(u16),
    /// to `after_millis`
    Time(u64),
    /// to a transfer
    Transferred(Transferred),
}

/// A call of a host and what the host answered.
pub struct HostStep {
    pub call: HostCall,
    pub answer: HostAnswer,
}

/// The calls of a host and what it answered, in their order.
pub type HostLog = Seq<HostStep>;

/// Whether the host `h0` was asked what `log` holds, call by call, gave the
/// answers of `log`, and is `h1` thereafter.
pub open spec fn followed<H: UsbHost>(h0: H, h1: H, log: Seq<HostStep>) -> bool
    decreases log.len(),
{
    if log.len() == 0 {
        h1 == h0
    } else {
        exists|hm: H|
            followed(h0, hm, log.drop_last()) && #[trigger] hm.answers(
                log.last().call,
                h1,
                log.last().answer,
            )
    }
}

/// A host that followed `log` and then answers one call more has followed
/// `log` with that call behind it.
pub proof fn lemma_followed_push<H: UsbHost>(h0: H, h1: H, h2: H, log: Seq<HostStep>, step: HostStep)
    requires
        followed(h0, h1, log),
        h1.answers(step.call, h2, step.answer),
    ensures
        followed(h0, h2, log.push(step)),
{
    let longer = log.push(step);
    assert(longer.drop_last() =~= log);
    assert(longer.last() == step);
    assert(followed(h0, h1, longer.drop_last()) && h1.answers(
        longer.last().call,
        h2,
        longer.last().answer,
    ));
}

/// Trait for host controller interface.
///
/// A host may change nothing of an endpoint but its data toggle, and
/// transfers no more bytes than the buffer has. What a host answers is up
/// to the host and to the bus: `answers` says which answers to a call are
/// its own.
pub trait UsbHost: Sized {
    /// Whether the host, asked `call`, can give the answer `answer` and be
    /// `after` afterwards. Each method of a host answers for the call that
    /// it stands for; nothing else is known of this.
    spec fn answers(&self, call: HostCall, after: Self, answer: HostAnswer) -> bool;

    /// Perform endpoint upkeep, read / write operations
    fn update(&mut self) -> (event: Option<HostEvent>)
        ensures
            old(self).answers(HostCall::Update, *final(self), HostAnswer::Event(event)),
    ;

    /// Get the current connection max packet size
    /// This depends on negotiated USB link speed
    /// Endpoints may specify smaller packet sizes
    fn max_host_packet_size(&self) -> (size: u16)
        ensures
            self.answers(HostCall::MaxHostPacketSize, *self, HostAnswer::PacketSize(size)),
    ;

    /// The current time in milliseconds: the time 0 ms from now.
    fn now(&self) -> (t: u64)
        ensures
            self.answers(HostCall::AfterMillis(0), *self, HostAnswer::Time(t)),
    {
        self.after_millis(0)
    }

    /// The time `millis` milliseconds from now.
    /// The host holds the clock for all operations by drivers and the stack it belongs to
    fn after_millis(&self, millis: u64) -> (t: u64)
        ensures
            self.answers(HostCall::AfterMillis(millis), *self, HostAnswer::Time(t)),
    ;

    /// Whether the time `instant` has come: whether the time now is
    /// `instant` or later.
    fn delay_done(&self, instant: u64) -> (done: bool)
        ensures
            exists|t: u64| #[trigger]
                self.answers(HostCall::AfterMillis(0), *self, HostAnswer::Time(t)) && done == (t
                    >= instant),
    {
        self.now() >= instant
    }

    /// Issue a control transfer with an optional data stage to
    /// `ep`. The data stage direction is determined by the direction
    /// of `bm_request_type`.
    ///
    /// On success, the amount of data transferred into `buf` is returned.
    fn control_transfer<E: HostEndpoint>(
        &mut self,
        ep: &mut E,
        bm_request_type: RequestType,
        b_request: RequestCode,
        w_value: WValue,
        w_index: u16,
        buf: Option<&mut [u8]>,
    ) -> (r: Result<usize, HostError>)
        ensures
            *final(ep) == old(ep).spec_with_toggle(final(ep).spec_toggle()),
            buf matches Some(b) ==> final(b)@.len() == b@.len(),
            r matches Ok(n) ==> n <= buffer_len(buf),
            old(self).answers(
                HostCall::Control(
                    ControlCall {
                        ep: old(ep).spec_ep_props(),
                        max_packet_size: old(ep).spec_max_packet_size(),
                        toggle: old(ep).spec_toggle(),
                        bm_request_type,
                        b_request,
                        w_value,
                        w_index,
                        data: buffer_bytes(buf),
                    },
                ),
                *final(self),
                HostAnswer::Transferred(
                    Transferred {
                        toggle: final(ep).spec_toggle(),
                        data: match buf {
                            Some(b) => Some(final(b)@),
                            None => None,
                        },
                        result: r,
                    },
                ),
            ),
    ;

    /// Issue a transfer from `ep` to the host.
    /// On success, the amount of data transferred into `buf` is returned.
    fn in_transfer<E: HostEndpoint>(&mut self, ep: &mut E, buf: &mut [u8]) -> (r: Result<usize, HostError>)
        ensures
            *final(ep) == old(ep).spec_with_toggle(final(ep).spec_toggle()),
            final(buf)@.len() == old(buf)@.len(),
            r matches Ok(n) ==> n <= old(buf)@.len(),
            old(self).answers(
                HostCall::In(
                    DataCall {
                        ep: old(ep).spec_ep_props(),
                        max_packet_size: old(ep).spec_max_packet_size(),
                        toggle: old(ep).spec_toggle(),
                        data: old(buf)@,
                    },
                ),
                *final(self),
                HostAnswer::Transferred(
                    Transferred { toggle: final(ep).spec_toggle(), data: Some(final(buf)@), result: r },
                ),
            ),
    ;

    /// Issue a transfer from the host to `ep`.
    /// On success, the amount of data transferred from `buf` is returned.
    /// This should always be equal to `buf.len()`.
    fn out_transfer<E: HostEndpoint>(&mut self, ep: &mut E, buf: &[u8]) -> (r: Result<usize, HostError>)
        ensures
            *final(ep) == old(ep).spec_with_toggle(final(ep).spec_toggle()),
            old(self).answers(
                HostCall::Out(
                    DataCall {
                        ep: old(ep).spec_ep_props(),
                        max_packet_size: old(ep).spec_max_packet_size(),
                        toggle: old(ep).spec_toggle(),
                        data: buf@,
                    },
                ),
                *final(self),
                HostAnswer::Transferred(
                    Transferred { toggle: final(ep).spec_toggle(), data: None, result: r },
                ),
            ),
    ;
}

} // verus!
