//! Resolution of one IPv4 address to the hardware address that owns it.
//!
//! One request is broadcast; then frames are read until one of them is a
//! reply from the address that was asked about. The resolver itself touches
//! no link: it names the next thing to do on the link and is told what came
//! of it. There is no deadline and no second request. While nothing but
//! silence and unrelated traffic comes in, it keeps asking for the next frame.

use crate::addr::{Ipv4Address, MacAddress};
use crate::codec::{
    arp_frame_wire, decode_arp_message, decode_ethernet_frame, encode_arp_frame,
    lemma_arp_frame_round_trip, parse_ethernet, ArpMessage, ArpOperation, ETHERTYPE_ARP,
};
use crate::error::Error;
use vstd::prelude::*;

verus! {

/// What one read from the link gave.
#[derive(Clone, Copy, Debug, PartialEq, Eq)]
pub enum ReadOutcome<'a> {
    /// A frame, as raw octets from the first octet of the Ethernet header.
    Frame(&'a [u8]),
    /// No frame within the link's read timeout. This is not a failure.
    TimedOut,
    /// The read failed for any other reason.
    Failed,
}

/// What the link reported for the action it was asked to do.
#[derive(Clone, Copy, Debug, PartialEq, Eq)]
pub enum LinkEvent<'a> {
    /// The frame was handed to the link whole.
    Sent,
    /// The link refused the frame.
    SendFailed,
    /// A read ended, in one of its three ways.
    Read(ReadOutcome<'a>),
}

/// Where a resolution stands.
#[derive(Clone, Copy, Debug, PartialEq, Eq, Structural)]
pub enum ResolverState {
    /// The request has not been sent yet.
    Idle,
    /// The request is out; a reply is awaited.
    Listening,
    /// The address is owned by this hardware address.
    Resolved(MacAddress),
    /// The link failed; the resolution is over.
    Failed(Error),
}

/// What the caller is to do next on the resolver's behalf.
#[derive(Clone, Copy, Debug, PartialEq, Eq)]
pub enum ResolverAction {
    /// Transmit these octets as one frame, then report `Sent` or `SendFailed`.
    Transmit([u8; 42]),
    /// Read the next frame, then report how the read ended.
    Receive,
    /// Stop: this is the hardware address that was asked for.
    Finish(MacAddress),
    /// Stop: the resolution failed with this error.
    Abort(Error),
}

/// The ARP message that a raw frame carries: the payload of an Ethernet frame
/// with the ARP ethertype, where that payload is long enough to hold one.
pub open spec fn arp_in_frame(raw: Seq<u8>) -> Option<ArpMessage> {
    match parse_ethernet(raw) {
        Some(frame) => if frame.ethertype == ETHERTYPE_ARP {
            ArpMessage::parse(frame.payload)
        } else {
            None
        },
        None => None,
    }
}

/// What a read contributes: the ARP message it brought, nothing where it
/// brought none (silence, a frame too short or of another protocol), or the
/// transport error where the read failed.
pub open spec fn arp_read(outcome: ReadOutcome<'_>) -> Result<Option<ArpMessage>, Error> {
    match outcome {
        ReadOutcome::Frame(raw) => Ok(arp_in_frame(raw@)),
        ReadOutcome::TimedOut => Ok(None),
        ReadOutcome::Failed => Err(Error::Transport),
    }
}

/// Whether `msg` settles the question "who has `target_ip`": it is a reply
/// and its sender is that address. Nothing else about it is looked at.
pub open spec fn spec_is_answer(msg: ArpMessage, target_ip: Ipv4Address) -> bool {
    msg.spec_is_reply() && msg.sender_ip == target_ip
}

/// The hardware address that a read settles the question with, if it does.
pub open spec fn answer_in(outcome: ReadOutcome<'_>, target_ip: Ipv4Address) -> Option<
    MacAddress,
> {
    match arp_read(outcome) {
        Ok(Some(msg)) => if spec_is_answer(msg, target_ip) {
            Some(msg.sender_mac)
        } else {
            None
        },
        _ => None,
    }
}

/// Whether the event reports that the link failed.
pub open spec fn is_failure(event: LinkEvent<'_>) -> bool {
    event is SendFailed || event == LinkEvent::Read(ReadOutcome::Failed)
}

/// The error that an event stands for: `Error::Transport` for a send that was
/// refused and for a read that failed, whatever frame was being sent and
/// whatever was read before; none for every other event. Silence is none.
pub open spec fn failure_of(event: LinkEvent<'_>) -> Option<Error> {
    if is_failure(event) {
        Some(Error::Transport)
    } else {
        None
    }
}

impl<'a> LinkEvent<'a> {
    /// The error that this event stands for, if it reports a failure.
    pub fn failure(&self) -> (error: Option<Error>)
        ensures
            error == failure_of(*self),
            error is Some <==> is_failure(*self),
    {
        match self {
            LinkEvent::SendFailed => Some(Error::Transport),
            LinkEvent::Read(ReadOutcome::Failed) => Some(Error::Transport),
            LinkEvent::Sent => None,
            LinkEvent::Read(_) => None,
        }
    }
}

/// The state after `event` was reported in `state`, when asking about
/// `target_ip`.
///
/// A finished resolution stays as it is. A failure of the link ends a running
/// one. `Sent` turns `Idle` into `Listening`. While listening, a read that
/// settles the question resolves it. Every other event changes nothing.
pub open spec fn next_state(
    state: ResolverState,
    target_ip: Ipv4Address,
    event: LinkEvent<'_>,
) -> ResolverState {
    match state {
        ResolverState::Resolved(_) | ResolverState::Failed(_) => state,
        ResolverState::Idle => if is_failure(event) {
            ResolverState::Failed(Error::Transport)
        } else if event is Sent {
            ResolverState::Listening
        } else {
            ResolverState::Idle
        },
        ResolverState::Listening => if is_failure(event) {
            ResolverState::Failed(Error::Transport)
        } else {
            match event {
                LinkEvent::Read(outcome) => match answer_in(outcome, target_ip) {
                    Some(mac) => ResolverState::Resolved(mac),
                    None => ResolverState::Listening,
                },
                _ => ResolverState::Listening,
            }
        },
    }
}

/// Picks the ARP message out of a raw frame, if it carries one.
pub fn extract_arp(raw: &[u8]) -> (msg: Option<ArpMessage>)
    ensures
        msg == arp_in_frame(raw@),
{
    match decode_ethernet_frame(raw) {
        Some(frame) => {
            if frame.carries_arp() {
                decode_arp_message(frame.payload)
            } else {
                None
            }
        },
        None => None,
    }
}

/// Turns the outcome of one read into the ARP message it brought.
///
/// Silence, and a frame that is too short, of another protocol or with a
/// payload too short for an ARP message, give `Ok(None)`: they are passed
/// over. Only a failed read is an error, and it is always `Error::Transport`.
pub fn read_arp_packet(outcome: ReadOutcome<'_>) -> (r: Result<Option<ArpMessage>, Error>)
    ensures
        r == arp_read(outcome),
{
    match outcome {
        ReadOutcome::Frame(raw) => Ok(extract_arp(raw)),
        ReadOutcome::TimedOut => Ok(None),
        ReadOutcome::Failed => Err(Error::Transport),
    }
}

/// Whether `msg` settles the question "who has `target_ip`".
#[verifier::when_used_as_spec(spec_is_answer)]
pub fn is_answer(msg: ArpMessage, target_ip: Ipv4Address) -> (b: bool)
    ensures
        b == spec_is_answer(msg, target_ip),
{
    msg.is_reply() && msg.sender_ip == target_ip
}

/// One resolution: who asks, about which address, and how far it has come.
#[derive(Clone, Copy, Debug, PartialEq, Eq)]
pub struct Resolver {
    pub host_ip: Ipv4Address,
    pub host_mac: MacAddress,
    pub target_ip: Ipv4Address,
    pub state: ResolverState,
}

impl Resolver {
    /// The octets of the one request this resolution sends: an ARP request
    /// from the host about `target_ip`, addressed to everyone.
    pub open spec fn request_wire(&self) -> Seq<u8> {
        arp_frame_wire(
            ArpOperation::Request,
            self.host_ip,
            self.host_mac,
            self.target_ip,
            MacAddress::spec_broadcast(),
        )
    }

    /// A resolution that has not sent its request yet.
    pub fn new(host_ip: Ipv4Address, host_mac: MacAddress, target_ip: Ipv4Address) -> (r: Resolver)
        ensures
            r.host_ip == host_ip,
            r.host_mac == host_mac,
            r.target_ip == target_ip,
            r.state == ResolverState::Idle,
    {
        Resolver { host_ip, host_mac, target_ip, state: ResolverState::Idle }
    }

    /// What is to be done next.
    ///
    /// Before the request is out: transmit it, and the octets are exactly
    /// those of the request. While listening: read. Once the resolution is
    /// over: stop, with the address or with the error.
    pub fn action(&self) -> (a: ResolverAction)
        ensures
            match self.state {
                ResolverState::Idle => a matches ResolverAction::Transmit(frame) && frame@
                    == self.request_wire(),
                ResolverState::Listening => a matches ResolverAction::Receive,
                ResolverState::Resolved(mac) => a matches ResolverAction::Finish(m) && m == mac,
                ResolverState::Failed(error) => a matches ResolverAction::Abort(e) && e == error,
            },
    {
        match self.state {
            ResolverState::Idle => ResolverAction::Transmit(
                encode_arp_frame(
                    ArpOperation::Request,
                    self.host_ip,
                    self.host_mac,
                    self.target_ip,
                    MacAddress::broadcast(),
                ),
            ),
            ResolverState::Listening => ResolverAction::Receive,
            ResolverState::Resolved(mac) => ResolverAction::Finish(mac),
            ResolverState::Failed(error) => ResolverAction::Abort(error),
        }
    }

    /// Takes in what the link reported and moves to the next state.
    pub fn handle(&mut self, event: LinkEvent<'_>)
        ensures
            final(self).state == next_state(old(self).state, old(self).target_ip, event),
            final(self).host_ip == old(self).host_ip,
            final(self).host_mac == old(self).host_mac,
            final(self).target_ip == old(self).target_ip,
    {
        match self.state {
            ResolverState::Resolved(_) | ResolverState::Failed(_) => {},
            ResolverState::Idle => {
                match event.failure() {
                    Some(error) => {
                        self.state = ResolverState::Failed(error);
                    },
                    None => {
                        match event {
                            LinkEvent::Sent => {
                                self.state = ResolverState::Listening;
                            },
                            _ => {},
                        }
                    },
                }
            },
            ResolverState::Listening => {
                match event.failure() {
                    Some(error) => {
                        self.state = ResolverState::Failed(error);
                    },
                    None => {
                        match event {
                            LinkEvent::Read(outcome) => {
                                match read_arp_packet(outcome) {
                                    Ok(Some(msg)) => {
                                        if is_answer(msg, self.target_ip) {
                                            self.state = ResolverState::Resolved(msg.sender_mac);
                                        }
                                    },
                                    _ => {},
                                }
                            },
                            _ => {},
                        }
                    },
                }
            },
        }
    }
}

/// Whether a listening resolver passes over `event`: the link did not fail,
/// and if a read ended, it did not settle the question.
pub open spec fn passed_over(event: LinkEvent<'_>, target_ip: Ipv4Address) -> bool {
    &&& !is_failure(event)
    &&& event matches LinkEvent::Read(outcome) ==> answer_in(outcome, target_ip) is None
}

/// The state after the events were reported one after the other, from `state`.
pub open spec fn run<'a>(
    state: ResolverState,
    target_ip: Ipv4Address,
    events: Seq<LinkEvent<'a>>,
) -> ResolverState
    decreases events.len(),
{
    if events.len() == 0 {
        state
    } else {
        run(next_state(state, target_ip, events[0]), target_ip, events.drop_first())
    }
}

/// Reporting one more event behind a sequence moves the state by one step.
/// A caller that reports events one at a time, as they happen, ends in the
/// state that `run` gives for all of them.
pub proof fn lemma_run_push<'a>(
    state: ResolverState,
    target_ip: Ipv4Address,
    events: Seq<LinkEvent<'a>>,
    event: LinkEvent<'a>,
)
    ensures
        run(state, target_ip, events.push(event)) == next_state(
            run(state, target_ip, events),
            target_ip,
            event,
        ),
    decreases events.len(),
{
    let all = events.push(event);
    let second = next_state(state, target_ip, all[0]);
    assert(run(state, target_ip, all) == run(second, target_ip, all.drop_first()));
    if events.len() == 0 {
        assert(all.drop_first() =~= events);
        assert(run(second, target_ip, events) == second);
    } else {
        assert(all.drop_first() =~= events.drop_first().push(event));
        lemma_run_push(
            next_state(state, target_ip, events[0]),
            target_ip,
            events.drop_first(),
            event,
        );
    }
}

/// A resolution that is over is not moved by anything that is reported later.
pub proof fn lemma_finished_stays<'a>(
    state: ResolverState,
    target_ip: Ipv4Address,
    events: Seq<LinkEvent<'a>>,
)
    requires
        state is Resolved || state is Failed,
    ensures
        run(state, target_ip, events) == state,
    decreases events.len(),
{
    if events.len() > 0 {
        lemma_finished_stays(state, target_ip, events.drop_first());
    }
}

/// Once the request is out it is never due again: no sequence of events
/// brings a resolver back to `Idle`, the only state in which it asks for a
/// transmission. From `Idle`, the report of the transmission, whichever way
/// it went, leaves `Idle`. So each resolution transmits one frame.
pub proof fn lemma_one_request<'a>(
    state: ResolverState,
    target_ip: Ipv4Address,
    events: Seq<LinkEvent<'a>>,
)
    requires
        !(state is Idle),
    ensures
        !(run(state, target_ip, events) is Idle),
        next_state(ResolverState::Idle, target_ip, LinkEvent::Sent) == ResolverState::Listening,
        next_state(ResolverState::Idle, target_ip, LinkEvent::SendFailed) == ResolverState::Failed(
            Error::Transport,
        ),
    decreases events.len(),
{
    if events.len() > 0 {
        lemma_one_request(next_state(state, target_ip, events[0]), target_ip, events.drop_first());
    }
}

/// A listening resolver stays listening for as long as every event is one
/// that it passes over: silence, and frames that are not a reply from the
/// address asked about, however many and in whatever order.
pub proof fn lemma_keeps_listening<'a>(target_ip: Ipv4Address, events: Seq<LinkEvent<'a>>)
    requires
        forall|i: int| 0 <= i < events.len() ==> passed_over(#[trigger] events[i], target_ip),
    ensures
        run(ResolverState::Listening, target_ip, events) == ResolverState::Listening,
    decreases events.len(),
{
    if events.len() > 0 {
        let rest = events.drop_first();
        assert(passed_over(events[0], target_ip));
        assert forall|i: int| 0 <= i < rest.len() implies passed_over(
            #[trigger] rest[i],
            target_ip,
        ) by {
            assert(rest[i] == events[i + 1]);
        }
        lemma_keeps_listening(target_ip, rest);
    }
}

/// Where every read times out, the resolver never comes to an end: after any
/// number of such reads it is still listening.
pub proof fn lemma_silence_never_resolves<'a>(target_ip: Ipv4Address, events: Seq<LinkEvent<'a>>)
    requires
        forall|i: int|
            0 <= i < events.len() ==> #[trigger] events[i] == LinkEvent::Read(
                ReadOutcome::TimedOut,
            ),
    ensures
        run(ResolverState::Listening, target_ip, events) == ResolverState::Listening,
{
    assert forall|i: int| 0 <= i < events.len() implies passed_over(
        #[trigger] events[i],
        target_ip,
    ) by {
        assert(events[i] == LinkEvent::Read(ReadOutcome::TimedOut));
    }
    lemma_keeps_listening(target_ip, events);
}

/// The resolver gives the sender's hardware address of the first read that
/// settles the question, whatever it passed over before and whatever is
/// reported after.
pub proof fn lemma_resolves_at_first_answer<'a>(
    target_ip: Ipv4Address,
    events: Seq<LinkEvent<'a>>,
    at: int,
    mac: MacAddress,
)
    requires
        0 <= at < events.len(),
        forall|i: int| 0 <= i < at ==> passed_over(#[trigger] events[i], target_ip),
        events[at] matches LinkEvent::Read(outcome) && answer_in(outcome, target_ip) == Some(mac),
    ensures
        run(ResolverState::Listening, target_ip, events) == ResolverState::Resolved(mac),
    decreases at,
{
    let rest = events.drop_first();
    if at == 0 {
        lemma_finished_stays(ResolverState::Resolved(mac), target_ip, rest);
    } else {
        assert(passed_over(events[0], target_ip));
        assert forall|i: int| 0 <= i < at - 1 implies passed_over(
            #[trigger] rest[i],
            target_ip,
        ) by {
            assert(rest[i] == events[i + 1]);
        }
        assert(rest[at - 1] == events[at]);
        lemma_resolves_at_first_answer(target_ip, rest, at - 1, mac);
    }
}

/// The first failure of the link ends a running resolution with
/// `Error::Transport`, whatever was passed over before and whatever is
/// reported after. Before the request is out this holds as well.
pub proof fn lemma_fails_at_first_failure<'a>(
    target_ip: Ipv4Address,
    events: Seq<LinkEvent<'a>>,
    at: int,
)
    requires
        0 <= at < events.len(),
        forall|i: int| 0 <= i < at ==> passed_over(#[trigger] events[i], target_ip),
        is_failure(events[at]),
    ensures
        run(ResolverState::Listening, target_ip, events) == ResolverState::Failed(Error::Transport),
        at == 0 ==> run(ResolverState::Idle, target_ip, events) == ResolverState::Failed(
            Error::Transport,
        ),
    decreases at,
{
    let rest = events.drop_first();
    if at == 0 {
        lemma_finished_stays(ResolverState::Failed(Error::Transport), target_ip, rest);
    } else {
        assert(passed_over(events[0], target_ip));
        assert forall|i: int| 0 <= i < at - 1 implies passed_over(
            #[trigger] rest[i],
            target_ip,
        ) by {
            assert(rest[i] == events[i + 1]);
        }
        assert(rest[at - 1] == events[at]);
        lemma_fails_at_first_failure(target_ip, rest, at - 1);
    }
}

/// Whether `event` is a read that settles the question about `target_ip`
/// with the hardware address `mac`.
pub open spec fn answers_with(event: LinkEvent<'_>, target_ip: Ipv4Address, mac: MacAddress) -> bool {
    event matches LinkEvent::Read(outcome) && answer_in(outcome, target_ip) == Some(mac)
}

/// A resolved address is never made up: where a running resolution ends as
/// `Resolved(mac)`, one of the events was a read that brought a reply from
/// the address asked about, with `mac` as its sender, and the link had not
/// failed before it.
pub proof fn lemma_resolved_only_by_answer<'a>(
    state: ResolverState,
    target_ip: Ipv4Address,
    events: Seq<LinkEvent<'a>>,
    mac: MacAddress,
)
    requires
        state is Idle || state is Listening,
        run(state, target_ip, events) == ResolverState::Resolved(mac),
    ensures
        exists|at: int|
            0 <= at < events.len() && answers_with(#[trigger] events[at], target_ip, mac)
                && forall|j: int| 0 <= j < at ==> !is_failure(#[trigger] events[j]),
    decreases events.len(),
{
    if events.len() > 0 {
        let rest = events.drop_first();
        let second = next_state(state, target_ip, events[0]);
        if second is Resolved || second is Failed {
            lemma_finished_stays(second, target_ip, rest);
            assert(answers_with(events[0], target_ip, mac));
        } else {
            lemma_resolved_only_by_answer(second, target_ip, rest, mac);
            let at = choose|at: int|
                0 <= at < rest.len() && answers_with(#[trigger] rest[at], target_ip, mac)
                    && forall|j: int| 0 <= j < at ==> !is_failure(#[trigger] rest[j]);
            assert(events[at + 1] == rest[at]);
            assert forall|j: int| 0 <= j < at + 1 implies !is_failure(#[trigger] events[j]) by {
                if j > 0 {
                    assert(events[j] == rest[j - 1]);
                }
            }
        }
    }
}

/// A resolution fails only when the link does, and only with
/// `Error::Transport`: where a running resolution ends as `Failed(error)`,
/// one of the events reported a failed send or a failed read.
pub proof fn lemma_failed_only_by_failure<'a>(
    state: ResolverState,
    target_ip: Ipv4Address,
    events: Seq<LinkEvent<'a>>,
    error: Error,
)
    requires
        state is Idle || state is Listening,
        run(state, target_ip, events) == ResolverState::Failed(error),
    ensures
        error == Error::Transport,
        exists|at: int| 0 <= at < events.len() && is_failure(#[trigger] events[at]),
    decreases events.len(),
{
    if events.len() > 0 {
        let rest = events.drop_first();
        let second = next_state(state, target_ip, events[0]);
        if second is Resolved || second is Failed {
            lemma_finished_stays(second, target_ip, rest);
            assert(is_failure(events[0]));
        } else {
            lemma_failed_only_by_failure(second, target_ip, rest, error);
            let at = choose|at: int| 0 <= at < rest.len() && is_failure(#[trigger] rest[at]);
            assert(events[at + 1] == rest[at]);
        }
    }
}

/// What a well-formed frame from a neighbour means to a resolver that asks
/// about `target_ip`: it carries the message it was built from; a request
/// never settles the question; a reply settles it exactly when its sender is
/// the address asked about, and then with the sender's hardware address.
pub proof fn lemma_encoded_frame_answer(
    outcome: ReadOutcome<'_>,
    operation: ArpOperation,
    sender_ip: Ipv4Address,
    sender_mac: MacAddress,
    receiver_ip: Ipv4Address,
    receiver_mac: MacAddress,
    target_ip: Ipv4Address,
)
    requires
        outcome matches ReadOutcome::Frame(raw) && raw@ == arp_frame_wire(
            operation,
            sender_ip,
            sender_mac,
            receiver_ip,
            receiver_mac,
        ),
    ensures
        arp_read(outcome) == Ok::<Option<ArpMessage>, Error>(
            Some(ArpMessage::standard(operation, sender_ip, sender_mac, receiver_ip, receiver_mac)),
        ),
        answer_in(outcome, target_ip) == if operation == ArpOperation::Reply
            && sender_ip == target_ip {
            Some(sender_mac)
        } else {
            None
        },
{
    lemma_arp_frame_round_trip(operation, sender_ip, sender_mac, receiver_ip, receiver_mac);
}

} // verus!
