use arp_resolver::addr::{Ipv4Address, MacAddress};
use arp_resolver::codec::{encode_arp_frame, ArpMessage, ArpOperation};
use arp_resolver::error::Error;
use arp_resolver::resolver::{
    extract_arp, is_answer, read_arp_packet, LinkEvent, ReadOutcome, Resolver, ResolverAction,
    ResolverState,
};

const HOST_MAC: MacAddress = MacAddress(0xaa, 0xaa, 0xaa, 0xaa, 0xaa, 0x01);
const HOST_IP: Ipv4Address = Ipv4Address(10, 0, 0, 5);
const GATEWAY_MAC: MacAddress = MacAddress(0xbb, 0xbb, 0xbb, 0xbb, 0xbb, 0x01);
const GATEWAY_IP: Ipv4Address = Ipv4Address(10, 0, 0, 1);
const OTHER_MAC: MacAddress = MacAddress(0xcc, 0xcc, 0xcc, 0xcc, 0xcc, 0x01);
const OTHER_IP: Ipv4Address = Ipv4Address(10, 0, 0, 77);

fn request_from_other() -> [u8; 42] {
    encode_arp_frame(ArpOperation::Request, GATEWAY_IP, OTHER_MAC, HOST_IP, MacAddress::broadcast())
}

fn reply_about_other() -> [u8; 42] {
    encode_arp_frame(ArpOperation::Reply, OTHER_IP, OTHER_MAC, HOST_IP, HOST_MAC)
}

fn ipv4_frame() -> Vec<u8> {
    let mut raw = vec![0xaa, 0xaa, 0xaa, 0xaa, 0xaa, 0x01, 0xbb, 0xbb, 0xbb, 0xbb, 0xbb, 0x01];
    raw.extend_from_slice(&[0x08, 0x00]);
    // An ARP reply from the gateway as payload, under the wrong ethertype.
    raw.extend_from_slice(&encode_arp_frame(ArpOperation::Reply, GATEWAY_IP, GATEWAY_MAC, HOST_IP, HOST_MAC)[14..]);
    raw
}

fn reply_from_gateway() -> [u8; 42] {
    encode_arp_frame(ArpOperation::Reply, GATEWAY_IP, GATEWAY_MAC, HOST_IP, HOST_MAC)
}

/// Drives a resolver over a recorded link: every transmitted frame is kept,
/// every read takes the next recorded outcome. Gives the final action, or
/// `Receive` where the record ran out while the resolver was still listening.
fn drive(
    resolver: &mut Resolver,
    send_ok: bool,
    reads: &[ReadOutcome<'_>],
    sent: &mut Vec<[u8; 42]>,
) -> ResolverAction {
    let mut next = 0;
    loop {
        match resolver.action() {
            ResolverAction::Transmit(frame) => {
                if send_ok {
                    sent.push(frame);
                    resolver.handle(LinkEvent::Sent);
                } else {
                    resolver.handle(LinkEvent::SendFailed);
                }
            }
            ResolverAction::Receive => {
                if next == reads.len() {
                    return ResolverAction::Receive;
                }
                resolver.handle(LinkEvent::Read(reads[next]));
                next += 1;
            }
            done => return done,
        }
    }
}

#[test]
fn new_resolver_is_idle_and_asks_to_transmit_the_request() {
    let resolver = Resolver::new(HOST_IP, HOST_MAC, GATEWAY_IP);
    assert_eq!(resolver.state, ResolverState::Idle);
    assert_eq!(resolver.host_ip, HOST_IP);
    assert_eq!(resolver.host_mac, HOST_MAC);
    assert_eq!(resolver.target_ip, GATEWAY_IP);
    let expected = encode_arp_frame(
        ArpOperation::Request,
        HOST_IP,
        HOST_MAC,
        GATEWAY_IP,
        MacAddress::broadcast(),
    );
    assert_eq!(resolver.action(), ResolverAction::Transmit(expected));
    assert_eq!(&expected[..6], &[0xff; 6]);
    assert_eq!(&expected[32..38], &[0xff; 6]);
    assert_eq!(&expected[38..42], &[10, 0, 0, 1]);
}

#[test]
fn resolver_takes_the_matching_reply_in_any_order() {
    let a = request_from_other();
    let b = reply_about_other();
    let c = ipv4_frame();
    let d = reply_from_gateway();
    let noise = [
        ReadOutcome::Frame(&a),
        ReadOutcome::Frame(&b),
        ReadOutcome::Frame(&c),
        ReadOutcome::TimedOut,
    ];
    // Every order of the four kinds of noise, with the matching reply behind
    // each possible number of them.
    let orders: [[usize; 4]; 6] =
        [[0, 1, 2, 3], [1, 0, 3, 2], [2, 3, 0, 1], [3, 2, 1, 0], [1, 2, 3, 0], [2, 0, 1, 3]];
    for order in orders {
        for before in 0..=4 {
            let mut reads: Vec<ReadOutcome<'_>> = Vec::new();
            for k in 0..before {
                reads.push(noise[order[k]]);
            }
            reads.push(ReadOutcome::Frame(&d));
            for k in before..4 {
                reads.push(noise[order[k]]);
            }
            let mut resolver = Resolver::new(HOST_IP, HOST_MAC, GATEWAY_IP);
            let mut sent = Vec::new();
            let end = drive(&mut resolver, true, &reads, &mut sent);
            assert_eq!(end, ResolverAction::Finish(GATEWAY_MAC));
            assert_eq!(resolver.state, ResolverState::Resolved(GATEWAY_MAC));
            assert_eq!(sent.len(), 1);
        }
    }
}

#[test]
fn resolver_passes_over_everything_but_the_matching_reply() {
    let a = request_from_other();
    let b = reply_about_other();
    let c = ipv4_frame();
    let short = [0u8; 13];
    let truncated = &reply_from_gateway()[..41];
    let request_from_gateway =
        encode_arp_frame(ArpOperation::Request, GATEWAY_IP, GATEWAY_MAC, HOST_IP, HOST_MAC);
    let reads = [
        ReadOutcome::Frame(&a),
        ReadOutcome::Frame(&b),
        ReadOutcome::Frame(&c),
        ReadOutcome::Frame(&short),
        ReadOutcome::Frame(truncated),
        ReadOutcome::Frame(&request_from_gateway),
        ReadOutcome::Frame(&[]),
        ReadOutcome::TimedOut,
    ];
    let mut resolver = Resolver::new(HOST_IP, HOST_MAC, GATEWAY_IP);
    let mut sent = Vec::new();
    let end = drive(&mut resolver, true, &reads, &mut sent);
    assert_eq!(end, ResolverAction::Receive);
    assert_eq!(resolver.state, ResolverState::Listening);
    assert_eq!(sent.len(), 1);
}

#[test]
fn resolver_keeps_listening_through_timeouts() {
    let mut resolver = Resolver::new(HOST_IP, HOST_MAC, GATEWAY_IP);
    resolver.handle(LinkEvent::Sent);
    for _ in 0..10_000 {
        assert_eq!(resolver.action(), ResolverAction::Receive);
        resolver.handle(LinkEvent::Read(ReadOutcome::TimedOut));
    }
    assert_eq!(resolver.state, ResolverState::Listening);
    assert_eq!(resolver.action(), ResolverAction::Receive);
}

#[test]
fn resolver_sends_one_request_only() {
    let d = reply_from_gateway();
    let reads = [ReadOutcome::TimedOut, ReadOutcome::TimedOut, ReadOutcome::Frame(&d)];
    let mut resolver = Resolver::new(HOST_IP, HOST_MAC, GATEWAY_IP);
    let mut sent = Vec::new();
    drive(&mut resolver, true, &reads, &mut sent);
    assert_eq!(
        sent,
        vec![encode_arp_frame(
            ArpOperation::Request,
            HOST_IP,
            HOST_MAC,
            GATEWAY_IP,
            MacAddress::broadcast()
        )]
    );
    // A second report that a frame was sent does not bring the request back.
    let mut listening = Resolver::new(HOST_IP, HOST_MAC, GATEWAY_IP);
    listening.handle(LinkEvent::Sent);
    listening.handle(LinkEvent::Sent);
    assert_eq!(listening.state, ResolverState::Listening);
    assert_eq!(listening.action(), ResolverAction::Receive);
}

#[test]
fn failed_transmit_ends_the_resolution() {
    let d = reply_from_gateway();
    let reads = [ReadOutcome::Frame(&d)];
    let mut resolver = Resolver::new(HOST_IP, HOST_MAC, GATEWAY_IP);
    let mut sent = Vec::new();
    let end = drive(&mut resolver, false, &reads, &mut sent);
    assert_eq!(end, ResolverAction::Abort(Error::Transport));
    assert_eq!(resolver.state, ResolverState::Failed(Error::Transport));
    assert!(sent.is_empty());
}

#[test]
fn failed_read_ends_the_resolution() {
    let a = request_from_other();
    let d = reply_from_gateway();
    let reads =
        [ReadOutcome::Frame(&a), ReadOutcome::TimedOut, ReadOutcome::Failed, ReadOutcome::Frame(&d)];
    let mut resolver = Resolver::new(HOST_IP, HOST_MAC, GATEWAY_IP);
    let mut sent = Vec::new();
    let end = drive(&mut resolver, true, &reads, &mut sent);
    assert_eq!(end, ResolverAction::Abort(Error::Transport));
    assert_eq!(sent.len(), 1);
    // The reply behind the failure changes nothing.
    resolver.handle(LinkEvent::Read(ReadOutcome::Frame(&d)));
    assert_eq!(resolver.state, ResolverState::Failed(Error::Transport));
}

#[test]
fn finished_resolution_is_not_moved() {
    let d = reply_from_gateway();
    let later = encode_arp_frame(ArpOperation::Reply, GATEWAY_IP, OTHER_MAC, HOST_IP, HOST_MAC);
    let mut resolver = Resolver::new(HOST_IP, HOST_MAC, GATEWAY_IP);
    resolver.handle(LinkEvent::Sent);
    resolver.handle(LinkEvent::Read(ReadOutcome::Frame(&d)));
    assert_eq!(resolver.state, ResolverState::Resolved(GATEWAY_MAC));
    for event in [
        LinkEvent::Read(ReadOutcome::Frame(&later)),
        LinkEvent::Read(ReadOutcome::Failed),
        LinkEvent::SendFailed,
        LinkEvent::Sent,
        LinkEvent::Read(ReadOutcome::TimedOut),
    ] {
        resolver.handle(event);
        assert_eq!(resolver.state, ResolverState::Resolved(GATEWAY_MAC));
        assert_eq!(resolver.action(), ResolverAction::Finish(GATEWAY_MAC));
    }
}

#[test]
fn idle_resolver_does_not_listen_yet() {
    let d = reply_from_gateway();
    let mut resolver = Resolver::new(HOST_IP, HOST_MAC, GATEWAY_IP);
    resolver.handle(LinkEvent::Read(ReadOutcome::Frame(&d)));
    assert_eq!(resolver.state, ResolverState::Idle);
    resolver.handle(LinkEvent::Read(ReadOutcome::TimedOut));
    assert_eq!(resolver.state, ResolverState::Idle);
    resolver.handle(LinkEvent::Read(ReadOutcome::Failed));
    assert_eq!(resolver.state, ResolverState::Failed(Error::Transport));
}

#[test]
fn first_matching_reply_wins() {
    let first = reply_from_gateway();
    let second = encode_arp_frame(ArpOperation::Reply, GATEWAY_IP, OTHER_MAC, HOST_IP, HOST_MAC);
    let reads = [ReadOutcome::Frame(&first), ReadOutcome::Frame(&second)];
    let mut resolver = Resolver::new(HOST_IP, HOST_MAC, GATEWAY_IP);
    let mut sent = Vec::new();
    assert_eq!(drive(&mut resolver, true, &reads, &mut sent), ResolverAction::Finish(GATEWAY_MAC));
}

#[test]
fn reply_need_not_be_addressed_to_the_host() {
    // An unsolicited reply to someone else still tells who owns the address.
    let gratuitous =
        encode_arp_frame(ArpOperation::Reply, GATEWAY_IP, GATEWAY_MAC, OTHER_IP, OTHER_MAC);
    let reads = [ReadOutcome::Frame(&gratuitous)];
    let mut resolver = Resolver::new(HOST_IP, HOST_MAC, GATEWAY_IP);
    let mut sent = Vec::new();
    assert_eq!(drive(&mut resolver, true, &reads, &mut sent), ResolverAction::Finish(GATEWAY_MAC));
}

#[test]
fn resolve_scenario_on_a_small_segment() {
    // Host 10.0.0.5 at aa:aa:aa:aa:aa:01 asks who has 10.0.0.1 and is told
    // bb:bb:bb:bb:bb:01.
    let reply = encode_arp_frame(
        ArpOperation::Reply,
        Ipv4Address(10, 0, 0, 1),
        MacAddress(0xbb, 0xbb, 0xbb, 0xbb, 0xbb, 0x01),
        Ipv4Address(10, 0, 0, 5),
        MacAddress(0xaa, 0xaa, 0xaa, 0xaa, 0xaa, 0x01),
    );
    let reads = [ReadOutcome::Frame(&reply)];
    let mut resolver = Resolver::new(
        Ipv4Address(10, 0, 0, 5),
        MacAddress(0xaa, 0xaa, 0xaa, 0xaa, 0xaa, 0x01),
        Ipv4Address(10, 0, 0, 1),
    );
    let mut sent = Vec::new();
    let end = drive(&mut resolver, true, &reads, &mut sent);
    assert_eq!(end, ResolverAction::Finish(MacAddress(0xbb, 0xbb, 0xbb, 0xbb, 0xbb, 0x01)));
    assert_eq!(sent.len(), 1);
    assert_eq!(sent[0].len(), 42);
}

#[test]
fn read_arp_packet_sorts_the_outcomes() {
    let d = reply_from_gateway();
    let c = ipv4_frame();
    assert_eq!(
        read_arp_packet(ReadOutcome::Frame(&d)),
        Ok(Some(ArpMessage::new(ArpOperation::Reply, GATEWAY_IP, GATEWAY_MAC, HOST_IP, HOST_MAC)))
    );
    assert_eq!(read_arp_packet(ReadOutcome::Frame(&c)), Ok(None));
    assert_eq!(read_arp_packet(ReadOutcome::Frame(&d[..41])), Ok(None));
    assert_eq!(read_arp_packet(ReadOutcome::Frame(&d[..10])), Ok(None));
    assert_eq!(read_arp_packet(ReadOutcome::TimedOut), Ok(None));
    assert_eq!(read_arp_packet(ReadOutcome::Failed), Err(Error::Transport));
}

#[test]
fn extract_arp_needs_the_arp_ethertype_and_a_whole_message() {
    let d = reply_from_gateway();
    assert!(extract_arp(&d).is_some());
    let mut other = d;
    other[13] = 0x07;
    assert_eq!(extract_arp(&other), None);
    assert_eq!(extract_arp(&d[..41]), None);
    assert_eq!(extract_arp(&d[..14]), None);
    assert_eq!(extract_arp(&[]), None);
    let mut padded = d.to_vec();
    padded.extend_from_slice(&[0u8; 18]);
    assert_eq!(extract_arp(&padded), extract_arp(&d));
}

#[test]
fn is_answer_wants_a_reply_from_the_target() {
    let reply = ArpMessage::new(ArpOperation::Reply, GATEWAY_IP, GATEWAY_MAC, HOST_IP, HOST_MAC);
    let request = ArpMessage::new(ArpOperation::Request, GATEWAY_IP, GATEWAY_MAC, HOST_IP, HOST_MAC);
    assert!(is_answer(reply, GATEWAY_IP));
    assert!(!is_answer(reply, OTHER_IP));
    assert!(!is_answer(reply, HOST_IP));
    assert!(!is_answer(request, GATEWAY_IP));
    let mut odd = reply;
    odd.operation = 3;
    assert!(!is_answer(odd, GATEWAY_IP));
    // The fixed fields are not held against a reply.
    let mut loose = reply;
    loose.hardware_type = 6;
    loose.protocol_addr_len = 16;
    assert!(is_answer(loose, GATEWAY_IP));
}

#[test]
fn only_failed_sends_and_failed_reads_are_failures() {
    let d = reply_from_gateway();
    assert_eq!(LinkEvent::SendFailed.failure(), Some(Error::Transport));
    assert_eq!(LinkEvent::Read(ReadOutcome::Failed).failure(), Some(Error::Transport));
    assert_eq!(LinkEvent::Sent.failure(), None);
    assert_eq!(LinkEvent::Read(ReadOutcome::TimedOut).failure(), None);
    assert_eq!(LinkEvent::Read(ReadOutcome::Frame(&d)).failure(), None);
    assert_eq!(LinkEvent::Read(ReadOutcome::Frame(&[])).failure(), None);
}

#[test]
fn resolved_address_is_the_sender_of_a_reply_that_was_read() {
    // Two neighbours answer for two addresses; each resolver takes the one
    // that answers for the address it asked about, and no other.
    let from_gateway = reply_from_gateway();
    let from_other = reply_about_other();
    let reads = [
        ReadOutcome::TimedOut,
        ReadOutcome::Frame(&from_other),
        ReadOutcome::Frame(&from_gateway),
    ];
    let mut sent = Vec::new();
    let mut about_gateway = Resolver::new(HOST_IP, HOST_MAC, GATEWAY_IP);
    assert_eq!(
        drive(&mut about_gateway, true, &reads, &mut sent),
        ResolverAction::Finish(GATEWAY_MAC)
    );
    let mut about_other = Resolver::new(HOST_IP, HOST_MAC, OTHER_IP);
    assert_eq!(
        drive(&mut about_other, true, &reads, &mut sent),
        ResolverAction::Finish(OTHER_MAC)
    );
    let mut about_nobody = Resolver::new(HOST_IP, HOST_MAC, Ipv4Address(10, 0, 0, 200));
    assert_eq!(drive(&mut about_nobody, true, &reads, &mut sent), ResolverAction::Receive);
    assert_eq!(about_nobody.state, ResolverState::Listening);
}
