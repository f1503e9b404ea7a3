use arp_resolver::error::Error;

#[test]
fn every_error_has_its_sentence() {
    assert_eq!(Error::InvalidInterface.message(), "The specified interface does not exist");
    assert_eq!(Error::NoIpv4.message(), "Failed to find host IPv4 address");
    assert_eq!(Error::MissingMacAddress.message(), "The interface has no hardware address");
    assert_eq!(Error::OpenChannel.message(), "Failed to open datalink channel. Are you root?");
    assert_eq!(Error::Transport.message(), "The datalink channel failed");
}

#[test]
fn errors_are_told_apart() {
    let all = [
        Error::InvalidInterface,
        Error::NoIpv4,
        Error::MissingMacAddress,
        Error::OpenChannel,
        Error::Transport,
    ];
    for (i, a) in all.iter().enumerate() {
        for (j, b) in all.iter().enumerate() {
            assert_eq!(a == b, i == j);
        }
    }
}
