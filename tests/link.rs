use camstream::link::{
    LinkAction, LinkEvent, LinkPhase, WifiLink, ADDRESS_TIMEOUT_MS, CONNECT_RETRY_MS,
    START_RETRY_MS,
};

#[test]
fn link_comes_up() {
    let (mut link, first) = WifiLink::new();
    assert_eq!(first, LinkAction::StartDriver { after_ms: 1000 });
    assert_eq!(link.on_event(LinkEvent::Started), LinkAction::Connect { after_ms: 0 });
    assert_eq!(
        link.on_event(LinkEvent::Connected),
        LinkAction::AwaitAddress { timeout_ms: 30000 }
    );
    assert_eq!(link.on_event(LinkEvent::AddressUp), LinkAction::AwaitDisconnect);
    assert_eq!(link.phase, LinkPhase::Online);
}

#[test]
fn link_retries_at_constant_intervals() {
    let (mut link, _) = WifiLink::new();
    for _ in 0..3 {
        assert_eq!(
            link.on_event(LinkEvent::StartFailed),
            LinkAction::StartDriver { after_ms: START_RETRY_MS }
        );
    }
    link.on_event(LinkEvent::Started);
    for _ in 0..3 {
        assert_eq!(
            link.on_event(LinkEvent::ConnectFailed),
            LinkAction::Connect { after_ms: CONNECT_RETRY_MS }
        );
    }
    assert_eq!(CONNECT_RETRY_MS, 2000);
}

#[test]
fn link_rejoins_after_disconnection() {
    let mut link = WifiLink { phase: LinkPhase::AwaitingAddress };
    assert_eq!(link.on_event(LinkEvent::AddressTimedOut), LinkAction::AwaitDisconnect);
    assert_eq!(
        link.on_event(LinkEvent::Disconnected),
        LinkAction::AwaitRelease { timeout_ms: ADDRESS_TIMEOUT_MS }
    );
    assert_eq!(link.on_event(LinkEvent::Released), LinkAction::Connect { after_ms: 2000 });
    assert_eq!(link.phase, LinkPhase::Connecting);
}

#[test]
fn link_ignores_unexpected_events() {
    let mut link = WifiLink { phase: LinkPhase::Online };
    assert_eq!(link.on_event(LinkEvent::Connected), LinkAction::AwaitDisconnect);
    assert_eq!(link.phase, LinkPhase::Online);
}
