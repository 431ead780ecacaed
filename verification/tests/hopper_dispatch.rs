use hopper_lib::cryptde::{CryptDE, CryptDENull, Key, PlainData};
use hopper_lib::dispatcher::Component;
use hopper_lib::errors::HopperError;
use hopper_lib::hop::Hop;
use hopper_lib::hopper::{
    Dispatch, ExpiredCoresPackage, Hopper, IncipientCoresPackage, LiveCoresPackage,
};
use hopper_lib::route::{Route, RouteSegment};

fn payload_mock() -> PlainData {
    PlainData::new(&[8, 16, 24, 32])
}

// The route an originating proxy server authors when this node is the only
// hop: deliver to the local proxy client.
fn route_from_proxy_server(key: &Key, cryptde: &CryptDENull) -> Route {
    Route::new(
        vec![RouteSegment::new(vec![key.clone()], Component::ProxyClient)],
        cryptde,
    )
    .unwrap()
}

// The return-direction counterpart: deliver to the local proxy server.
fn route_from_proxy_client(key: &Key, cryptde: &CryptDENull) -> Route {
    Route::new(
        vec![RouteSegment::new(vec![key.clone()], Component::ProxyServer)],
        cryptde,
    )
    .unwrap()
}

// What remains of such a route once it reaches the delivering node.
fn route_to_proxy_client(cryptde: &CryptDENull) -> Route {
    Route::construct(Hop::with_component(Component::ProxyClient), vec![], cryptde).unwrap()
}

fn route_to_proxy_server(cryptde: &CryptDENull) -> Route {
    Route::construct(Hop::with_component(Component::ProxyServer), vec![], cryptde).unwrap()
}

#[test]
fn release_2_transmit_cores_package_from_proxy_server_calls_proxy_client_directly() {
    let cryptde = CryptDENull::new();
    let incipient_package = IncipientCoresPackage::new(
        route_from_proxy_server(&cryptde.public_key(), &cryptde),
        payload_mock(),
        &cryptde.public_key(),
    );
    let mut subject = Hopper::new(cryptde.clone());
    subject.bind();

    let dispatch = subject.handle_incipient_cores_package(incipient_package).unwrap();

    let expected_expired_package =
        ExpiredCoresPackage::new(route_to_proxy_client(&cryptde), payload_mock());
    assert_eq!(dispatch, Dispatch::ToProxyClient(expected_expired_package));
}

#[test]
fn release_2_transmit_cores_package_from_proxy_client_calls_proxy_server_via_subscriber() {
    let cryptde = CryptDENull::new();
    let incipient_package = IncipientCoresPackage::new(
        route_from_proxy_client(&cryptde.public_key(), &cryptde),
        payload_mock(),
        &cryptde.public_key(),
    );
    let mut subject = Hopper::new(cryptde.clone());
    subject.bind();

    let dispatch = subject.handle_incipient_cores_package(incipient_package).unwrap();

    let expected_package =
        ExpiredCoresPackage::new(route_to_proxy_server(&cryptde), payload_mock());
    assert_eq!(dispatch, Dispatch::ToProxyServer(expected_package));
}

#[test]
#[should_panic(expected = "ProxyServer unbound in Hopper")]
fn panics_if_proxy_server_is_unbound() {
    let cryptde = CryptDENull::new();
    let incipient_package = IncipientCoresPackage::new(
        route_from_proxy_client(&cryptde.public_key(), &cryptde),
        payload_mock(),
        &cryptde.public_key(),
    );
    let mut subject = Hopper::new(cryptde);

    let result = subject.handle_incipient_cores_package(incipient_package);

    let err = result.unwrap_err();
    panic!("{}", err.diagnostic());
}

#[test]
#[should_panic(expected = "ProxyClient unbound in Hopper")]
fn panics_if_proxy_client_is_unbound() {
    let cryptde = CryptDENull::new();
    let incipient_package = IncipientCoresPackage::new(
        route_from_proxy_server(&cryptde.public_key(), &cryptde),
        payload_mock(),
        &cryptde.public_key(),
    );
    let mut subject = Hopper::new(cryptde);

    let result = subject.handle_incipient_cores_package(incipient_package);

    let err = result.unwrap_err();
    panic!("{}", err.diagnostic());
}

#[test]
fn unbound_sinks_report_their_exact_diagnostics() {
    let cryptde = CryptDENull::new();
    let to_server = IncipientCoresPackage::new(
        route_from_proxy_client(&cryptde.public_key(), &cryptde),
        payload_mock(),
        &cryptde.public_key(),
    );
    let to_client = IncipientCoresPackage::new(
        route_from_proxy_server(&cryptde.public_key(), &cryptde),
        payload_mock(),
        &cryptde.public_key(),
    );
    let mut subject = Hopper::new(cryptde);

    assert_eq!(
        subject.handle_incipient_cores_package(to_server),
        Err(HopperError::ProxyServerUnbound)
    );
    assert_eq!(
        subject.handle_incipient_cores_package(to_client),
        Err(HopperError::ProxyClientUnbound)
    );
    assert_eq!(
        HopperError::ProxyServerUnbound.diagnostic(),
        "ProxyServer unbound in Hopper"
    );
    assert_eq!(
        HopperError::ProxyClientUnbound.diagnostic(),
        "ProxyClient unbound in Hopper"
    );
}

#[test]
fn a_hop_naming_neighborhood_as_terminal_component_is_fatal() {
    let cryptde = CryptDENull::new();
    let route = Route::new(
        vec![RouteSegment::new(
            vec![cryptde.public_key()],
            Component::Neighborhood,
        )],
        &cryptde,
    )
    .unwrap();
    let incipient = IncipientCoresPackage::new(route, payload_mock(), &cryptde.public_key());
    let mut subject = Hopper::new(cryptde);
    subject.bind();

    assert_eq!(
        subject.handle_incipient_cores_package(incipient),
        Err(HopperError::UnsupportedComponent(Component::Neighborhood))
    );
}

#[test]
fn a_first_hop_without_a_component_is_fatal_at_this_node() {
    let cryptde = CryptDENull::new();
    let key = cryptde.public_key();
    let route = Route::new(
        vec![RouteSegment::new(
            vec![key.clone(), key.clone()],
            Component::ProxyClient,
        )],
        &cryptde,
    )
    .unwrap();
    let incipient = IncipientCoresPackage::new(route, payload_mock(), &key);
    let mut subject = Hopper::new(cryptde);
    subject.bind();

    assert_eq!(
        subject.handle_incipient_cores_package(incipient),
        Err(HopperError::NoTerminalComponent)
    );
}

#[test]
fn the_relay_path_dispatches_a_received_live_package() {
    let cryptde = CryptDENull::new();
    let own_key = cryptde.public_key();
    let live = LiveCoresPackage::new(
        vec![Hop::with_component(Component::ProxyServer).encode(&own_key, &cryptde).unwrap()],
        cryptde.encode(&own_key, &payload_mock()).unwrap(),
    );
    let mut subject = Hopper::new(cryptde.clone());
    subject.bind();

    let dispatch = subject.handle_live_cores_package(live).unwrap();

    let expected = ExpiredCoresPackage::new(route_to_proxy_server(&cryptde), payload_mock());
    assert_eq!(dispatch, Dispatch::ToProxyServer(expected));
}

#[test]
fn packages_are_dispatched_in_the_order_they_arrive() {
    let cryptde = CryptDENull::new();
    let mut subject = Hopper::new(cryptde.clone());
    subject.bind();
    let mut received: Vec<Dispatch> = Vec::new();

    for i in 0..5u8 {
        let incipient = IncipientCoresPackage::new(
            route_from_proxy_server(&cryptde.public_key(), &cryptde),
            PlainData::new(&[i]),
            &cryptde.public_key(),
        );
        received.push(subject.handle_incipient_cores_package(incipient).unwrap());
    }

    assert_eq!(received.len(), 5);
    for i in 0..5u8 {
        match &received[i as usize] {
            Dispatch::ToProxyClient(pkg) => assert_eq!(pkg.payload, PlainData::new(&[i])),
            _ => panic!("package {} went to the wrong sink", i),
        }
    }
}

#[test]
fn binding_after_failed_attempts_equals_binding_fresh() {
    let cryptde = CryptDENull::new();
    let incipient = IncipientCoresPackage::new(
        route_from_proxy_server(&cryptde.public_key(), &cryptde),
        payload_mock(),
        &cryptde.public_key(),
    );

    // One hopper attempts (and fails) before binding; the other binds at once.
    let mut tried_first = Hopper::new(cryptde.clone());
    assert!(tried_first
        .handle_incipient_cores_package(IncipientCoresPackage::new(
            route_from_proxy_server(&cryptde.public_key(), &cryptde),
            payload_mock(),
            &cryptde.public_key(),
        ))
        .is_err());
    tried_first.bind();

    let mut bound_fresh = Hopper::new(cryptde.clone());
    bound_fresh.bind();

    let after_attempts = tried_first
        .handle_incipient_cores_package(IncipientCoresPackage::new(
            route_from_proxy_server(&cryptde.public_key(), &cryptde),
            payload_mock(),
            &cryptde.public_key(),
        ))
        .unwrap();
    let fresh = bound_fresh.handle_incipient_cores_package(incipient).unwrap();
    assert_eq!(after_attempts, fresh);
}
