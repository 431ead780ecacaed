use hopper_lib::cryptde::{CryptDE, CryptDENull, CryptData, Key, PlainData};
use hopper_lib::dispatcher::Component;
use hopper_lib::errors::HopperError;
use hopper_lib::hop::Hop;
use hopper_lib::hopper::{IncipientCoresPackage, LiveCoresPackage};
use hopper_lib::route::{Route, RouteSegment};

fn payload_mock() -> PlainData {
    PlainData::new(&[8, 16, 24, 32])
}

#[test]
fn live_cores_package_can_be_constructed_from_scratch() {
    let hops = vec![CryptData::new(&[1, 2]), CryptData::new(&[3, 4])];
    let payload = CryptData::new(&[5, 6]);

    let subject = LiveCoresPackage::new(hops.clone(), payload.clone());

    assert_eq!(subject.hops, hops);
    assert_eq!(subject.payload, payload);
}

#[test]
fn live_cores_package_can_be_constructed_from_incipient_cores_package() {
    let cryptde = CryptDENull::new();
    let key12 = Key::new(&[1, 2]);
    let key34 = Key::new(&[3, 4]);
    let key56 = Key::new(&[5, 6]);
    let payload = payload_mock();
    let incipient = IncipientCoresPackage::new(
        Route::new(
            vec![RouteSegment::new(vec![key12.clone(), key34.clone()], Component::Neighborhood)],
            &cryptde,
        )
        .unwrap(),
        payload.clone(),
        &key56,
    );

    let (subject, next_stop) = LiveCoresPackage::from_incipient(incipient, &cryptde).unwrap();

    assert_eq!(next_stop, key12);
    assert_eq!(
        subject.hops,
        vec![
            Hop::with_key(&key34).encode(&key12, &cryptde).unwrap(),
            Hop::with_component(Component::Neighborhood).encode(&key34, &cryptde).unwrap(),
        ]
    );
    assert_eq!(subject.payload, cryptde.encode(&key56, &payload).unwrap());
}

#[test]
fn from_incipient_returns_the_first_hops_cleartext_key() {
    let cryptde = CryptDENull::new();
    let key12 = Key::new(&[1, 2]);
    let key34 = Key::new(&[3, 4]);
    let route = Route::new(
        vec![RouteSegment::new(vec![key12.clone(), key34.clone()], Component::ProxyClient)],
        &cryptde,
    )
    .unwrap();
    let incipient = IncipientCoresPackage::new(route, payload_mock(), &key34);

    let (_, next_stop) = LiveCoresPackage::from_incipient(incipient, &cryptde).unwrap();

    assert_eq!(next_stop, key12);
}

#[test]
fn from_incipient_rejects_an_empty_route() {
    let cryptde = CryptDENull::new();
    let route = Route::new(vec![], &cryptde).unwrap();
    let incipient = IncipientCoresPackage::new(route, payload_mock(), &Key::new(&[5, 6]));

    let result = LiveCoresPackage::from_incipient(incipient, &cryptde);

    assert_eq!(result, Err(HopperError::EmptyRoute));
}

#[test]
fn from_incipient_rejects_a_route_whose_first_hop_names_no_next_node() {
    let cryptde = CryptDENull::new();
    // A route whose only hop is component-only: no network hop to emit to.
    let route = Route::construct(
        Hop::with_component(Component::ProxyClient),
        vec![],
        &cryptde,
    )
    .unwrap();
    let incipient = IncipientCoresPackage::new(route, payload_mock(), &Key::new(&[5, 6]));

    let result = LiveCoresPackage::from_incipient(incipient, &cryptde);

    assert_eq!(result, Err(HopperError::MissingNextHopKey));
}

#[test]
fn one_hop_package_to_oneself_round_trips_the_payload() {
    let cryptde = CryptDENull::new();
    let own_key = cryptde.public_key();
    let payload = payload_mock();
    let route = Route::new(
        vec![RouteSegment::new(vec![own_key.clone()], Component::ProxyClient)],
        &cryptde,
    )
    .unwrap();
    let incipient = IncipientCoresPackage::new(route, payload.clone(), &own_key);

    let (live, next_stop) = LiveCoresPackage::from_incipient(incipient, &cryptde).unwrap();
    let expired = live.to_expired(&cryptde).unwrap();

    assert_eq!(next_stop, own_key);
    assert_eq!(expired.payload, payload);
}

#[test]
fn to_expired_shortens_hops_by_one_and_keeps_the_decrypted_hop_first() {
    let cryptde = CryptDENull::new();
    let own_key = cryptde.public_key();
    let next = Hop::with_key(&Key::new(&[7, 7]));
    let terminal = Hop::with_component(Component::ProxyServer);
    let live = LiveCoresPackage::new(
        vec![
            terminal.encode(&own_key, &cryptde).unwrap(),
            next.encode(&Key::new(&[7, 7]), &cryptde).unwrap(),
        ],
        cryptde.encode(&own_key, &payload_mock()).unwrap(),
    );

    let expired = live.clone().to_expired(&cryptde).unwrap();

    assert_eq!(expired.remaining_route.hops.len(), live.hops.len());
    assert_eq!(expired.remaining_route.hops[1], live.hops[1]);
    let reread =
        Hop::decode(&cryptde.private_key(), &cryptde, &expired.remaining_route.hops[0]).unwrap();
    assert_eq!(reread, terminal);
    assert_eq!(expired.payload, payload_mock());
}

#[test]
fn next_hop_peeks_at_the_first_hop_without_consuming() {
    let cryptde = CryptDENull::new();
    let own_key = cryptde.public_key();
    let hop = Hop::with_key(&Key::new(&[3, 4]));
    let live = LiveCoresPackage::new(
        vec![hop.encode(&own_key, &cryptde).unwrap()],
        CryptData::new(&[5, 6]),
    );

    assert_eq!(live.next_hop(&cryptde).unwrap(), hop);
    assert_eq!(live.next_hop(&cryptde).unwrap(), hop);
}

#[test]
fn next_hop_on_an_empty_hop_list_is_fatal() {
    let cryptde = CryptDENull::new();
    let live = LiveCoresPackage::new(vec![], CryptData::new(&[5, 6]));

    assert_eq!(live.next_hop(&cryptde), Err(HopperError::EmptyRoute));
}

#[test]
fn peeling_with_a_wrong_private_key_fails_loudly() {
    let sealing = CryptDENull::new();
    let peeling = CryptDENull::from_key(&Key::new(&[9, 9, 9]));
    let own_key = sealing.public_key();
    let live = LiveCoresPackage::new(
        vec![Hop::with_component(Component::ProxyServer).encode(&own_key, &sealing).unwrap()],
        sealing.encode(&own_key, &payload_mock()).unwrap(),
    );

    assert_eq!(live.next_hop(&peeling), Err(HopperError::DecryptionFailure));
    assert_eq!(live.to_expired(&peeling), Err(HopperError::DecryptionFailure));
}

#[test]
fn a_package_whose_payload_nobody_here_can_open_is_fatal() {
    let cryptde = CryptDENull::new();
    let own_key = cryptde.public_key();
    let live = LiveCoresPackage::new(
        vec![Hop::with_component(Component::ProxyServer).encode(&own_key, &cryptde).unwrap()],
        cryptde.encode(&Key::new(&[42]), &payload_mock()).unwrap(),
    );

    assert_eq!(live.to_expired(&cryptde), Err(HopperError::DecryptionFailure));
}
