use freed::checksum::generate_checksum;
use freed::commands::Commands;
use freed::message::deserialise;
use freed::message::Message;
use freed::message::Payloads;
use freed::packed::i24;
use freed::packed::u24;
use freed::payloads::PositionPollPayload;
use freed::Serialise;
use freed::ALL_CAMERAS;

#[test]
fn message_new() {
    let inpayload = PositionPollPayload::default();
    let message = Message::new(Payloads::PositionPollPayload(inpayload), ALL_CAMERAS);

    assert_eq!(message.command.to_byte(), Commands::POSITION_POLL.to_byte());
    assert_eq!(message.cameraid, ALL_CAMERAS);

    let payload = message.get_payload();
    let testpayload = PositionPollPayload::default();
    assert_eq!(payload, Payloads::PositionPollPayload(testpayload));
}

#[test]
fn freed_message_new() {
    let message = Message::new(
        Payloads::PositionPollPayload(PositionPollPayload::default()),
        ALL_CAMERAS,
    );

    assert_eq!(message.command.to_byte(), Commands::POSITION_POLL.to_byte());
    assert_eq!(message.cameraid, ALL_CAMERAS);

    let payload = message.get_payload();
    let testpayload = PositionPollPayload::default();
    assert_eq!(payload, Payloads::PositionPollPayload(testpayload));
}

#[test]
fn message_payload_get_and_set() {
    let testpitch = i24::new(-1000).unwrap();
    let testzoom = u24::new(25000).unwrap();

    let inpayload = PositionPollPayload::default();

    let mut message = Message::new(Payloads::PositionPollPayload(inpayload), ALL_CAMERAS);

    let mut payload = message
        .get_payload()
        .try_into_position_poll()
        .expect("Fresh message holds the payload it was built from");
    let testpayload = PositionPollPayload::default();
    assert_eq!(payload, testpayload);

    payload.pitch = testpitch;
    payload.zoom = testzoom;

    message
        .set_payload(Payloads::PositionPollPayload(payload))
        .expect("Same variant is accepted");

    let newpayload = message
        .get_payload()
        .try_into_position_poll()
        .expect("Variant is unchanged");
    println!("{:?}", newpayload);
    assert_eq!(newpayload.pitch, testpitch);
    assert_eq!(newpayload.zoom, testzoom);
}

#[test]
fn freed_message_payload_get_and_set() {
    let testpitch = i24::new(-1000).unwrap();
    let testzoom = u24::new(25000).unwrap();

    let mut message = Message::new(
        Payloads::PositionPollPayload(PositionPollPayload::default()),
        ALL_CAMERAS,
    );

    let mut payload = message
        .get_payload()
        .try_into_position_poll()
        .expect("Fresh message holds the payload it was built from");
    let testpayload = PositionPollPayload::default();
    assert_eq!(payload, testpayload);

    payload.pitch = testpitch;
    payload.zoom = testzoom;

    message
        .set_payload(Payloads::PositionPollPayload(payload))
        .expect("Same variant is accepted");

    let newpayload = message
        .get_payload()
        .try_into_position_poll()
        .expect("Variant is unchanged");
    println!("{:?}", newpayload);
    assert_eq!(newpayload.pitch, testpitch);
    assert_eq!(newpayload.zoom, testzoom);
}

#[test]
fn checksum_simple() {
    let array: [u8; 5] = [1, 2, 3, 4, 5];
    assert_eq!(generate_checksum(&array), 49);
}

#[test]
fn freed_checksum_simple() {
    let array: [u8; 5] = [1, 2, 3, 4, 5];
    assert_eq!(generate_checksum(&array), 49);
}

#[test]
fn message_serialise() {
    let testpitch = i24::new(-1000).unwrap();
    let testzoom = u24::new(25000).unwrap();

    let inpayload = PositionPollPayload::default();

    let mut message = Message::new(Payloads::PositionPollPayload(inpayload), ALL_CAMERAS);

    let mut payload = message
        .get_payload()
        .try_into_position_poll()
        .expect("Fresh message holds the payload it was built from");
    payload.pitch = testpitch;
    payload.zoom = testzoom;

    message
        .set_payload(Payloads::PositionPollPayload(payload))
        .expect("Same variant is accepted");

    let serial = message.serialise();
    println!("{:?}", serial);

    assert_eq!(serial.len(), 29);
    assert_eq!(serial[0], Commands::POSITION_POLL.to_byte());
    assert_eq!(serial[1], ALL_CAMERAS);

    assert_eq!(
        serial[serial.len() - 1],
        generate_checksum(&serial[..serial.len() - 1])
    );
}

#[test]
fn freed_message_serialise() {
    let testpitch = i24::new(-1000).unwrap();
    let testzoom = u24::new(25000).unwrap();

    let mut message = Message::new(
        Payloads::PositionPollPayload(PositionPollPayload::default()),
        ALL_CAMERAS,
    );

    let mut payload = message
        .get_payload()
        .try_into_position_poll()
        .expect("Fresh message holds the payload it was built from");
    payload.pitch = testpitch;
    payload.zoom = testzoom;

    message
        .set_payload(Payloads::PositionPollPayload(payload))
        .expect("Same variant is accepted");

    let serial = message.serialise();
    println!("{:?}", serial);

    assert_eq!(serial.len(), 29);
    assert_eq!(serial[0], Commands::POSITION_POLL.to_byte());
    assert_eq!(serial[1], ALL_CAMERAS);

    assert_eq!(
        serial[serial.len() - 1],
        generate_checksum(&serial[..serial.len() - 1])
    );
}

#[test]
fn message_deserialise() {
    let inpayload = PositionPollPayload::default();

    let mut msg = Message::new(Payloads::PositionPollPayload(inpayload), ALL_CAMERAS);
    let mut payload = msg
        .get_payload()
        .try_into_position_poll()
        .expect("Fresh message holds the payload it was built from");
    payload.roll = i24::new(55555).unwrap();
    msg.set_payload(Payloads::PositionPollPayload(payload))
        .expect("Same variant is accepted");

    let serial = msg.serialise();

    let deserialised: Message = deserialise(&serial).unwrap();

    let _p: PositionPollPayload = deserialised.payload.try_into_position_poll().unwrap();
}

#[test]
fn freed_message_deserialise() {
    let mut msg = Message::new(
        Payloads::PositionPollPayload(PositionPollPayload::default()),
        ALL_CAMERAS,
    );
    let mut payload = msg
        .get_payload()
        .try_into_position_poll()
        .expect("Fresh message holds the payload it was built from");
    payload.roll = i24::new(55555).unwrap();
    msg.set_payload(Payloads::PositionPollPayload(payload))
        .expect("Same variant is accepted");

    let serial = msg.serialise();

    let deserialised = deserialise(&serial).unwrap();

    let p: PositionPollPayload = deserialised.payload.try_into_position_poll().unwrap();
    assert_eq!(p.roll, i24::new(55555).unwrap());
}

#[test]
fn arbitrarydeserialisation() {
    let inpayload = PositionPollPayload::default();
    let msg = Message::new(Payloads::PositionPollPayload(inpayload), ALL_CAMERAS);
    let _payload = msg.get_payload();
}
