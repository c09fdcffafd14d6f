use desox::io::{
    cmac_response, decrypt_response, encrypted_cmac_response, parse_response, signed_request,
    EncryptedExchange, ExchangeStep, MockBackend, PlainExchange, Protection, SessionExchange,
};
use desox::{Error, FileCommunication, Handshake, Instruction, Key, KeyingState, Scheme, StatusCode};

/// Send one command to the mock card, and split its reply.
fn exchange(mb: &mut MockBackend, command: &[u8]) -> (StatusCode, Vec<u8>) {
    let mut out = [0u8; 255];
    let n = mb.replay(&mut out, command).expect("unexpected request");
    parse_response(&out[..n])
}

/// Run a plain exchange to its end against the mock card.
fn plain_multi(mb: &mut MockBackend, header: &[u8], data: &[&[u8]]) -> (StatusCode, Vec<u8>) {
    let (mut ex, mut command) = PlainExchange::new(header, data);
    loop {
        let (status, response) = exchange(mb, &command);
        match ex.step(status, &response) {
            ExchangeStep::Send(c) => command = c,
            ExchangeStep::Done(s, out) => return (s, out),
        }
    }
}

/// Run an encrypted exchange to its end against the mock card.
fn encrypted_multi(mb: &mut MockBackend, ks: &mut KeyingState, header: &[u8], data: &[&[u8]]) -> (StatusCode, Vec<u8>) {
    let (mut ex, mut command) = EncryptedExchange::new(ks, header, data);
    loop {
        let (status, response) = exchange(mb, &command);
        match ex.step(status, &response) {
            ExchangeStep::Send(c) => command = c,
            ExchangeStep::Done(s, out) => {
                ex.finish(ks);
                return (s, out);
            }
        }
    }
}

fn plain_out_cmac_in(mb: &mut MockBackend, ks: &mut KeyingState, header: &[u8], data: &[&[u8]]) -> (StatusCode, Vec<u8>) {
    ks.generate_cmac(header, data);
    let (status, response) = plain_multi(mb, header, data);
    cmac_response::<()>(ks, status, &response).unwrap()
}

#[test]
fn test_mock_backend() {
    let mut mb = MockBackend::new(&[(&[0xAF], b"\x00Hello, World!")]);
    let mut out = [0; 0xff];
    let n = mb.replay(&mut out, &[0xAF]).unwrap();
    assert_eq!(b"Hello, World!", &out[1..n]);
}

#[test]
fn mock_backend_refuses_other_requests() {
    let mut mb = MockBackend::new(&[(&[0xAF], b"\x00Hi"), (&[0x60], b"\x00")]);
    let mut out = [0; 0xff];
    assert_eq!(None, mb.replay(&mut out, &[0x61]));
    assert_eq!(Some(1), mb.replay(&mut out, &[0x60]));
    assert_eq!(None, mb.replay(&mut out, &[0x60]));
    let mut tiny = [0u8; 1];
    let mut mb = MockBackend::new(&[(&[0xAF], b"\x00Hi")]);
    assert_eq!(None, mb.replay(&mut tiny, &[0xAF]));
}

#[test]
fn test_plain() {
    let mut mb = MockBackend::new(&[(&[0xFF], b"\xAFHello, "), (&[0xAF], b"\x00World!")]);
    let (status_code, response) = plain_multi(&mut mb, &[0xFF], &[]);
    assert_eq!(StatusCode::Ack, status_code);
    assert_eq!(b"Hello, World!", &response[..]);
}

#[test]
fn plain_exchange_sends_data_in_chunks() {
    let data = [7u8; 70];
    let (mut ex, first) = PlainExchange::new(&[0x3D, 0x01], &[&data[..30], &data[30..]]);
    assert_eq!(vec![0x3D, 0x01], first);
    let second = match ex.step(StatusCode::AdditionalData, &[]) {
        ExchangeStep::Send(c) => c,
        ExchangeStep::Done(..) => panic!("exchange ended early"),
    };
    assert_eq!(60, second.len());
    assert_eq!(0xAF, second[0]);
    let third = match ex.step(StatusCode::AdditionalData, &[]) {
        ExchangeStep::Send(c) => c,
        ExchangeStep::Done(..) => panic!("exchange ended early"),
    };
    assert_eq!(12, third.len());
    let fourth = match ex.step(StatusCode::AdditionalData, &[1]) {
        ExchangeStep::Send(c) => c,
        ExchangeStep::Done(..) => panic!("exchange ended early"),
    };
    assert_eq!(vec![0xAF], fourth);
    match ex.step(StatusCode::Ack, &[2]) {
        ExchangeStep::Done(s, out) => {
            assert_eq!(StatusCode::Ack, s);
            assert_eq!(vec![1, 2], out);
        }
        ExchangeStep::Send(_) => panic!("exchange did not end"),
    }
}

#[test]
fn test_capture_fc() {
    let mut sks = KeyingState::new(Key::Des([0xBA, 0x02, 0x0A, 0x16, 0xEC, 0xE6, 0x1C, 0x12]));
    let mut mb = MockBackend::new(&[(&[0xFC], &[0x00, 0xA7, 0x0A, 0x5C, 0x88, 0x36, 0x14, 0x1E, 0x82])]);
    let (status_code, response) = plain_out_cmac_in(&mut mb, &mut sks, &[Instruction::FormatCard.as_u8()], &[]);
    assert_eq!(StatusCode::Ack, status_code);
    assert!(response.is_empty());
}

#[test]
fn cmac_response_rejects_a_bad_signature() {
    let mut sks = KeyingState::new(Key::Des([0xBA, 0x02, 0x0A, 0x16, 0xEC, 0xE6, 0x1C, 0x12]));
    sks.generate_cmac(&[0xFC], &[]);
    let r = cmac_response::<()>(&mut sks, StatusCode::Ack, &[0xA7, 0x0A, 0x5C, 0x88, 0x36, 0x14, 0x1E, 0x83]);
    assert!(matches!(r, Err(Error::InvalidSignature)));
    let (status, data) = cmac_response::<()>(&mut sks, StatusCode::PermissionDenied, &[1, 2, 3]).unwrap();
    assert_eq!(StatusCode::PermissionDenied, status);
    assert!(data.is_empty());
}

const CARD_VERSION: [u8; 28] = [
    0x04, 0x01, 0x01, 0x33, 0x00, 0x18, 0x05, 0x04, 0x01, 0x01, 0x03, 0x00, 0x18, 0x05, 0x04, 0x4B,
    0x1F, 0x9A, 0xDD, 0x1E, 0x90, 0x21, 0x13, 0x62, 0x30, 0x30, 0x40, 0x24,
];

#[test]
fn test_capture_card_info_over_and_over() {
    let mut mb = MockBackend::new(&[
        (&[0x60], &[0xAF, 0x04, 0x01, 0x01, 0x33, 0x00, 0x18, 0x05]),
        (&[0xAF], &[0xAF, 0x04, 0x01, 0x01, 0x03, 0x00, 0x18, 0x05]),
        (&[0xAF], &[0x00, 0x04, 0x4B, 0x1F, 0x9A, 0xDD, 0x1E, 0x90, 0x21, 0x13, 0x62, 0x30, 0x30, 0x40, 0x24]),
        (&[0x1A, 0x00], &[0xAF, 0x32, 0xC7, 0x09, 0xD5, 0xA4, 0xC1, 0x1F, 0x98]),
        (
            &[0xAF, 0xF1, 0x87, 0x90, 0x79, 0xA7, 0x6D, 0xBE, 0x43, 0xF6, 0xA8, 0xC4, 0xBA, 0x37, 0xA6, 0x63, 0x43],
            &[0x00, 0x07, 0x45, 0x0F, 0xE4, 0xE5, 0x75, 0x30, 0x5D],
        ),
        (&[0x60], &[0xAF, 0x04, 0x01, 0x01, 0x33, 0x00, 0x18, 0x05]),
        (&[0xAF], &[0xAF, 0x04, 0x01, 0x01, 0x03, 0x00, 0x18, 0x05]),
        (
            &[0xAF],
            &[
                0x00, 0x04, 0x4B, 0x1F, 0x9A, 0xDD, 0x1E, 0x90, 0x21, 0x13, 0x62, 0x30, 0x30, 0x40, 0x24, 0x82,
                0x74, 0x08, 0xE9, 0x35, 0x1B, 0x31, 0x5C,
            ],
        ),
    ]);

    let (status_code, response) = plain_multi(&mut mb, &[Instruction::GetVersionInfo.as_u8()], &[]);
    assert_eq!(StatusCode::Ack, status_code);
    assert_eq!(&CARD_VERSION[..], &response[..]);

    let (handshake, command) = Handshake::begin(Key::Des([0x00; 8]), 0x00);
    let (status, response) = exchange(&mut mb, &command);
    assert_eq!(StatusCode::AdditionalData, status);
    let (handshake, command) = handshake
        .rnd_b_with_key::<()>(&response, &[0x00, 0x83, 0x6D, 0x4B, 0xF5, 0xAA, 0x65, 0x27])
        .unwrap();
    let (status, response) = exchange(&mut mb, &command);
    assert_eq!(StatusCode::Ack, status);
    let session_key = handshake.complete::<()>(&response).unwrap().into_key();
    assert_eq!(Key::Des([0x00, 0x82, 0x6C, 0x4A, 0x02, 0xB2, 0xC2, 0x70]), session_key);

    let mut ks = KeyingState::new(session_key);
    assert_eq!(&[0; 8], ks.get_iv());

    let (status_code, response) = plain_out_cmac_in(&mut mb, &mut ks, &[Instruction::GetVersionInfo.as_u8()], &[]);
    assert_eq!(StatusCode::Ack, status_code);
    assert_eq!(&CARD_VERSION[..], &response[..]);

    let info = desox::commands::version_info::<()>(status_code, &response).unwrap();
    assert_eq!(0x04, info.hardware.vendor_id);
}

#[test]
fn test_capture_real_uid() {
    let mut ks = KeyingState::new(Key::Des([0xA0, 0xCE, 0xB0, 0xF4, 0x08, 0xD4, 0x60, 0xDE]));
    let mut mb = MockBackend::new(&[(
        &[0x51],
        &[0x00, 0x50, 0x1F, 0x93, 0x0A, 0x8B, 0x90, 0xA0, 0x80, 0xEC, 0x9F, 0xB1, 0xBA, 0x83, 0x89, 0x2E, 0xA3],
    )]);

    let header = [Instruction::GetUid.as_u8()];
    ks.generate_cmac(&header, &[]);
    let (status, data) = plain_multi(&mut mb, &header, &[]);
    let (status_code, response) = decrypt_response::<()>(&mut ks, status, &data).unwrap();
    assert_eq!(StatusCode::Ack, status_code);
    assert_eq!(16, response.len());
    assert_eq!(&[0x04, 0x4B, 0x1F, 0x9A, 0xDD, 0x1E, 0x90], &response[..7]);
    assert_eq!(&data[8..], ks.get_iv());

    let uid = desox::commands::uid::<()>(status_code, &response).unwrap();
    assert_eq!([0x04, 0x4B, 0x1F, 0x9A, 0xDD, 0x1E, 0x90], uid);
}

#[test]
fn decrypt_response_needs_whole_blocks() {
    let mut ks = KeyingState::new(Key::Des([0; 8]));
    let r = decrypt_response::<()>(&mut ks, StatusCode::Ack, &[1, 2, 3]);
    assert!(matches!(r, Err(Error::BadSize)));
    assert_eq!(&[0; 8], ks.get_iv());
}

#[test]
fn test_free_memory() {
    let mut mb = MockBackend::new(&[(&[0x6e], &[0x00, 0x00, 0x04, 0x00])]);
    let (status, response) = plain_multi(&mut mb, &[Instruction::GetFreeMemory.as_u8()], &[]);
    assert_eq!(1024, desox::commands::free_memory::<()>(status, &response).unwrap());
}

#[test]
fn test_free_memory_sc() {
    let mut mb = MockBackend::new(&[(&[0x6e], &[0xae])]);
    let (status, response) = plain_multi(&mut mb, &[Instruction::GetFreeMemory.as_u8()], &[]);
    assert!(desox::commands::free_memory::<()>(status, &response).is_err());
}

#[test]
fn test_free_memory_short() {
    let mut mb = MockBackend::new(&[(&[0x6e], &[0x00])]);
    let (status, response) = plain_multi(&mut mb, &[Instruction::GetFreeMemory.as_u8()], &[]);
    assert!(desox::commands::free_memory::<()>(status, &response).is_err());
}

#[test]
fn test_unauth_encrypted_file_read() {
    assert!(desox::commands::unauthenticated_read_check::<()>(FileCommunication::Encrypted).is_err());
    assert!(desox::commands::unauthenticated_read_check::<()>(FileCommunication::Cmac).is_ok());
}

#[test]
fn test_unauth_encrypted_file_write() {
    assert!(desox::commands::unauthenticated_write_check::<()>(FileCommunication::Encrypted).is_err());
}

#[test]
fn test_unauth_cmac_file_write() {
    assert!(desox::commands::unauthenticated_write_check::<()>(FileCommunication::Cmac).is_err());
    assert!(desox::commands::unauthenticated_write_check::<()>(FileCommunication::Plain).is_ok());
}

fn decrypt_with(key: Key, iv: &[u8], data: &[u8]) -> Vec<u8> {
    let mut scheme = Scheme::new(key);
    scheme.set_iv(iv);
    let mut plain = data.to_vec();
    scheme.decrypt(&mut plain);
    plain
}

#[test]
fn encrypted_exchange_short_message_is_one_command() {
    let key = Key::Des([0x11; 8]);
    let ks = KeyingState::new(key);
    let (mut ex, command) = EncryptedExchange::new(&ks, &[0xC4, 0x00], &[b"0123456789"]);
    assert_eq!(&[0xC4, 0x00], &command[..2]);
    assert_eq!(2 + 16, command.len());
    let plain = decrypt_with(key, &[0; 8], &command[2..]);
    assert_eq!(b"0123456789\0\0\0\0\0\0", &plain[..]);

    let mut ks = ks;
    match ex.step(StatusCode::Ack, &[]) {
        ExchangeStep::Done(s, out) => {
            assert_eq!(StatusCode::Ack, s);
            assert!(out.is_empty());
        }
        ExchangeStep::Send(_) => panic!("exchange did not end"),
    }
    ex.finish(&mut ks);
    assert_eq!(&command[10..], ks.get_iv());
}

#[test]
fn encrypted_exchange_long_message_chains_blocks() {
    let key = Key::Aes([0x22; 16]);
    let mut ks = KeyingState::new(key);
    let data = [0x5Au8; 70];
    let (mut ex, command) = EncryptedExchange::new(&ks, &[0x3D, 0x01, 0, 0, 0, 70, 0, 0], &[&data]);
    assert_eq!(vec![0x3D, 0x01, 0, 0, 0, 70, 0, 0], command);

    let mut sent = Vec::new();
    let mut command = match ex.step(StatusCode::AdditionalData, &[]) {
        ExchangeStep::Send(c) => c,
        ExchangeStep::Done(..) => panic!("exchange ended early"),
    };
    while command.len() > 1 {
        assert_eq!(0xAF, command[0]);
        sent.extend_from_slice(&command[1..]);
        command = match ex.step(StatusCode::AdditionalData, &[]) {
            ExchangeStep::Send(c) => c,
            ExchangeStep::Done(..) => panic!("exchange ended early"),
        };
    }
    assert_eq!(vec![0xAF], command);
    assert_eq!(32 + 32 + 16, sent.len());
    let plain = decrypt_with(key, &[0; 16], &sent);
    assert_eq!(&data[..], &plain[..70]);
    assert_eq!(&[0u8; 10], &plain[70..]);

    match ex.step(StatusCode::Ack, &[]) {
        ExchangeStep::Done(s, _) => assert_eq!(StatusCode::Ack, s),
        ExchangeStep::Send(_) => panic!("exchange did not end"),
    }
    ex.finish(&mut ks);
    assert_eq!(&sent[sent.len() - 16..], ks.get_iv());
}

#[test]
fn encrypted_exchange_without_data_resets_iv() {
    let mut mb = MockBackend::new(&[(&[0xC4, 0x00], &[0x00])]);
    let mut ks = KeyingState::new(Key::Des([0x33; 8]));
    ks.set_iv(&[9; 8]);
    let (status, out) = encrypted_multi(&mut mb, &mut ks, &[0xC4, 0x00], &[]);
    assert_eq!(StatusCode::Ack, status);
    assert!(out.is_empty());
    assert_eq!(&[0; 8], ks.get_iv());
}

#[test]
fn signed_request_appends_short_cmac() {
    let mut a = KeyingState::new(Key::Aes([
        0xDE, 0x04, 0x17, 0x85, 0xF5, 0x9C, 0x23, 0xF5, 0xC4, 0xEB, 0xA7, 0xEE, 0xB7, 0x89, 0x78, 0x55,
    ]));
    let mut b = KeyingState::new(Key::Aes([
        0xDE, 0x04, 0x17, 0x85, 0xF5, 0x9C, 0x23, 0xF5, 0xC4, 0xEB, 0xA7, 0xEE, 0xB7, 0x89, 0x78, 0x55,
    ]));
    let data = signed_request(&mut a, &[0xCD, 0x01], &[&[0x03, 0x00, 0x00, 0x1C, 0x00, 0x00]]);
    let short = b.generate_cmac_short(&[0xCD, 0x01, 0x03, 0x00, 0x00, 0x1C, 0x00, 0x00], &[]);
    assert_eq!(&[0x03, 0x00, 0x00, 0x1C, 0x00, 0x00], &data[..6]);
    assert_eq!(&[0xEF, 0x93, 0x44, 0xCC, 0x38, 0xE2, 0xA9, 0xF0], &data[6..]);
    assert_eq!(&short[..], &data[6..]);
    assert_eq!(a.get_iv(), b.get_iv());
}

#[test]
fn encrypted_cmac_response_checks_any_status() {
    let mut ks = KeyingState::new(Key::Des([0; 8]));
    let r = encrypted_cmac_response::<()>(&mut ks, StatusCode::PermissionDenied, &[0; 4]);
    assert!(matches!(r, Err(Error::InvalidSignature)));
    let r = encrypted_cmac_response::<()>(&mut ks, StatusCode::Ack, &[0; 8]);
    assert!(matches!(r, Err(Error::InvalidSignature)));
}

/// Run an exchange of an authenticated session to its end against the mock
/// card.
fn session_multi(
    mb: &mut MockBackend,
    ks: &mut KeyingState,
    protection: Protection,
    header: &[u8],
    data: &[&[u8]],
) -> Result<(StatusCode, Vec<u8>), Error<()>> {
    let (mut ex, mut command) = SessionExchange::start(ks, protection, header, data);
    loop {
        let (status, response) = exchange(mb, &command);
        match ex.step(status, &response) {
            ExchangeStep::Send(c) => command = c,
            ExchangeStep::Done(s, out) => return ex.finish(ks, s, &out),
        }
    }
}

#[test]
fn session_exchange_signed_reply() {
    let mut ks = KeyingState::new(Key::Des([0xBA, 0x02, 0x0A, 0x16, 0xEC, 0xE6, 0x1C, 0x12]));
    let mut mb = MockBackend::new(&[(&[0xFC], &[0x00, 0xA7, 0x0A, 0x5C, 0x88, 0x36, 0x14, 0x1E, 0x82])]);
    let (status, data) = session_multi(&mut mb, &mut ks, Protection::PlainOutCmacIn, &[0xFC], &[]).unwrap();
    assert_eq!(StatusCode::Ack, status);
    assert!(data.is_empty());
}

#[test]
fn session_exchange_encrypted_reply() {
    let mut ks = KeyingState::new(Key::Des([0xA0, 0xCE, 0xB0, 0xF4, 0x08, 0xD4, 0x60, 0xDE]));
    let mut mb = MockBackend::new(&[(
        &[0x51],
        &[0x00, 0x50, 0x1F, 0x93, 0x0A, 0x8B, 0x90, 0xA0, 0x80, 0xEC, 0x9F, 0xB1, 0xBA, 0x83, 0x89, 0x2E, 0xA3],
    )]);
    let (status, data) = session_multi(&mut mb, &mut ks, Protection::PlainOutEncryptedIn, &[0x51], &[]).unwrap();
    assert_eq!(StatusCode::Ack, status);
    assert_eq!(&[0x04, 0x4B, 0x1F, 0x9A, 0xDD, 0x1E, 0x90], &data[..7]);
}

#[test]
fn session_exchange_encrypted_request_plain_reply() {
    let key = Key::Des([0x11; 8]);
    let mut ks = KeyingState::new(key);
    let (ex, command) = SessionExchange::start(&mut ks, Protection::EncryptedOutPlainIn, &[0xC4, 0x00], &[b"0123456789"]);
    assert_eq!(18, command.len());
    assert_eq!(&[0; 8], ks.get_iv());
    let (status, data) = ex.finish::<()>(&mut ks, StatusCode::Ack, &[]).unwrap();
    assert_eq!(StatusCode::Ack, status);
    assert!(data.is_empty());
    assert_eq!(&command[10..], ks.get_iv());
}

#[test]
fn session_exchange_signed_request() {
    let key = Key::Aes([
        0xDE, 0x04, 0x17, 0x85, 0xF5, 0x9C, 0x23, 0xF5, 0xC4, 0xEB, 0xA7, 0xEE, 0xB7, 0x89, 0x78, 0x55,
    ]);
    let mut ks = KeyingState::new(key);
    let (mut ex, command) = SessionExchange::start(&mut ks, Protection::CmacOutCmacIn, &[0xCD, 0x01], &[&[0x03, 0x00, 0x00, 0x1C, 0x00, 0x00]]);
    assert_eq!(vec![0xCD, 0x01], command);
    match ex.step(StatusCode::AdditionalData, &[]) {
        ExchangeStep::Send(c) => assert_eq!(
            vec![0xAF, 0x03, 0x00, 0x00, 0x1C, 0x00, 0x00, 0xEF, 0x93, 0x44, 0xCC, 0x38, 0xE2, 0xA9, 0xF0],
            c
        ),
        ExchangeStep::Done(..) => panic!("exchange ended early"),
    }
}

#[test]
fn authenticated_file_requests() {
    let (p, command) = desox::commands::authenticated_read_request(0x01, FileCommunication::Encrypted, 0x10, 0x20);
    assert_eq!(Protection::PlainOutEncryptedIn, p);
    assert_eq!([0xBD, 0x01, 0x10, 0x00, 0x00, 0x20, 0x00, 0x00], command);
    let (p, _) = desox::commands::authenticated_read_request(0x01, FileCommunication::Cmac, 0, 1);
    assert_eq!(Protection::PlainOutCmacIn, p);

    let (p, header, body) = desox::commands::authenticated_write_request(0x02, FileCommunication::Plain, 0, b"hi");
    assert_eq!(Protection::PlainOutCmacIn, p);
    assert_eq!([0x3D, 0x02, 0x00, 0x00, 0x00, 0x02, 0x00, 0x00], header);
    assert_eq!(b"hi".to_vec(), body);
    let (p, _, body) = desox::commands::authenticated_write_request(0x02, FileCommunication::Cmac, 0, b"hi");
    assert_eq!(Protection::CmacOutCmacIn, p);
    assert_eq!(b"hi".to_vec(), body);
    let (p, header, body) = desox::commands::authenticated_write_request(0x02, FileCommunication::Encrypted, 0, b"hi");
    assert_eq!(Protection::EncryptedOutCmacIn, p);
    assert_eq!(6, body.len());
    assert_eq!(desox::crc32(&header, &[b"hi"]).to_le_bytes(), body[2..]);
}

#[test]
fn card_refers_to_its_backend() {
    let mb = MockBackend::new(&[(&[0x60], &[0x00])]);
    let card = desox::Card::new(&mb);
    let backend: &MockBackend = card.as_ref();
    let mut out = [0u8; 4];
    assert_eq!(Some(1), backend.replay_at(0, &mut out, &[0x60]));
}

#[test]
fn replay_at_picks_the_numbered_exchange() {
    let mb = MockBackend::new(&[(&[0xAF], b"\x00Hi"), (&[0x60], b"\x00Yo!")]);
    let mut out = [9u8; 6];
    assert_eq!(Some(4), mb.replay_at(1, &mut out, &[0x60]));
    assert_eq!(b"\x00Yo!\x09\x09", &out);
    let mut out = [9u8; 3];
    assert_eq!(None, mb.replay_at(0, &mut out, &[0x60]));
    assert_eq!(None, mb.replay_at(2, &mut out, &[0xAF]));
    assert_eq!(None, mb.replay_at(1, &mut out, &[0x60]));
    assert_eq!([9u8; 3], out);
}

#[test]
fn mock_replays_in_order_and_keeps_the_rest() {
    let mut mb = MockBackend::new(&[(&[0x60], b"\x00A"), (&[0x61], b"\x00BC")]);
    let mut out = [9u8; 4];
    assert_eq!(Some(2), mb.replay(&mut out, &[0x60]));
    assert_eq!([0x00, b'A', 9, 9], out);
    let mut out = [9u8; 2];
    assert_eq!(None, mb.replay(&mut out, &[0x61]));
    assert_eq!([9, 9], out);
    let mut out = [9u8; 4];
    assert_eq!(None, mb.replay(&mut out, &[0x61]));
}

#[test]
fn handshake_replies_check_their_status() {
    let (handshake, _) = Handshake::begin(Key::Des([0; 8]), 0x00);
    let r = handshake.rnd_b_reply::<()>(StatusCode::PermissionDenied, &[0; 8], None);
    assert!(matches!(r, Err(Error::BadStatusCode(StatusCode::PermissionDenied))));

    let (handshake, _) = Handshake::begin(Key::Des([0; 8]), 0x00);
    let rnd_a = [0xA0, 0xCF, 0xB1, 0xF4, 0x35, 0x29, 0x4B, 0x9B];
    let (half_open, command) = handshake
        .rnd_b_reply::<()>(StatusCode::AdditionalData, &[0xBE, 0x06, 0xBE, 0x0C, 0xF7, 0x19, 0xE2, 0x92], Some(&rnd_a))
        .unwrap();
    assert_eq!(
        vec![0xAF, 0xDB, 0xEB, 0xDB, 0x42, 0xF0, 0xB8, 0x87, 0x0C, 0xF5, 0x98, 0x99, 0x56, 0x2A, 0x44, 0xC2, 0x77],
        command
    );
    let answer = [0x8F, 0x72, 0x31, 0x73, 0x06, 0x1C, 0xFF, 0x81];
    let key = half_open.complete_reply::<()>(StatusCode::Ack, &answer).unwrap().into_key();
    assert_eq!(Key::Des([0xA0, 0xCE, 0xB0, 0xF4, 0x08, 0xD4, 0x60, 0xDE]), key);

    let (handshake, _) = Handshake::begin(Key::Des([0; 8]), 0x00);
    let (half_open, _) = handshake
        .rnd_b_reply::<()>(StatusCode::AdditionalData, &[0xBE, 0x06, 0xBE, 0x0C, 0xF7, 0x19, 0xE2, 0x92], Some(&rnd_a))
        .unwrap();
    let r = half_open.complete_reply::<()>(StatusCode::AuthenticationError, &answer);
    assert!(matches!(r, Err(Error::BadStatusCode(StatusCode::AuthenticationError))));
}
