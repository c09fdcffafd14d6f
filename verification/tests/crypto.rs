use desox::{check_crc32, crc32, xor, BackendDecryptor, BackendEncryptor, Handshake, Key, KeyingState, Scheme};

#[test]
fn test_crc32() {
    assert_eq!(
        [0x55, 0xA7, 0xB5, 0x6F],
        crc32(b"Hello, World! This is a test", &[&[0x00]]).to_le_bytes(),
    )
}

#[test]
fn crc32_check() {
    check_crc32::<()>(b"Hello, World! This is a test\x55\xA7\xB5\x6F", &[&[0x00]]).unwrap();
}

#[test]
fn crc32_check_rejects_corruption() {
    let r = check_crc32::<()>(b"Hello, World! This is a test\x55\xA7\xB5\x6E", &[&[0x00]]);
    assert!(matches!(r, Err(desox::Error::InvalidCrc32)));
    let ok = check_crc32::<()>(b"Hello, World! This is a test\x55\xA7\xB5\x6F", &[&[0x00]]).unwrap();
    assert_eq!(b"Hello, World! This is a test", ok);
}

#[test]
fn crc32_trailers_are_concatenation() {
    assert_eq!(crc32(b"abcdef", &[]), crc32(b"abc", &[b"de", b"f"]));
    assert_eq!(0xFFFF_FFFF, crc32(b"", &[]));
}

fn simple_round_trip(key: Key, bs: usize) {
    let mut backend = Scheme::new(key);
    let mut ciphertext = vec![0xFA; bs * 10];
    backend.set_iv(&vec![0xEE; bs]);
    backend.encrypt(&mut ciphertext);
    assert_ne!(vec![0xFA; bs * 10], ciphertext);
    assert_eq!(&ciphertext[bs * 9..], backend.get_iv());

    let mut plaintext = ciphertext.clone();
    backend.set_iv(&vec![0xEE; bs]);
    backend.decrypt(&mut plaintext);
    assert_eq!(vec![0xFA; bs * 10], plaintext);
    assert_eq!(&ciphertext[bs * 9..], backend.get_iv());
}

#[test]
fn test_des() {
    simple_round_trip(Key::Des([0x0A; 8]), 8);
}

#[test]
fn test_aes128() {
    simple_round_trip(Key::Aes([0x0A; 16]), 16);
}

#[test]
fn test_cmac_example() {
    let session_key = Scheme::new(Key::Des([0xBA, 0x02, 0x0A, 0x16, 0xEC, 0xE6, 0x1C, 0x12]));
    let ref_k1 = [0x6E, 0xDE, 0x5E, 0x90, 0x97, 0xB9, 0x4D, 0x7B];
    let ref_k2 = [0xDD, 0xBC, 0xBD, 0x21, 0x2F, 0x72, 0x9A, 0xF6];

    let (k1, k2) = session_key.generate_cmac_keys();

    assert_eq!(ref_k1.to_vec(), k1);
    assert_eq!(ref_k2.to_vec(), k2);
}

#[test]
fn test_fc_example() {
    let (_k1, k2) = {
        let session_key = Scheme::new(Key::Des([0xBA, 0x02, 0x0A, 0x16, 0xEC, 0xE6, 0x1C, 0x12]));
        session_key.generate_cmac_keys()
    };
    let k2: [u8; 8] = k2.try_into().unwrap();

    let mut session_key = Scheme::new(Key::Des([0xBA, 0x02, 0x0A, 0x16, 0xEC, 0xE6, 0x1C, 0x12]));
    let mut command = [0xFC, 0x80, 0x00, 0x00, 0x00, 0x00, 0x00, 0x00];
    xor(&mut command, &k2);
    assert_eq!([0x21, 0x3C, 0xBD, 0x21, 0x2F, 0x72, 0x9A, 0xF6], command);
    let mut command = command.to_vec();
    session_key.encrypt(&mut command);
    assert_eq!(vec![0x32, 0x40, 0xEA, 0xF7, 0x61, 0x94, 0x1C, 0xDF], command);
}

#[test]
fn test_cmac_example_aes() {
    let session_key = Scheme::new(Key::Aes([
        0xDE, 0x04, 0x17, 0x85, 0xF5, 0x9C, 0x23, 0xF5, 0xC4, 0xEB, 0xA7, 0xEE, 0xB7, 0x89, 0x78, 0x55,
    ]));

    let (k1, k2) = session_key.generate_cmac_keys();

    assert_eq!(
        vec![0xA4, 0xCB, 0x75, 0x45, 0x67, 0xA6, 0xB7, 0x8B, 0x1A, 0x89, 0x21, 0xC9, 0xF8, 0xBF, 0xD2, 0xF4],
        k1
    );
    assert_eq!(
        vec![0x49, 0x96, 0xEA, 0x8A, 0xCF, 0x4D, 0x6F, 0x16, 0x35, 0x12, 0x43, 0x93, 0xF1, 0x7F, 0xA5, 0x6F],
        k2
    );
}

#[test]
fn xor_twice_is_identity() {
    let mut buf = [1u8, 2, 3, 4];
    let key = [0xFFu8, 0x0F, 0xF0, 0x00];
    xor(&mut buf, &key);
    assert_eq!([0xFE, 0x0D, 0xF3, 0x04], buf);
    xor(&mut buf, &key);
    assert_eq!([1, 2, 3, 4], buf);
}

#[test]
fn test_capture() {
    let mut ks = KeyingState::new(Key::Aes([
        0xDE, 0x04, 0x17, 0x85, 0xF5, 0x9C, 0x23, 0xF5, 0xC4, 0xEB, 0xA7, 0xEE, 0xB7, 0x89, 0x78, 0x55,
    ]));

    let cmac = ks.generate_cmac_short(&[0xCD, 0x01, 0x03, 0x00, 0x00, 0x1C, 0x00, 0x00], &[]);
    assert_eq!([0xEF, 0x93, 0x44, 0xCC, 0x38, 0xE2, 0xA9, 0xF0], cmac);

    let msg = ks
        .validate_cmac::<()>(&[0x00, 0x19, 0xAC, 0xEF, 0x56, 0x46, 0x0F, 0xCA, 0xDB], None)
        .unwrap();
    assert_eq!(&[0x00], msg);
}

#[test]
fn cmac_ratchets_iv() {
    let mut ks = KeyingState::new(Key::Des([0xBA, 0x02, 0x0A, 0x16, 0xEC, 0xE6, 0x1C, 0x12]));
    assert_eq!(&[0u8; 8], ks.get_iv());
    let full = ks.generate_cmac(&[0xFC], &[]);
    assert_eq!(&full[..], ks.get_iv());
    assert_eq!(vec![0x32, 0x40, 0xEA, 0xF7, 0x61, 0x94, 0x1C, 0xDF], full);
}

#[test]
fn validate_cmac_rejects_short_and_wrong() {
    let mut ks = KeyingState::new(Key::Des([0; 8]));
    assert!(matches!(ks.validate_cmac::<()>(&[1, 2, 3], None), Err(desox::Error::InvalidSignature)));
    assert_eq!(&[0u8; 8], ks.get_iv());
    assert!(matches!(ks.validate_cmac::<()>(&[0; 9], None), Err(desox::Error::InvalidSignature)));
}

fn run_handshake(key: Key, rnd_a: &[u8], exchanges: &[(&[u8], &[u8])]) -> Key {
    let mut mb = desox::io::MockBackend::new(exchanges);
    let mut out = [0u8; 255];
    let (handshake, command) = Handshake::begin(key, 0x00);
    let n = mb.replay(&mut out, &command).unwrap();
    let (status, response) = desox::io::parse_response(&out[..n]);
    assert_eq!(desox::StatusCode::AdditionalData, status);
    let (handshake, command) = handshake.rnd_b_with_key::<()>(&response, rnd_a).unwrap();
    let n = mb.replay(&mut out, &command).unwrap();
    let (status, response) = desox::io::parse_response(&out[..n]);
    assert_eq!(desox::StatusCode::Ack, status);
    handshake.complete::<()>(&response).unwrap().into_key()
}

#[test]
fn test_capture_des() {
    let key = run_handshake(
        Key::Des([0; 8]),
        &[0xA0, 0xCF, 0xB1, 0xF4, 0x35, 0x29, 0x4B, 0x9B],
        &[
            (&[0x1A, 0x00], &[0xAF, 0xBE, 0x06, 0xBE, 0x0C, 0xF7, 0x19, 0xE2, 0x92]),
            (
                &[0xAF, 0xDB, 0xEB, 0xDB, 0x42, 0xF0, 0xB8, 0x87, 0x0C, 0xF5, 0x98, 0x99, 0x56, 0x2A, 0x44, 0xC2, 0x77],
                &[0x00, 0x8F, 0x72, 0x31, 0x73, 0x06, 0x1C, 0xFF, 0x81],
            ),
        ],
    );
    assert_eq!(Key::Des([0xA0, 0xCE, 0xB0, 0xF4, 0x08, 0xD4, 0x60, 0xDE]), key);
}

#[test]
fn test_capture_aes() {
    let key = run_handshake(
        Key::Aes([0; 16]),
        &[0xDE, 0x04, 0x17, 0x85, 0xC0, 0xC0, 0x45, 0x76, 0x12, 0x99, 0xA6, 0x67, 0xC4, 0xEB, 0xA7, 0xEE],
        &[
            (
                &[0xAA, 0x00],
                &[0xAF, 0xBC, 0x1C, 0xDE, 0x5D, 0x71, 0x09, 0x7F, 0x97, 0xDF, 0xE7, 0x0D, 0x24, 0xA8, 0x7A, 0x4A, 0x50],
            ),
            (
                &[
                    0xAF, 0x3F, 0xD0, 0xA9, 0xC9, 0x88, 0x69, 0x4E, 0xBB, 0x12, 0x35, 0x49, 0xC6, 0x8D, 0xD6, 0x61, 0xB5,
                    0xF9, 0x69, 0x6C, 0x3D, 0xA4, 0x6D, 0x56, 0xB7, 0xFC, 0x3B, 0xB4, 0x8A, 0x3B, 0x6E, 0xA1, 0x2F,
                ],
                &[0x00, 0xE7, 0x60, 0xEB, 0x7A, 0x31, 0xDE, 0x62, 0xD5, 0xC2, 0x95, 0xA2, 0xD8, 0x94, 0xCA, 0x18, 0x14],
            ),
        ],
    );
    assert_eq!(
        Key::Aes([0xDE, 0x04, 0x17, 0x85, 0xF5, 0x9C, 0x23, 0xF5, 0xC4, 0xEB, 0xA7, 0xEE, 0xB7, 0x89, 0x78, 0x55]),
        key
    );
}

#[test]
fn handshake_rejects_wrong_sizes_and_answers() {
    let (handshake, command) = Handshake::begin(Key::Des([0; 8]), 0x03);
    assert_eq!(vec![0x1A, 0x03], command);
    assert!(matches!(handshake.rnd_b_with_key::<()>(&[0; 7], &[0; 8]), Err(desox::Error::BadSize)));

    let (handshake, _) = Handshake::begin(Key::Des([0; 8]), 0x00);
    let (half_open, _) = handshake
        .rnd_b_with_key::<()>(&[0xBE, 0x06, 0xBE, 0x0C, 0xF7, 0x19, 0xE2, 0x92], &[0xA0, 0xCF, 0xB1, 0xF4, 0x35, 0x29, 0x4B, 0x9B])
        .unwrap();
    assert!(matches!(half_open.complete::<()>(&[0; 8]), Err(desox::Error::InvalidHandshakeResponse)));
}

#[test]
fn handshake_with_random_rnd_a() {
    let (handshake, command) = Handshake::begin(Key::Aes([0; 16]), 0x01);
    assert_eq!(vec![0xAA, 0x01], command);
    let (_, command) = handshake.rnd_b::<()>(&[7u8; 16]).unwrap();
    assert_eq!(33, command.len());
    assert_eq!(0xAF, command[0]);
}

#[test]
fn encryptor_chains_across_calls() {
    let mut scheme = Scheme::new(Key::Aes([0x0A; 16]));
    scheme.set_iv(&[0xEE; 16]);
    let mut whole = vec![0xFA; 48];
    let mut encryptor = scheme.encryptor();
    encryptor.encrypt(&mut whole);

    let mut parts = vec![0xFA; 48];
    let mut encryptor = scheme.encryptor();
    let (a, b) = parts.split_at_mut(16);
    encryptor.encrypt(a);
    encryptor.encrypt(b);
    assert_eq!(whole, parts);
    assert_eq!(&[0xEE; 16], scheme.get_iv());

    let mut decryptor = scheme.decryptor();
    decryptor.decrypt(&mut parts);
    assert_eq!(vec![0xFA; 48], parts);
}

#[test]
fn signed_message_validates_in_same_state() {
    let key = Key::Des([0xBA, 0x02, 0x0A, 0x16, 0xEC, 0xE6, 0x1C, 0x12]);
    let mut signer = KeyingState::new(key);
    let mut checker = KeyingState::new(key);
    let message = [0x04, 0x01, 0x01, 0x33, 0x00, 0x18, 0x05, 0x42, 0x17];
    let sig = signer.generate_cmac_short(&message, &[&[0x00]]);
    let mut data = message.to_vec();
    data.extend_from_slice(&sig);
    let back = checker.validate_cmac::<()>(&data, Some(&[0x00])).unwrap();
    assert_eq!(&message[..], back);
    assert_eq!(signer.get_iv(), checker.get_iv());

    let mut other = KeyingState::new(key);
    data[0] ^= 1;
    assert!(matches!(other.validate_cmac::<()>(&data, Some(&[0x00])), Err(desox::Error::InvalidSignature)));
}

#[test]
fn keying_state_derefs_to_its_scheme() {
    let ks = KeyingState::new(Key::Aes([1; 16]));
    assert_eq!(desox::Algorithm::Aes128, ks.algorithm());
    assert_eq!(&[1u8; 16], ks.get_key());
    assert_eq!(ks.scheme().get_iv(), ks.get_iv());
}

#[test]
fn accepted_handshake_answer_is_rotated_rnd_a_encrypted() {
    let mut scheme = Scheme::new(Key::Des([0; 8]));
    scheme.set_iv(&[0xF5, 0x98, 0x99, 0x56, 0x2A, 0x44, 0xC2, 0x77]);
    let mut answer = vec![0xCF, 0xB1, 0xF4, 0x35, 0x29, 0x4B, 0x9B, 0xA0];
    scheme.encrypt(&mut answer);
    assert_eq!(vec![0x8F, 0x72, 0x31, 0x73, 0x06, 0x1C, 0xFF, 0x81], answer);

    let mut card = Scheme::new(Key::Des([0; 8]));
    card.set_iv(&[0xBE, 0x06, 0xBE, 0x0C, 0xF7, 0x19, 0xE2, 0x92]);
    let mut sent = vec![0xDB, 0xEB, 0xDB, 0x42, 0xF0, 0xB8, 0x87, 0x0C, 0xF5, 0x98, 0x99, 0x56, 0x2A, 0x44, 0xC2, 0x77];
    card.decrypt(&mut sent);
    assert_eq!(&[0xA0, 0xCF, 0xB1, 0xF4, 0x35, 0x29, 0x4B, 0x9B], &sent[..8]);
}
