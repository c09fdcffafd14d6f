use desox::{
    AppPermissions, FileCommunication, FilePermissions, KeyCount, KeyPermissions, KeySettings,
    KeySettingsApp, KeySettingsPicc, Padding, Permissions, StatusCode, U24, Instruction,
};

#[test]
fn every_des_count() {
    for count_in in 1..=14 {
        let count_out = KeyCount::Des(count_in).as_u8::<()>().unwrap();
        assert_eq!(count_in, count_out);
    }
    for count_in in 15..=255 {
        assert!(KeyCount::Des(count_in).as_u8::<()>().is_err());
    }
}

#[test]
fn every_aes_count() {
    for count_in in 1..=14 {
        let count_out = KeyCount::Aes(count_in).as_u8::<()>().unwrap();
        assert_eq!(count_in | 0x80, count_out);
    }
    for count_in in 15..=255 {
        assert!(KeyCount::Aes(count_in).as_u8::<()>().is_err());
    }
}

#[test]
fn every_aes_round_trip() {
    for count_in in 1..=14 {
        let count_in = count_in | 0x80;
        let count = KeyCount::from_u8::<()>(count_in).unwrap();
        let count_out = count.as_u8::<()>().unwrap();
        assert_eq!(count_in, count_out);
    }
    for count_in in &[0, 15] {
        let count_in = count_in | 0x80;
        assert!(KeyCount::from_u8::<()>(count_in).is_err());
    }
}

#[test]
fn every_des_round_trip() {
    for count_in in 1..=14 {
        let count = KeyCount::from_u8::<()>(count_in).unwrap();
        let count_out = count.as_u8::<()>().unwrap();
        assert_eq!(count_in, count_out);
    }
    for count_in in [0u8, 15] {
        assert!(KeyCount::from_u8::<()>(count_in).is_err());
    }
}

#[test]
fn key_count_unsupported_algorithm() {
    assert!(matches!(KeyCount::from_u8::<()>(0x41), Err(desox::Error::UnsupportedAlgorithm)));
    assert!(matches!(KeyCount::from_u8::<()>(0x80), Err(desox::Error::BadKeyId)));
    assert_eq!(KeyCount::Aes(3), KeyCount::from_u8::<()>(0x83).unwrap());
}

#[test]
fn key_settings_every_settings_round_trips() {
    for key_settings in 0..0xff {
        let key_settings_parsed = KeySettings::from_u8(key_settings);
        let key_settings_rt = key_settings_parsed.as_u8::<()>().unwrap();
        assert_eq!(key_settings, key_settings_rt);
    }
}

#[test]
fn key_settings_factory_default() {
    let key_settings = KeySettings::from_u8(0x0F);
    assert_eq!(KeySettings::factory_default(), key_settings);
    assert_eq!(0x0F, key_settings.as_u8::<()>().unwrap());
}

#[test]
fn key_settings_app_a() {
    let expected = KeySettings {
        picc: KeySettingsPicc {
            can_change_key_settings: true,
            can_change_picc_key: true,
            anyone_can_delete: true,
            anyone_can_list: true,
        },
        app: KeySettingsApp::RequiresAppKey(10),
    };
    assert_eq!(expected, KeySettings::from_u8(0xAF));
    assert_eq!(0xAF, expected.as_u8::<()>().unwrap());
    assert_eq!(0x0F, expected.picc.as_u8());
}

#[test]
fn key_settings_bad_app_keys() {
    for bad in [0u8, 0x0E] {
        let ks = KeySettings {
            picc: KeySettingsPicc {
                can_change_key_settings: true,
                can_change_picc_key: true,
                anyone_can_delete: true,
                anyone_can_list: true,
            },
            app: KeySettingsApp::RequiresAppKey(bad),
        };
        assert!(matches!(ks.as_u8::<()>(), Err(desox::Error::BadKeyId)));
    }
}

#[test]
fn permissions_every_settings_round_trips() {
    for key_settings in 0..0xff {
        let key_settings_parsed = Permissions::from_u8(key_settings);
        let key_settings_rt = key_settings_parsed.as_u8::<()>().unwrap();
        assert_eq!(key_settings, key_settings_rt);
    }
}

#[test]
fn permissions_app_frozen_and_defaults() {
    let zero = Permissions {
        app: AppPermissions {
            can_change_key_settings: false,
            can_change_root_key: false,
            anyone_can_delete: false,
            anyone_can_list: false,
        },
        key: KeyPermissions::RequiresRoot,
    };
    assert_eq!(zero, Permissions::from_u8(0x00));
    assert_eq!(Permissions::factory_default(), Permissions::from_u8(0x0F));
    assert_eq!(KeyPermissions::Frozen, Permissions::from_u8(0xF0).key);
    assert_eq!(KeyPermissions::RequiresTargetedAppKey, Permissions::from_u8(0xE0).key);
    let bad = Permissions { app: zero.app, key: KeyPermissions::RequiresAppKey(0xE) };
    assert!(matches!(bad.as_u8::<()>(), Err(desox::Error::BadKeyId)));
}

#[test]
fn test_u32_io() {
    for i in 0..0xFFFFFFu32 {
        let tripplet = U24::to_le_bytes(i);
        let ii: u32 = U24::from_le_bytes(tripplet);
        assert_eq!(i, ii);
    }
}

#[test]
fn u24_drops_high_byte() {
    assert_eq!([0x56, 0x34, 0x12], U24::to_le_bytes(0xAB123456u32));
    let v: u32 = U24::from_le_bytes([0x00, 0x04, 0x00]);
    assert_eq!(1024, v);
}

#[test]
fn test_permissions_zero() {
    let fp = FilePermissions::from_bytes::<()>([0x00, 0x00]).unwrap();
    assert_eq!(0x00, fp.change);
    assert_eq!(0x00, fp.read_write);
    assert_eq!(0x00, fp.write);
    assert_eq!(0x00, fp.read);
}

#[test]
fn test_permissions_1234() {
    let fp = FilePermissions::from_bytes::<()>([0x21, 0x43]).unwrap();
    assert_eq!(0x01, fp.change);
    assert_eq!(0x02, fp.read_write);
    assert_eq!(0x03, fp.write);
    assert_eq!(0x04, fp.read);
    let fp_raw: [u8; 2] = fp.as_bytes::<()>().unwrap();
    assert_eq!([0x21, 0x43], fp_raw);
}

#[test]
fn file_permissions_reject_key_f() {
    assert!(matches!(FilePermissions::from_bytes::<()>([0xF0, 0x00]), Err(desox::Error::BadKeyId)));
    let fp = FilePermissions { change: 15, read_write: 0, write: 0, read: 0 };
    assert!(matches!(fp.as_bytes::<()>(), Err(desox::Error::BadKeyId)));
}

#[test]
fn file_communication_codes() {
    for (b, fc) in [(0x00u8, FileCommunication::Plain), (0x01, FileCommunication::Cmac), (0x03, FileCommunication::Encrypted)] {
        assert_eq!(fc, FileCommunication::from_u8::<()>(b).unwrap());
        assert_eq!(b, fc.as_u8());
    }
    assert!(matches!(FileCommunication::from_u8::<()>(0x02), Err(desox::Error::UnsupportedFileCommunication)));
}

#[test]
fn status_codes_round_trip() {
    for b in 0..=255u8 {
        assert_eq!(b, StatusCode::from_u8(b).as_u8());
        let sc: StatusCode = b.into();
        let back: u8 = sc.into();
        assert_eq!(b, back);
    }
    assert_eq!(StatusCode::AdditionalData, StatusCode::from_u8(0xAF));
    assert_eq!(StatusCode::Other(0x42), StatusCode::from_u8(0x42));
    assert_eq!(0x00, StatusCode::Other(0x00).as_u8());
    assert_eq!(StatusCode::Ack, StatusCode::from_u8(StatusCode::Other(0x00).as_u8()));
}

#[test]
fn instruction_opcodes() {
    assert_eq!(0xAF, Instruction::AdditionalData.as_u8());
    assert_eq!(0x6E, Instruction::GetFreeMemory.as_u8());
    assert_eq!(0x1A, Instruction::AuthenticateDes.as_u8());
    assert_eq!(0xAA, Instruction::AuthenticateAes.as_u8());
    assert_eq!(0xBD, Instruction::ReadDataFile.as_u8());
}

#[test]
fn test_padding() {
    let mut v = [0u8; 16];
    v[..11].copy_from_slice(b"HELLO WORLD");
    Padding::pad(&mut v, 11);
    assert_eq!(*b"HELLO WORLD\x80\x00\x00\x00\x00", v);
}

#[test]
fn test_padding_max() {
    let mut v = [0u8; 16];
    v[..11].copy_from_slice(b"HELLO WORLD");
    Padding::pad(&mut v, 15);
    assert_eq!(*b"HELLO WORLD\x00\x00\x00\x00\x80", v);
}

#[test]
fn padding_overwrites_stale_bytes() {
    let mut v = [0xFFu8; 8];
    Padding::pad(&mut v, 2);
    assert_eq!([0xFF, 0xFF, 0x80, 0, 0, 0, 0, 0], v);
}

#[test]
fn version_info_parse() {
    let raw: [u8; 28] = [
        0x04, 0x01, 0x01, 0x33, 0x00, 0x18, 0x05, 0x04, 0x01, 0x01, 0x03, 0x00, 0x18, 0x05, 0x04,
        0x4B, 0x1F, 0x9A, 0xDD, 0x1E, 0x90, 0x21, 0x13, 0x62, 0x30, 0x30, 0x40, 0x24,
    ];
    let vi = desox::VersionInfo::parse(&raw);
    assert_eq!(0x04, vi.hardware.vendor_id);
    assert_eq!(0x33, vi.hardware.major_version);
    assert_eq!(0x03, vi.software.major_version);
    assert_eq!(0x18, vi.software.storage_size);
    assert_eq!([0x04, 0x4B, 0x1F, 0x9A, 0xDD, 0x1E, 0x90], vi.uid);
    assert_eq!([0x21, 0x13, 0x62, 0x30, 0x30], vi.production_batch_number);
    assert_eq!(0x40, vi.production_calendar_week);
    assert_eq!(0x24, vi.production_year);
}
