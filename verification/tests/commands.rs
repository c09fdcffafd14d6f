use desox::commands::{
    application_ids, authenticated_read_result, change_current_key_request,
    change_default_application_key_request, change_key_request, check_ack_empty, check_empty_ack,
    create_application_command, create_file_command, delete_application_command,
    delete_file_command, file_ids, file_settings, key_settings, key_version, key_version_command,
    read_file_command, select_application_command, select_application_finish,
    set_key_settings_request, uid, unauthenticated_read_result, version_info, write_file_command,
};
use desox::io::{MockBackend, Protection};
use desox::{
    crc32, Algorithm, Card, Error, FileCommunication, FilePermissions, FileSettings, Key, KeyCount,
    KeyPermissions, Permissions, StatusCode,
};

#[test]
fn application_ids_in_groups_of_three() {
    let ids = application_ids::<()>(StatusCode::Ack, &[1, 2, 3, 4, 5, 6]).unwrap();
    assert_eq!(vec![[1, 2, 3], [4, 5, 6]], ids);
    assert!(application_ids::<()>(StatusCode::Ack, &[]).unwrap().is_empty());
    assert!(matches!(application_ids::<()>(StatusCode::Ack, &[1, 2, 3, 4]), Err(Error::BadSize)));
    assert!(matches!(
        application_ids::<()>(StatusCode::PermissionDenied, &[1, 2, 3]),
        Err(Error::BadStatusCode(StatusCode::PermissionDenied))
    ));
}

#[test]
fn empty_reply_checks_order() {
    assert!(check_empty_ack::<()>(StatusCode::Ack, &[]).is_ok());
    assert!(matches!(check_empty_ack::<()>(StatusCode::PermissionDenied, &[1]), Err(Error::BadSize)));
    assert!(matches!(
        check_empty_ack::<()>(StatusCode::PermissionDenied, &[]),
        Err(Error::BadStatusCode(StatusCode::PermissionDenied))
    ));
    assert!(matches!(
        check_ack_empty::<()>(StatusCode::PermissionDenied, &[1]),
        Err(Error::BadStatusCode(StatusCode::PermissionDenied))
    ));
    assert!(matches!(check_ack_empty::<()>(StatusCode::Ack, &[1]), Err(Error::BadSize)));
}

#[test]
fn application_commands() {
    assert_eq!([0x5A, 0x01, 0x02, 0x03], select_application_command([1, 2, 3]));
    assert_eq!([0xDA, 0x01, 0x02, 0x03], delete_application_command([1, 2, 3]));
    let command =
        create_application_command::<()>([1, 2, 3], Permissions::factory_default(), KeyCount::Aes(2))
            .unwrap();
    assert_eq!([0xCA, 0x01, 0x02, 0x03, 0x0F, 0x82], command);
    assert!(matches!(
        create_application_command::<()>([1, 2, 3], Permissions::factory_default(), KeyCount::Des(15)),
        Err(Error::BadKeyId)
    ));
}

#[test]
fn selecting_an_application() {
    let mb = MockBackend::new(&[]);
    let card = Card::new(&mb);
    assert_eq!([0, 0, 0], card.get_current_application());
    let card = select_application_finish::<_, ()>(card, [1, 2, 3], StatusCode::Ack, &[]).unwrap();
    assert_eq!([1, 2, 3], card.get_current_application());
    let r = select_application_finish::<_, ()>(card, [4, 5, 6], StatusCode::ApplicationDoesNotExist, &[]);
    assert!(matches!(r, Err(Error::BadStatusCode(StatusCode::ApplicationDoesNotExist))));
}

#[test]
fn default_application_key_request() {
    let (protection, header, data) = change_default_application_key_request(Key::Des([7; 8]), 3);
    assert_eq!(Protection::EncryptedOutCmacIn, protection);
    assert_eq!([0x5C, 0x01], header);
    assert_eq!(24 + 1 + 4, data.len());
    assert_eq!(&[7; 8], &data[..8]);
    assert_eq!(&[0; 16], &data[8..24]);
    assert_eq!(3, data[24]);
    assert_eq!(crc32(&header, &[&data[..25]]).to_le_bytes(), data[25..]);
}

#[test]
fn version_info_needs_28_bytes() {
    assert!(matches!(version_info::<()>(StatusCode::Ack, &[0; 27]), Err(Error::BadSize)));
    let info = version_info::<()>(StatusCode::Ack, &[0x04; 28]).unwrap();
    assert_eq!([0x04; 7], info.uid);
}

#[test]
fn file_listing_and_settings() {
    assert_eq!(vec![1, 2, 31], file_ids::<()>(StatusCode::Ack, &[1, 2, 31]).unwrap());
    let settings = file_settings::<()>(StatusCode::Ack, &[0x00, 0x03, 0x21, 0x43, 0x00, 0x04, 0x00]).unwrap();
    assert_eq!(
        FileSettings::Data {
            communication: FileCommunication::Encrypted,
            permissions: FilePermissions { change: 1, read_write: 2, write: 3, read: 4 },
            size: 1024,
        },
        settings
    );
    let backup = file_settings::<()>(StatusCode::Ack, &[0x01, 0x00, 0x00, 0x00, 0x10, 0x00, 0x00]).unwrap();
    assert!(matches!(backup, FileSettings::Backup { size: 16, .. }));
    assert!(matches!(
        file_settings::<()>(StatusCode::Ack, &[0x02, 0x00, 0x00, 0x00, 0x10, 0x00, 0x00]),
        Err(Error::UnsupportedFileType)
    ));
    assert!(matches!(
        file_settings::<()>(StatusCode::Ack, &[0x00, 0x02, 0x00, 0x00, 0x10, 0x00, 0x00]),
        Err(Error::UnsupportedFileCommunication)
    ));
    assert!(matches!(
        file_settings::<()>(StatusCode::Ack, &[0x00, 0x00, 0xF0, 0x00, 0x10, 0x00, 0x00]),
        Err(Error::BadKeyId)
    ));
    assert!(matches!(file_settings::<()>(StatusCode::Ack, &[0x00]), Err(Error::BadSize)));
}

#[test]
fn file_commands() {
    let settings = FileSettings::Data {
        communication: FileCommunication::Cmac,
        permissions: FilePermissions { change: 0, read_write: 1, write: 2, read: 14 },
        size: 0x012345,
    };
    assert_eq!(
        [0xCD, 0x05, 0x01, 0x10, 0xE2, 0x45, 0x23, 0x01],
        create_file_command::<()>(0x05, settings).unwrap()
    );
    let bad = FileSettings::Data {
        communication: FileCommunication::Plain,
        permissions: FilePermissions { change: 15, read_write: 1, write: 2, read: 3 },
        size: 1,
    };
    assert!(matches!(create_file_command::<()>(0x05, bad), Err(Error::BadKeyId)));
    assert_eq!([0xDF, 0x05], delete_file_command(0x05));
    assert_eq!([0xBD, 0x05, 0x01, 0x00, 0x00, 0x20, 0x00, 0x00], read_file_command(0x05, 1, 32));
    assert_eq!([0x3D, 0x05, 0x00, 0x01, 0x00, 0x03, 0x00, 0x00], write_file_command(0x05, 256, b"abc"));
}

#[test]
fn file_reads() {
    assert_eq!(vec![1, 2, 3], unauthenticated_read_result::<()>(StatusCode::Ack, &[1, 2, 3]).unwrap());
    assert!(matches!(
        unauthenticated_read_result::<()>(StatusCode::FileNotFound, &[]),
        Err(Error::BadStatusCode(StatusCode::FileNotFound))
    ));
    assert_eq!(vec![1, 2], authenticated_read_result::<()>(StatusCode::Ack, &[1, 2, 0x80, 0], 2).unwrap());
    assert!(matches!(authenticated_read_result::<()>(StatusCode::Ack, &[1], 2), Err(Error::PartialRead)));
    assert!(matches!(
        authenticated_read_result::<()>(StatusCode::PermissionDenied, &[1, 2], 2),
        Err(Error::BadStatusCode(StatusCode::PermissionDenied))
    ));
}

#[test]
fn key_replies() {
    let (permissions, count) = key_settings::<()>(StatusCode::Ack, &[0x0F, 0x01]).unwrap();
    assert_eq!(Permissions::factory_default(), permissions);
    assert_eq!(KeyCount::Des(1), count);
    assert!(matches!(key_settings::<()>(StatusCode::Ack, &[0x0F]), Err(Error::BadSize)));
    assert!(matches!(key_settings::<()>(StatusCode::Ack, &[0x0F, 0x41]), Err(Error::UnsupportedAlgorithm)));
    assert_eq!([0x64, 0x02], key_version_command(2));
    assert_eq!(7, key_version::<()>(StatusCode::Ack, &[7]).unwrap());
    assert!(matches!(key_version::<()>(StatusCode::Ack, &[7, 8]), Err(Error::BadSize)));
}

#[test]
fn key_settings_request() {
    let (protection, header, data) = set_key_settings_request::<()>(Permissions::factory_default()).unwrap();
    assert_eq!(Protection::EncryptedOutCmacIn, protection);
    assert_eq!([0x54], header);
    assert_eq!(0x0F, data[0]);
    assert_eq!(crc32(&header, &[&[0x0F]]).to_le_bytes(), data[1..]);
    let mut bad = Permissions::factory_default();
    bad.key = KeyPermissions::RequiresAppKey(14);
    assert!(matches!(set_key_settings_request::<()>(bad), Err(Error::BadKeyId)));
}

#[test]
fn changing_the_current_key() {
    let (protection, header, data) =
        change_current_key_request::<()>([0, 0, 0], Algorithm::Des, 0x00, Key::Aes([5; 16]), 1).unwrap();
    assert_eq!(Protection::EncryptedOutPlainIn, protection);
    assert_eq!([0xC4, 0x80], header);
    assert_eq!(16 + 1 + 4, data.len());
    assert_eq!(crc32(&header, &[&data[..17]]).to_le_bytes(), data[17..]);

    let (_, header, data) =
        change_current_key_request::<()>([1, 2, 3], Algorithm::Des, 0x02, Key::Des([6; 8]), 1).unwrap();
    assert_eq!([0xC4, 0x02], header);
    assert_eq!(&[6; 16], &data[..16]);
    assert_eq!(20, data.len());

    assert!(matches!(
        change_current_key_request::<()>([1, 2, 3], Algorithm::Des, 0x02, Key::Aes([6; 16]), 1),
        Err(Error::BadAlgorithm)
    ));
}

#[test]
fn changing_another_key() {
    assert!(matches!(
        change_key_request::<()>([0, 0, 0], Algorithm::Des, 1, Key::Des([0; 8]), Key::Des([1; 8]), 0),
        Err(Error::NoSelectedApplication)
    ));
    assert!(matches!(
        change_key_request::<()>([1, 2, 3], Algorithm::Des, 1, Key::Des([0; 8]), Key::Aes([1; 16]), 0),
        Err(Error::BadAlgorithm)
    ));
    assert!(matches!(
        change_key_request::<()>([1, 2, 3], Algorithm::Aes128, 1, Key::Des([0; 8]), Key::Des([1; 8]), 0),
        Err(Error::BadAlgorithm)
    ));

    let (protection, header, data) =
        change_key_request::<()>([1, 2, 3], Algorithm::Des, 1, Key::Des([0x0F; 8]), Key::Des([0xF1; 8]), 0)
            .unwrap();
    assert_eq!(Protection::EncryptedOutCmacIn, protection);
    assert_eq!([0xC4, 0x01], header);
    assert_eq!(&[0xFE; 8], &data[..8]);
    let recovered: Vec<u8> = data[..8].iter().zip([0x0Fu8; 8].iter()).map(|(a, b)| a ^ b).collect();
    assert_eq!(vec![0xF1; 8], recovered);
    assert_eq!(crc32(&header, &[&data[..8]]).to_le_bytes(), data[8..12]);
    assert_eq!(crc32(&[0xF1; 8], &[]).to_le_bytes(), data[12..16]);
    assert_eq!(16, data.len());

    let (_, _, data) =
        change_key_request::<()>([1, 2, 3], Algorithm::Aes128, 2, Key::Aes([0; 16]), Key::Aes([3; 16]), 9)
            .unwrap();
    assert_eq!(&[3; 16], &data[..16]);
    assert_eq!(9, data[16]);
    assert_eq!(16 + 1 + 4 + 4, data.len());
}

#[test]
fn uid_checks_its_crc() {
    let uid_bytes = [0x04, 0x4B, 0x1F, 0x9A, 0xDD, 0x1E, 0x90];
    let crc = crc32(&uid_bytes, &[&[0x00]]).to_le_bytes();
    let mut reply = uid_bytes.to_vec();
    reply.extend_from_slice(&crc);
    reply.extend_from_slice(&[0x80, 0, 0, 0, 0]);
    assert_eq!(uid_bytes, uid::<()>(StatusCode::Ack, &reply).unwrap());
    reply[0] ^= 1;
    assert!(matches!(uid::<()>(StatusCode::Ack, &reply), Err(Error::InvalidCrc32)));
}
