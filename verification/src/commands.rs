//! The card commands: how each request is laid out on the wire, and what
//! each reply means. The transport in between belongs to the caller.
use crate::card::{Card, Unauthenticated};
use crate::copy_to_slice::{append_slice, flatten_parts, parts_view};
use crate::crc::{crc32, desfire_crc32, le_bytes, u32_le_bytes, check_crc32, crc32_matches, crc_message};
use crate::crypto::{key_algorithm, xor_seq, Algorithm};
use crate::error::Error;
use crate::file::{file_communication_byte, FileCommunication, FilePermissions, FileSettings, FileType, file_communication_of_byte, file_type_of_byte};
use crate::instruction::{instruction_byte, Instruction};
use crate::io::Protection;
use crate::key::Key;
use crate::key_count::{key_count_byte, key_count_of_byte, KeyCount};
use crate::permissions::Permissions;
use crate::status_code::{status_code_byte, StatusCode};
use crate::u24::{u24_value, U24};
use crate::version_info::VersionInfo;
use crate::{ApplicationId, FileId, KeyId, Uid};
use vstd::prelude::*;
use vstd::slice::slice_subrange;
use vstd::slice::slice_to_vec;

verus! {

/// Check that a reply carries the expected status code; any other is
/// [Error::BadStatusCode].
pub fn expect_status<IoBackendErrorT>(expected: StatusCode, status: StatusCode) -> (r: Result<(), Error<IoBackendErrorT>>)
    ensures
        status == expected ==> r is Ok,
        status != expected ==> (r matches Err(Error::BadStatusCode(s)) && s == status),
{
    if status != expected {
        return Err(Error::BadStatusCode(status));
    }
    Ok(())
}

/// Check a reply that must carry no data and Ack: data is [Error::BadSize]
/// (checked first), another status [Error::BadStatusCode].
pub fn check_empty_ack<IoBackendErrorT>(status: StatusCode, response: &[u8]) -> (r: Result<(), Error<IoBackendErrorT>>)
    ensures
        response@.len() != 0 ==> r matches Err(Error::BadSize),
        response@.len() == 0 && status != StatusCode::Ack ==> (r matches Err(Error::BadStatusCode(s)) && s == status),
        response@.len() == 0 && status == StatusCode::Ack ==> r is Ok,
{
    if response.len() != 0 {
        return Err(Error::BadSize);
    }
    expect_status(StatusCode::Ack, status)
}

/// Check a reply that must carry Ack and no data: another status is
/// [Error::BadStatusCode] (checked first), data [Error::BadSize].
pub fn check_ack_empty<IoBackendErrorT>(status: StatusCode, response: &[u8]) -> (r: Result<(), Error<IoBackendErrorT>>)
    ensures
        status != StatusCode::Ack ==> (r matches Err(Error::BadStatusCode(s)) && s == status),
        status == StatusCode::Ack && response@.len() != 0 ==> r matches Err(Error::BadSize),
        status == StatusCode::Ack && response@.len() == 0 ==> r is Ok,
{
    if status != StatusCode::Ack {
        return Err(Error::BadStatusCode(status));
    }
    if response.len() != 0 {
        return Err(Error::BadSize);
    }
    Ok(())
}

/// The application ids in a reply: groups of three bytes.
pub open spec fn application_ids_of(response: Seq<u8>) -> Seq<Seq<u8>> {
    Seq::new(response.len() / 3, |i: int| response.subrange(3 * i, 3 * i + 3))
}

/// Interpret the reply to GetApplicationIdList: it must carry Ack
/// ([Error::BadStatusCode] otherwise) and a whole number of 3-byte ids
/// ([Error::BadSize] otherwise).
pub fn application_ids<IoBackendErrorT>(status: StatusCode, response: &[u8]) -> (r: Result<Vec<ApplicationId>, Error<IoBackendErrorT>>)
    ensures
        status != StatusCode::Ack ==> (r matches Err(Error::BadStatusCode(s)) && s == status),
        status == StatusCode::Ack && response@.len() % 3 != 0 ==> r matches Err(Error::BadSize),
        status == StatusCode::Ack && response@.len() % 3 == 0 ==> (r matches Ok(ids)
            && ids@.len() == response@.len() / 3
            && forall|i: int| 0 <= i < ids@.len() ==> (#[trigger] ids@[i])@ == application_ids_of(response@)[i]),
{
    if status != StatusCode::Ack {
        return Err(Error::BadStatusCode(status));
    }
    if response.len() % 3 != 0 {
        return Err(Error::BadSize);
    }
    let mut ids: Vec<ApplicationId> = Vec::new();
    let count = response.len() / 3;
    let mut i: usize = 0;
    while i < count
        invariant
            0 <= i <= count,
            count == response@.len() / 3,
            response@.len() % 3 == 0,
            ids@.len() == i,
            forall|j: int| 0 <= j < i ==> (#[trigger] ids@[j])@ == application_ids_of(response@)[j],
        decreases count - i,
    {
        assert(3 * i + 3 <= response@.len()) by (nonlinear_arith)
            requires i < count, count == response@.len() / 3;
        let len = response.len();
        assert(3 * i + 3 <= len);
        let base: usize = 3 * i;
        let id: ApplicationId = [response[base], response[base + 1], response[base + 2]];
        assert(id@ =~= application_ids_of(response@)[i as int]);
        ids.push(id);
        i = i + 1;
    }
    Ok(ids)
}

/// The SelectApplication command: the instruction, then the id.
pub fn select_application_command(application_id: ApplicationId) -> (r: [u8; 4])
    ensures
        r@ == seq![instruction_byte(Instruction::SelectApplication)] + application_id@,
{
    let r: [u8; 4] = [Instruction::SelectApplication.as_u8(), application_id[0], application_id[1], application_id[2]];
    assert(r@ =~= seq![instruction_byte(Instruction::SelectApplication)] + application_id@);
    r
}

/// Finish selecting an application: the reply must carry no data and Ack
/// (as [check_empty_ack]); then the (unauthenticated) card has the new
/// application selected.
pub fn select_application_finish<'card, IoBackendT, IoBackendErrorT>(
    card: Card<'card, IoBackendT, Unauthenticated>,
    application_id: ApplicationId,
    status: StatusCode,
    response: &[u8],
) -> (r: Result<Card<'card, IoBackendT, Unauthenticated>, Error<IoBackendErrorT>>)
    ensures
        response@.len() != 0 ==> r matches Err(Error::BadSize),
        response@.len() == 0 && status != StatusCode::Ack ==> (r matches Err(Error::BadStatusCode(s)) && s == status),
        response@.len() == 0 && status == StatusCode::Ack ==> (r matches Ok(c)
            && c.spec_application_id() == application_id && c.spec_backend() == card.spec_backend()),
{
    match check_empty_ack(status, response) {
        Ok(()) => Ok(card.with_application(application_id)),
        Err(e) => Err(e),
    }
}

/// The CreateApplication command: the instruction, the id, the key
/// settings byte and the key count byte. Settings or a count that cannot be
/// written are [Error::BadKeyId] (the settings are checked first).
pub fn create_application_command<IoBackendErrorT>(application_id: ApplicationId, key_settings: Permissions, key_number: KeyCount) -> (r: Result<[u8; 6], Error<IoBackendErrorT>>)
    ensures
        key_settings.spec_byte() is None || key_count_byte(key_number) is None ==> r matches Err(Error::BadKeyId),
        key_settings.spec_byte() is Some && key_count_byte(key_number) is Some ==> (r matches Ok(c)
            && c@ == seq![instruction_byte(Instruction::CreateApplication)] + application_id@
                + seq![key_settings.spec_byte().unwrap(), key_count_byte(key_number).unwrap()]),
{
    let ks = match key_settings.as_u8::<IoBackendErrorT>() {
        Ok(b) => b,
        Err(e) => return Err(e),
    };
    let kn = match key_number.as_u8::<IoBackendErrorT>() {
        Ok(b) => b,
        Err(e) => return Err(e),
    };
    let r: [u8; 6] = [Instruction::CreateApplication.as_u8(), application_id[0], application_id[1], application_id[2], ks, kn];
    assert(r@ =~= seq![instruction_byte(Instruction::CreateApplication)] + application_id@
        + seq![key_settings.spec_byte().unwrap(), key_count_byte(key_number).unwrap()]);
    Ok(r)
}

/// The DeleteApplication command: the instruction, then the id.
pub fn delete_application_command(application_id: ApplicationId) -> (r: [u8; 4])
    ensures
        r@ == seq![instruction_byte(Instruction::DeleteApplication)] + application_id@,
{
    let r: [u8; 4] = [Instruction::DeleteApplication.as_u8(), application_id[0], application_id[1], application_id[2]];
    assert(r@ =~= seq![instruction_byte(Instruction::DeleteApplication)] + application_id@);
    r
}

/// The bytes of a key, zero padded to 24 bytes.
pub open spec fn default_key_bytes(key: Key) -> Seq<u8> {
    key.spec_bytes() + Seq::new((24 - key.spec_bytes().len()) as nat, |i: int| 0u8)
}

/// The header of the SetConfiguration command that changes the default
/// application key: the instruction, then configuration key 0x01.
pub open spec fn default_key_header() -> Seq<u8> {
    seq![instruction_byte(Instruction::SetConfiguration), 0x01u8]
}

/// The little-endian CRC-32 of a header followed by data.
pub open spec fn crc_bytes(header: Seq<u8>, data: Seq<u8>) -> Seq<u8> {
    u32_le_bytes(desfire_crc32(header + data))
}

/// The request that changes the default application key: the header
/// (SetConfiguration, 0x01) in the clear, and the data to encrypt: the key
/// zero padded to 24 bytes, the key version, and the CRC-32 of header and
/// those bytes. The data travels encrypted, and the reply is CMAC signed.
pub fn change_default_application_key_request(key: Key, key_version: u8) -> (r: (Protection, [u8; 2], Vec<u8>))
    ensures
        r.0 == Protection::EncryptedOutCmacIn,
        r.1@ == default_key_header(),
        r.2@ == default_key_bytes(key) + seq![key_version]
            + crc_bytes(default_key_header(), default_key_bytes(key) + seq![key_version]),
{
    let mut default_key: [u8; 24] = [0u8; 24];
    let mut i: usize = 0;
    let kb: &[u8] = match &key {
        Key::Aes(k) => k.as_slice(),
        Key::Des(k) => k.as_slice(),
    };
    assert(kb@ == key.spec_bytes());
    while i < kb.len()
        invariant
            0 <= i <= kb@.len(),
            kb@.len() <= 24,
            default_key@.len() == 24,
            forall|j: int| 0 <= j < i ==> default_key@[j] == kb@[j],
            forall|j: int| i <= j < 24 ==> default_key@[j] == 0u8,
        decreases kb@.len() - i,
    {
        default_key[i] = kb[i];
        i = i + 1;
    }
    assert(default_key@ =~= default_key_bytes(key));
    let header: [u8; 2] = [Instruction::SetConfiguration.as_u8(), 0x01];
    assert(header@ =~= default_key_header());
    let version: [u8; 1] = [key_version];
    let parts: [&[u8]; 2] = [default_key.as_slice(), version.as_slice()];
    let crc = le_bytes(crc32(header.as_slice(), parts.as_slice()));
    proof { lemma_flatten_two(parts@, default_key@, version@); }
    let mut data: Vec<u8> = Vec::new();
    append_slice(&mut data, default_key.as_slice());
    append_slice(&mut data, version.as_slice());
    append_slice(&mut data, crc.as_slice());
    assert(version@ =~= seq![key_version]);
    (Protection::EncryptedOutCmacIn, header, data)
}

/// Flattening two parts gives their concatenation.
pub proof fn lemma_flatten_two(parts: Seq<&[u8]>, a: Seq<u8>, b: Seq<u8>)
    requires
        parts.len() == 2,
        parts[0]@ == a,
        parts[1]@ == b,
    ensures
        flatten_parts(parts_view(parts)) == a + b,
{
    let pv = parts_view(parts);
    assert(pv.drop_last().drop_last() =~= Seq::<Seq<u8>>::empty());
    assert(flatten_parts(pv.drop_last().drop_last()) =~= Seq::<u8>::empty());
    assert(flatten_parts(pv.drop_last()) =~= a);
}

/// Flattening one part gives that part.
pub proof fn lemma_flatten_one(parts: Seq<&[u8]>, a: Seq<u8>)
    requires
        parts.len() == 1,
        parts[0]@ == a,
    ensures
        flatten_parts(parts_view(parts)) == a,
{
    let pv = parts_view(parts);
    assert(pv.drop_last() =~= Seq::<Seq<u8>>::empty());
    assert(flatten_parts(pv.drop_last()) =~= Seq::<u8>::empty());
}

/// Interpret the reply to GetVersion: it must carry Ack
/// ([Error::BadStatusCode] otherwise) and exactly 28 bytes
/// ([Error::BadSize] otherwise).
pub fn version_info<IoBackendErrorT>(status: StatusCode, response: &[u8]) -> (r: Result<VersionInfo, Error<IoBackendErrorT>>)
    ensures
        status != StatusCode::Ack ==> (r matches Err(Error::BadStatusCode(s)) && s == status),
        status == StatusCode::Ack && response@.len() != 28 ==> r matches Err(Error::BadSize),
        status == StatusCode::Ack && response@.len() == 28 ==> (r matches Ok(v) && v.spec_bytes() == response@),
{
    if status != StatusCode::Ack {
        return Err(Error::BadStatusCode(status));
    }
    if response.len() != 28 {
        return Err(Error::BadSize);
    }
    let mut a: [u8; 28] = [0u8; 28];
    let mut i: usize = 0;
    while i < 28
        invariant
            0 <= i <= 28,
            response@.len() == 28,
            a@.len() == 28,
            forall|j: int| 0 <= j < i ==> a@[j] == response@[j],
        decreases 28 - i,
    {
        a[i] = response[i];
        i = i + 1;
    }
    assert(a@ =~= response@);
    Ok(VersionInfo::parse(&a))
}

/// Interpret the reply to ListFiles: it must carry Ack
/// ([Error::BadStatusCode] otherwise); its data are the file ids.
pub fn file_ids<IoBackendErrorT>(status: StatusCode, response: &[u8]) -> (r: Result<Vec<FileId>, Error<IoBackendErrorT>>)
    ensures
        status != StatusCode::Ack ==> (r matches Err(Error::BadStatusCode(s)) && s == status),
        status == StatusCode::Ack ==> (r matches Ok(ids) && ids@ == response@),
{
    if status != StatusCode::Ack {
        return Err(Error::BadStatusCode(status));
    }
    Ok(slice_to_vec(response))
}

/// The settings that a GetFileSettings reply of 7 bytes describes, or the
/// error its first failing field gives: file type, communication, then
/// permissions.
pub open spec fn file_settings_of<E>(b: Seq<u8>) -> Result<FileSettings, Error<E>> {
    match file_type_of_byte(b[0]) {
        None => Err(Error::UnsupportedFileType),
        Some(t) => match file_communication_of_byte(b[1]) {
            None => Err(Error::UnsupportedFileCommunication),
            Some(c) => match FilePermissions::spec_of_bytes(b.subrange(2, 4)) {
                None => Err(Error::BadKeyId),
                Some(p) => {
                    let size = u24_value(b.subrange(4, 7)) as u32;
                    match t {
                        FileType::Data => Ok(FileSettings::Data { communication: c, permissions: p, size }),
                        FileType::Backup => Ok(FileSettings::Backup { communication: c, permissions: p, size }),
                    }
                },
            },
        },
    }
}

/// Interpret the reply to GetFileSettings: it must carry Ack
/// ([Error::BadStatusCode] otherwise) and 7 bytes ([Error::BadSize]
/// otherwise): file type, communication, permissions (2 bytes) and size (3
/// bytes, little-endian).
pub fn file_settings<IoBackendErrorT>(status: StatusCode, response: &[u8]) -> (r: Result<FileSettings, Error<IoBackendErrorT>>)
    ensures
        status != StatusCode::Ack ==> (r matches Err(Error::BadStatusCode(s)) && s == status),
        status == StatusCode::Ack && response@.len() != 7 ==> r matches Err(Error::BadSize),
        status == StatusCode::Ack && response@.len() == 7 ==> match file_settings_of::<IoBackendErrorT>(response@) {
            Ok(fs) => r matches Ok(x) && x == fs,
            Err(Error::UnsupportedFileType) => r matches Err(Error::UnsupportedFileType),
            Err(Error::UnsupportedFileCommunication) => r matches Err(Error::UnsupportedFileCommunication),
            Err(_) => r matches Err(Error::BadKeyId),
        },
{
    if status != StatusCode::Ack {
        return Err(Error::BadStatusCode(status));
    }
    if response.len() != 7 {
        return Err(Error::BadSize);
    }
    let type_ = match FileType::from_u8::<IoBackendErrorT>(response[0]) {
        Ok(t) => t,
        Err(e) => return Err(e),
    };
    let communication = match FileCommunication::from_u8::<IoBackendErrorT>(response[1]) {
        Ok(c) => c,
        Err(e) => return Err(e),
    };
    let pb: [u8; 2] = [response[2], response[3]];
    assert(pb@ =~= response@.subrange(2, 4));
    let permissions = match FilePermissions::from_bytes::<IoBackendErrorT>(pb) {
        Ok(p) => p,
        Err(e) => return Err(e),
    };
    let sb: [u8; 3] = [response[4], response[5], response[6]];
    assert(sb@ =~= response@.subrange(4, 7));
    let size: u32 = U24::from_le_bytes(sb);
    match type_ {
        FileType::Data => Ok(FileSettings::Data { communication, permissions, size }),
        FileType::Backup => Ok(FileSettings::Backup { communication, permissions, size }),
    }
}

/// The CreateDataFile command for data file settings: the instruction, the
/// file id, the communication byte, the permission bytes, and the size (3
/// bytes, little-endian, the size modulo 2^24). Permissions that cannot be
/// written are [Error::BadKeyId].
pub fn create_file_command<IoBackendErrorT>(file_id: FileId, settings: FileSettings) -> (r: Result<[u8; 8], Error<IoBackendErrorT>>)
    requires
        settings is Data,
    ensures
        settings matches FileSettings::Data { communication, permissions, size } ==> ({
            &&& !permissions.spec_valid() ==> (r matches Err(Error::BadKeyId))
            &&& permissions.spec_valid() ==> (r matches Ok(c)
                && c@ == seq![instruction_byte(Instruction::CreateDataFile), file_id, file_communication_byte(communication)]
                    + permissions.spec_bytes() + size.spec_to_le())
        }),
{
    let (communication, permissions, size) = match settings {
        FileSettings::Data { communication, permissions, size } => (communication, permissions, size),
        FileSettings::Backup { communication, permissions, size } => (communication, permissions, size),
    };
    let p = match permissions.as_bytes::<IoBackendErrorT>() {
        Ok(p) => p,
        Err(e) => return Err(e),
    };
    let s: [u8; 3] = U24::to_le_bytes(size);
    let r: [u8; 8] = [Instruction::CreateDataFile.as_u8(), file_id, communication.as_u8(), p[0], p[1], s[0], s[1], s[2]];
    assert(r@ =~= seq![instruction_byte(Instruction::CreateDataFile), file_id, file_communication_byte(communication)]
        + permissions.spec_bytes() + size.spec_to_le());
    Ok(r)
}

/// The DeleteFile command: the instruction, then the file id.
pub fn delete_file_command(file_id: FileId) -> (r: [u8; 2])
    ensures
        r@ == seq![instruction_byte(Instruction::DeleteFile), file_id],
{
    let r: [u8; 2] = [Instruction::DeleteFile.as_u8(), file_id];
    assert(r@ =~= seq![instruction_byte(Instruction::DeleteFile), file_id]);
    r
}

/// Interpret the reply to GetFreeMemory: it must carry exactly 3 bytes
/// ([Error::BadSize] otherwise, checked first) and Ack
/// ([Error::BadStatusCode] otherwise); the bytes are the size,
/// little-endian.
pub fn free_memory<IoBackendErrorT>(status: StatusCode, response: &[u8]) -> (r: Result<u32, Error<IoBackendErrorT>>)
    ensures
        response@.len() != 3 ==> r matches Err(Error::BadSize),
        response@.len() == 3 && status != StatusCode::Ack ==> (r matches Err(Error::BadStatusCode(s)) && s == status),
        response@.len() == 3 && status == StatusCode::Ack ==> (r matches Ok(v) && v == u24_value(response@)),
{
    if response.len() != 3 {
        return Err(Error::BadSize);
    }
    if status != StatusCode::Ack {
        return Err(Error::BadStatusCode(status));
    }
    let b: [u8; 3] = [response[0], response[1], response[2]];
    assert(b@ =~= response@);
    Ok(U24::from_le_bytes(b))
}

/// Interpret the reply to GetKeySettings: it must carry exactly 2 bytes
/// ([Error::BadSize] otherwise, checked first) and Ack
/// ([Error::BadStatusCode] otherwise): the key settings byte, then the key
/// count byte (whose errors are those of [KeyCount::from_u8]).
pub fn key_settings<IoBackendErrorT>(status: StatusCode, response: &[u8]) -> (r: Result<(Permissions, KeyCount), Error<IoBackendErrorT>>)
    ensures
        response@.len() != 2 ==> r matches Err(Error::BadSize),
        response@.len() == 2 && status != StatusCode::Ack ==> (r matches Err(Error::BadStatusCode(s)) && s == status),
        response@.len() == 2 && status == StatusCode::Ack ==> match key_count_of_byte::<IoBackendErrorT>(response@[1]) {
            Ok(kc) => r matches Ok(x) && x.0 == Permissions::spec_of_byte(response@[0]) && x.1 == kc,
            Err(Error::BadKeyId) => r matches Err(Error::BadKeyId),
            Err(_) => r matches Err(Error::UnsupportedAlgorithm),
        },
{
    if response.len() != 2 {
        return Err(Error::BadSize);
    }
    if status != StatusCode::Ack {
        return Err(Error::BadStatusCode(status));
    }
    let p = Permissions::from_u8(response[0]);
    match KeyCount::from_u8::<IoBackendErrorT>(response[1]) {
        Ok(kc) => Ok((p, kc)),
        Err(e) => Err(e),
    }
}

/// The GetKeyVersion command: the instruction, then the key id.
pub fn key_version_command(key_id: KeyId) -> (r: [u8; 2])
    ensures
        r@ == seq![instruction_byte(Instruction::GetKeyVersion), key_id],
{
    let r: [u8; 2] = [Instruction::GetKeyVersion.as_u8(), key_id];
    assert(r@ =~= seq![instruction_byte(Instruction::GetKeyVersion), key_id]);
    r
}

/// Interpret the reply to GetKeyVersion: it must carry exactly 1 byte
/// ([Error::BadSize] otherwise, checked first) and Ack
/// ([Error::BadStatusCode] otherwise).
pub fn key_version<IoBackendErrorT>(status: StatusCode, response: &[u8]) -> (r: Result<u8, Error<IoBackendErrorT>>)
    ensures
        response@.len() != 1 ==> r matches Err(Error::BadSize),
        response@.len() == 1 && status != StatusCode::Ack ==> (r matches Err(Error::BadStatusCode(s)) && s == status),
        response@.len() == 1 && status == StatusCode::Ack ==> (r matches Ok(v) && v == response@[0]),
{
    if response.len() != 1 {
        return Err(Error::BadSize);
    }
    if status != StatusCode::Ack {
        return Err(Error::BadStatusCode(status));
    }
    Ok(response[0])
}

/// The request that changes the key settings: the header (ChangeKeySettings)
/// in the clear, and the data to encrypt: the settings byte and the CRC-32
/// of header and byte. Settings that cannot be written are
/// [Error::BadKeyId].
/// The data travels encrypted, and the reply is CMAC signed.
pub fn set_key_settings_request<IoBackendErrorT>(permissions: Permissions) -> (r: Result<(Protection, [u8; 1], Vec<u8>), Error<IoBackendErrorT>>)
    ensures
        permissions.spec_byte() is None ==> r matches Err(Error::BadKeyId),
        permissions.spec_byte() is Some ==> (r matches Ok(x) && x.0 == Protection::EncryptedOutCmacIn
            && x.1@ == seq![instruction_byte(Instruction::ChangeKeySettings)]
            && x.2@ == seq![permissions.spec_byte().unwrap()]
                + crc_bytes(seq![instruction_byte(Instruction::ChangeKeySettings)], seq![permissions.spec_byte().unwrap()])),
{
    let header: [u8; 1] = [Instruction::ChangeKeySettings.as_u8()];
    let b = match permissions.as_u8::<IoBackendErrorT>() {
        Ok(b) => b,
        Err(e) => return Err(e),
    };
    let body: [u8; 1] = [b];
    let parts: [&[u8]; 1] = [body.as_slice()];
    proof { lemma_flatten_one(parts@, body@); }
    let crc = le_bytes(crc32(header.as_slice(), parts.as_slice()));
    let mut data: Vec<u8> = Vec::new();
    data.push(b);
    append_slice(&mut data, crc.as_slice());
    assert(header@ =~= seq![instruction_byte(Instruction::ChangeKeySettings)]);
    assert(body@ =~= seq![permissions.spec_byte().unwrap()]);
    assert(data@ =~= seq![permissions.spec_byte().unwrap()]
        + crc_bytes(seq![instruction_byte(Instruction::ChangeKeySettings)], seq![permissions.spec_byte().unwrap()]));
    Ok((Protection::EncryptedOutCmacIn, header, data))
}

/// The header of a data file read or write: the instruction, the file id,
/// the offset and the length (each 3 bytes, little-endian, modulo 2^24).
pub open spec fn file_io_header(instruction: Instruction, file_id: FileId, offset: u32, length: u32) -> Seq<u8> {
    seq![instruction_byte(instruction), file_id] + offset.spec_to_le() + length.spec_to_le()
}

/// The ReadDataFile command for `length` bytes at `offset`.
pub fn read_file_command(file_id: FileId, offset: u32, length: u32) -> (r: [u8; 8])
    ensures
        r@ == file_io_header(Instruction::ReadDataFile, file_id, offset, length),
{
    let o: [u8; 3] = U24::to_le_bytes(offset);
    let l: [u8; 3] = U24::to_le_bytes(length);
    let r: [u8; 8] = [Instruction::ReadDataFile.as_u8(), file_id, o[0], o[1], o[2], l[0], l[1], l[2]];
    assert(r@ =~= file_io_header(Instruction::ReadDataFile, file_id, offset, length));
    r
}

/// The WriteDataFile header for `data` at `offset`: the size field is the
/// length of the data (as a u32, then modulo 2^24).
pub fn write_file_command(file_id: FileId, offset: u32, data: &[u8]) -> (r: [u8; 8])
    ensures
        r@ == file_io_header(Instruction::WriteDataFile, file_id, offset, data@.len() as u32),
{
    let o: [u8; 3] = U24::to_le_bytes(offset);
    let l: [u8; 3] = U24::to_le_bytes(data.len() as u32);
    let r: [u8; 8] = [Instruction::WriteDataFile.as_u8(), file_id, o[0], o[1], o[2], l[0], l[1], l[2]];
    assert(r@ =~= file_io_header(Instruction::WriteDataFile, file_id, offset, data@.len() as u32));
    r
}

/// The authenticated read of `length` bytes at `offset` from a file: the
/// ReadDataFile command, with a CMAC-signed reply for plain and CMAC files
/// and an encrypted reply for encrypted ones.
pub fn authenticated_read_request(file_id: FileId, communication: FileCommunication, offset: u32, length: u32) -> (r: (Protection, [u8; 8]))
    ensures
        r.1@ == file_io_header(Instruction::ReadDataFile, file_id, offset, length),
        communication == FileCommunication::Encrypted ==> r.0 == Protection::PlainOutEncryptedIn,
        communication != FileCommunication::Encrypted ==> r.0 == Protection::PlainOutCmacIn,
{
    let command = read_file_command(file_id, offset, length);
    match communication {
        FileCommunication::Encrypted => (Protection::PlainOutEncryptedIn, command),
        _ => (Protection::PlainOutCmacIn, command),
    }
}

/// The authenticated write of `data` at `offset` to a file: the
/// WriteDataFile header, and the data in the clear (plain files), CMAC
/// signed (CMAC files), or followed by the CRC-32 of header and data and
/// encrypted (encrypted files); the reply is CMAC signed.
pub fn authenticated_write_request(file_id: FileId, communication: FileCommunication, offset: u32, data: &[u8]) -> (r: (Protection, [u8; 8], Vec<u8>))
    ensures
        r.1@ == file_io_header(Instruction::WriteDataFile, file_id, offset, data@.len() as u32),
        communication == FileCommunication::Plain ==> r.0 == Protection::PlainOutCmacIn && r.2@ == data@,
        communication == FileCommunication::Cmac ==> r.0 == Protection::CmacOutCmacIn && r.2@ == data@,
        communication == FileCommunication::Encrypted ==> r.0 == Protection::EncryptedOutCmacIn
            && r.2@ == data@ + crc_bytes(r.1@, data@),
{
    let header = write_file_command(file_id, offset, data);
    match communication {
        FileCommunication::Plain => (Protection::PlainOutCmacIn, header, slice_to_vec(data)),
        FileCommunication::Cmac => (Protection::CmacOutCmacIn, header, slice_to_vec(data)),
        FileCommunication::Encrypted => {
            let body = encrypted_write_data(header.as_slice(), data);
            (Protection::EncryptedOutCmacIn, header, body)
        },
    }
}

/// Without authentication only plain and CMAC files can be read; reading an
/// encrypted file is [Error::BadFileCommunication].
pub fn unauthenticated_read_check<IoBackendErrorT>(communication: FileCommunication) -> (r: Result<(), Error<IoBackendErrorT>>)
    ensures
        communication == FileCommunication::Encrypted ==> r matches Err(Error::BadFileCommunication),
        communication != FileCommunication::Encrypted ==> r is Ok,
{
    match communication {
        FileCommunication::Encrypted => Err(Error::BadFileCommunication),
        _ => Ok(()),
    }
}

/// Without authentication only plain files can be written; a CMAC or
/// encrypted file is [Error::BadFileCommunication].
pub fn unauthenticated_write_check<IoBackendErrorT>(communication: FileCommunication) -> (r: Result<(), Error<IoBackendErrorT>>)
    ensures
        communication != FileCommunication::Plain ==> r matches Err(Error::BadFileCommunication),
        communication == FileCommunication::Plain ==> r is Ok,
{
    match communication {
        FileCommunication::Plain => Ok(()),
        _ => Err(Error::BadFileCommunication),
    }
}

/// Interpret the reply to a read without authentication: it must carry Ack
/// ([Error::BadStatusCode] otherwise); its data is the file content.
pub fn unauthenticated_read_result<IoBackendErrorT>(status: StatusCode, response: &[u8]) -> (r: Result<Vec<u8>, Error<IoBackendErrorT>>)
    ensures
        status != StatusCode::Ack ==> (r matches Err(Error::BadStatusCode(s)) && s == status),
        status == StatusCode::Ack ==> (r matches Ok(d) && d@ == response@),
{
    if status != StatusCode::Ack {
        return Err(Error::BadStatusCode(status));
    }
    Ok(slice_to_vec(response))
}

/// Interpret the reply to an authenticated read of `length` bytes: fewer
/// bytes are [Error::PartialRead] (checked first), a status other than Ack
/// [Error::BadStatusCode]; otherwise the first `length` bytes (any padding
/// after them is dropped).
pub fn authenticated_read_result<IoBackendErrorT>(status: StatusCode, response: &[u8], length: u32) -> (r: Result<Vec<u8>, Error<IoBackendErrorT>>)
    ensures
        response@.len() < length ==> r matches Err(Error::PartialRead),
        response@.len() >= length && status != StatusCode::Ack ==> (r matches Err(Error::BadStatusCode(s)) && s == status),
        response@.len() >= length && status == StatusCode::Ack ==> (r matches Ok(d) && d@ == response@.take(length as int)),
{
    if (response.len() as u64) < (length as u64) {
        return Err(Error::PartialRead);
    }
    if status != StatusCode::Ack {
        return Err(Error::BadStatusCode(status));
    }
    let n = length as usize;
    Ok(slice_to_vec(slice_subrange(response, 0, n)))
}

/// The data of an encrypted write: the data followed by the CRC-32 of the
/// header and the data.
pub fn encrypted_write_data(header: &[u8], data: &[u8]) -> (r: Vec<u8>)
    ensures
        r@ == data@ + crc_bytes(header@, data@),
{
    let parts: [&[u8]; 1] = [data];
    proof { lemma_flatten_one(parts@, data@); }
    let crc = le_bytes(crc32(header, parts.as_slice()));
    let mut out = slice_to_vec(data);
    append_slice(&mut out, crc.as_slice());
    out
}

/// The key id that ChangeKey names for the current key: in the default
/// application the high bit says whether the new key is AES.
pub open spec fn current_key_id(application_id: ApplicationId, key_id: KeyId, new_key: Key) -> KeyId {
    if application_id@ == seq![0u8, 0u8, 0u8] {
        match new_key {
            Key::Aes(_) => (key_id | 0x80) as u8,
            Key::Des(_) => key_id,
        }
    } else {
        key_id
    }
}

/// The data of a ChangeKey request for the current key: an AES key and its
/// version, or a DES key twice.
pub open spec fn change_current_key_data(new_key: Key, new_key_version: u8) -> Seq<u8> {
    match new_key {
        Key::Aes(k) => k@ + seq![new_key_version],
        Key::Des(k) => k@ + k@,
    }
}

/// The request that changes the key we are authenticated with, from the
/// selected application, the session algorithm and key id, and the new key:
/// the header (ChangeKey, key id) in the clear, and the data to encrypt
/// (the key data and the CRC-32 of header and key data). Outside the
/// default application the new key must use the session's algorithm
/// ([Error::BadAlgorithm] otherwise).
/// The data travels encrypted, and the reply is plain.
pub fn change_current_key_request<IoBackendErrorT>(
    application_id: ApplicationId,
    session_algorithm: Algorithm,
    key_id: KeyId,
    new_key: Key,
    new_key_version: u8,
) -> (r: Result<(Protection, [u8; 2], Vec<u8>), Error<IoBackendErrorT>>)
    ensures
        application_id@ != seq![0u8, 0u8, 0u8] && key_algorithm(new_key) != session_algorithm ==> r matches Err(Error::BadAlgorithm),
        application_id@ == seq![0u8, 0u8, 0u8] || key_algorithm(new_key) == session_algorithm ==> (r matches Ok(x) && x.0 == Protection::EncryptedOutPlainIn
            && x.1@ == seq![instruction_byte(Instruction::ChangeKey), current_key_id(application_id, key_id, new_key)]
            && x.2@ == change_current_key_data(new_key, new_key_version)
                + crc_bytes(x.1@, change_current_key_data(new_key, new_key_version))),
{
    let default_app = application_id[0] == 0 && application_id[1] == 0 && application_id[2] == 0;
    assert(default_app == (application_id@ == seq![0u8, 0u8, 0u8])) by {
        if default_app { assert(application_id@ =~= seq![0u8, 0u8, 0u8]); }
    }
    let mut kid = key_id;
    if default_app {
        match new_key {
            Key::Aes(_) => { kid = key_id | 0x80; },
            Key::Des(_) => {},
        }
    } else {
        let same = match (session_algorithm, new_key) {
            (Algorithm::Aes128, Key::Aes(_)) => true,
            (Algorithm::Des, Key::Des(_)) => true,
            _ => false,
        };
        if !same {
            return Err(Error::BadAlgorithm);
        }
    }
    let header: [u8; 2] = [Instruction::ChangeKey.as_u8(), kid];
    let mut body: Vec<u8> = Vec::new();
    match &new_key {
        Key::Aes(k) => {
            append_slice(&mut body, k.as_slice());
            body.push(new_key_version);
        },
        Key::Des(k) => {
            append_slice(&mut body, k.as_slice());
            append_slice(&mut body, k.as_slice());
        },
    }
    assert(body@ =~= change_current_key_data(new_key, new_key_version));
    let data = encrypted_write_data(header.as_slice(), body.as_slice());
    assert(header@ =~= seq![instruction_byte(Instruction::ChangeKey), current_key_id(application_id, key_id, new_key)]);
    Ok((Protection::EncryptedOutPlainIn, header, data))
}

/// The data of a ChangeKey request for another key, from the new key XOR-ed
/// with the current one: for AES the XOR-ed key, the version, the CRC-32 of
/// header, XOR-ed key and version, and the CRC-32 of the new key; for DES
/// the XOR-ed key, the CRC-32 of header and XOR-ed key, and the CRC-32 of
/// the new key.
pub open spec fn change_key_data(header: Seq<u8>, current_key: Key, new_key: Key, new_key_version: u8) -> Seq<u8> {
    let x = xor_seq(new_key.spec_bytes(), current_key.spec_bytes());
    let new_crc = u32_le_bytes(desfire_crc32(new_key.spec_bytes()));
    match new_key {
        Key::Aes(_) => x + seq![new_key_version] + crc_bytes(header, x + seq![new_key_version]) + new_crc,
        Key::Des(_) => x + crc_bytes(header, x) + new_crc,
    }
}

/// The card recovers the new key from the data of a ChangeKey request for
/// another key: XOR-ing its first bytes (as many as a key of that
/// algorithm has) with the current key gives the new key back.
pub proof fn lemma_change_key_recovers_new_key(header: Seq<u8>, current_key: Key, new_key: Key, new_key_version: u8)
    requires
        key_algorithm(current_key) == key_algorithm(new_key),
    ensures
        xor_seq(
            change_key_data(header, current_key, new_key, new_key_version).take(new_key.spec_bytes().len() as int),
            current_key.spec_bytes(),
        ) == new_key.spec_bytes(),
{
    let x = xor_seq(new_key.spec_bytes(), current_key.spec_bytes());
    let d = change_key_data(header, current_key, new_key, new_key_version);
    assert(d.take(new_key.spec_bytes().len() as int) =~= x);
    crate::crypto::lemma_xor_involution(new_key.spec_bytes(), current_key.spec_bytes());
}

/// The request that changes key `key_id` of the selected application,
/// proving knowledge of its current key: the header (ChangeKey, key id) in
/// the clear, and the data to encrypt ([change_key_data]). In the default
/// application this is [Error::NoSelectedApplication]; keys of different
/// algorithms, or a session of another algorithm, are
/// [Error::BadAlgorithm].
/// The data travels encrypted, and the reply is CMAC signed.
pub fn change_key_request<IoBackendErrorT>(
    application_id: ApplicationId,
    session_algorithm: Algorithm,
    key_id: KeyId,
    current_key: Key,
    new_key: Key,
    new_key_version: u8,
) -> (r: Result<(Protection, [u8; 2], Vec<u8>), Error<IoBackendErrorT>>)
    ensures
        application_id@ == seq![0u8, 0u8, 0u8] ==> r matches Err(Error::NoSelectedApplication),
        application_id@ != seq![0u8, 0u8, 0u8] && (key_algorithm(current_key) != key_algorithm(new_key)
            || session_algorithm != key_algorithm(new_key)) ==> r matches Err(Error::BadAlgorithm),
        application_id@ != seq![0u8, 0u8, 0u8] && key_algorithm(current_key) == key_algorithm(new_key)
            && session_algorithm == key_algorithm(new_key) ==> (r matches Ok(x) && x.0 == Protection::EncryptedOutCmacIn
            && x.1@ == seq![instruction_byte(Instruction::ChangeKey), key_id]
            && x.2@ == change_key_data(x.1@, current_key, new_key, new_key_version)),
{
    let default_app = application_id[0] == 0 && application_id[1] == 0 && application_id[2] == 0;
    assert(default_app == (application_id@ == seq![0u8, 0u8, 0u8])) by {
        if default_app { assert(application_id@ =~= seq![0u8, 0u8, 0u8]); }
    }
    if default_app {
        return Err(Error::NoSelectedApplication);
    }
    let header: [u8; 2] = [Instruction::ChangeKey.as_u8(), key_id];
    assert(header@ =~= seq![instruction_byte(Instruction::ChangeKey), key_id]);
    let version: [u8; 1] = [new_key_version];
    assert(version@ =~= seq![new_key_version]);
    match (current_key, new_key, session_algorithm) {
        (Key::Aes(cur), Key::Aes(new), Algorithm::Aes128) => {
            let empty: [&[u8]; 0] = [];
            assert(flatten_parts(parts_view(empty@)) =~= Seq::<u8>::empty());
            let new_crc = le_bytes(crc32(new.as_slice(), empty.as_slice()));
            assert(new@ + Seq::<u8>::empty() =~= new@);
            let mut x = new;
            crate::crypto::xor(&mut x, &cur);
            let parts: [&[u8]; 2] = [x.as_slice(), version.as_slice()];
            proof { lemma_flatten_two(parts@, x@, version@); }
            let crc = le_bytes(crc32(header.as_slice(), parts.as_slice()));
            let mut data: Vec<u8> = Vec::new();
            append_slice(&mut data, x.as_slice());
            data.push(new_key_version);
            append_slice(&mut data, crc.as_slice());
            append_slice(&mut data, new_crc.as_slice());
            assert(data@ =~= change_key_data(header@, current_key, new_key, new_key_version));
            Ok((Protection::EncryptedOutCmacIn, header, data))
        },
        (Key::Des(cur), Key::Des(new), Algorithm::Des) => {
            let empty: [&[u8]; 0] = [];
            assert(flatten_parts(parts_view(empty@)) =~= Seq::<u8>::empty());
            let new_crc = le_bytes(crc32(new.as_slice(), empty.as_slice()));
            assert(new@ + Seq::<u8>::empty() =~= new@);
            let mut x = new;
            crate::crypto::xor(&mut x, &cur);
            let parts: [&[u8]; 1] = [x.as_slice()];
            proof { lemma_flatten_one(parts@, x@); }
            let crc = le_bytes(crc32(header.as_slice(), parts.as_slice()));
            let mut data: Vec<u8> = Vec::new();
            append_slice(&mut data, x.as_slice());
            append_slice(&mut data, crc.as_slice());
            append_slice(&mut data, new_crc.as_slice());
            assert(data@ =~= change_key_data(header@, current_key, new_key, new_key_version));
            Ok((Protection::EncryptedOutCmacIn, header, data))
        },
        _ => Err(Error::BadAlgorithm),
    }
}

/// Interpret the (decrypted) reply to GetUid: its first 11 bytes must be the
/// 7-byte UID followed by the CRC-32 of UID and status byte
/// ([Error::InvalidCrc32] otherwise, checked first); the status must be Ack
/// ([Error::BadStatusCode] otherwise). The reply must hold at least 11
/// bytes.
pub fn uid<IoBackendErrorT>(status: StatusCode, response: &[u8]) -> (r: Result<Uid, Error<IoBackendErrorT>>)
    requires
        response@.len() >= 11,
    ensures
        ({
            let framed = response@.take(11);
            let trailer = seq![status_code_byte(status)];
            &&& !crc32_matches(framed, trailer) ==> (r matches Err(Error::InvalidCrc32))
            &&& crc32_matches(framed, trailer) && status != StatusCode::Ack ==> (r matches Err(Error::BadStatusCode(s)) && s == status)
            &&& crc32_matches(framed, trailer) && status == StatusCode::Ack ==> (r matches Ok(u) && u@ == response@.take(7))
        }),
{
    let framed = slice_subrange(response, 0, 11);
    let sb: [u8; 1] = [status.as_u8()];
    let parts: [&[u8]; 1] = [sb.as_slice()];
    proof { lemma_flatten_one(parts@, sb@); }
    assert(sb@ =~= seq![status_code_byte(status)]);
    let message = match check_crc32::<IoBackendErrorT>(framed, parts.as_slice()) {
        Ok(m) => m,
        Err(e) => return Err(e),
    };
    if status != StatusCode::Ack {
        return Err(Error::BadStatusCode(status));
    }
    assert(message@ =~= crc_message(framed@));
    let u: Uid = [message[0], message[1], message[2], message[3], message[4], message[5], message[6]];
    assert(u@ =~= response@.take(7));
    Ok(u)
}

/// How the ChangeKey request for the current key is laid out: the header is
/// the ChangeKey instruction (0xC4) and the session's key id, which carries
/// the AES flag 0x80 only in the default application 000000 and only for a
/// new AES key; the data is an AES key followed by its version, or a DES key
/// twice, and then the little-endian CRC-32 of the header and those bytes.
pub proof fn lemma_change_current_key_layout(application_id: ApplicationId, key_id: KeyId, new_key: Key, new_key_version: u8, header: Seq<u8>, data: Seq<u8>)
    requires
        header == seq![instruction_byte(Instruction::ChangeKey), current_key_id(application_id, key_id, new_key)],
        data == change_current_key_data(new_key, new_key_version) + crc_bytes(header, change_current_key_data(new_key, new_key_version)),
    ensures
        header.len() == 2,
        header[0] == 0xC4u8,
        application_id@ != seq![0u8, 0u8, 0u8] ==> header[1] == key_id,
        application_id@ == seq![0u8, 0u8, 0u8] && new_key is Des ==> header[1] == key_id,
        application_id@ == seq![0u8, 0u8, 0u8] && new_key is Aes ==> header[1] == key_id | 0x80u8,
        new_key matches Key::Aes(k) ==> ({
            &&& data.len() == 21
            &&& data.take(16) == k@
            &&& data[16] == new_key_version
            &&& data.skip(17) == u32_le_bytes(desfire_crc32(header + data.take(17)))
        }),
        new_key matches Key::Des(k) ==> ({
            &&& data.len() == 20
            &&& data.take(8) == k@
            &&& data.subrange(8, 16) == k@
            &&& data.skip(16) == u32_le_bytes(desfire_crc32(header + data.take(16)))
        }),
{
    match new_key {
        Key::Aes(k) => {
            let body = k@ + seq![new_key_version];
            assert(data.take(17) =~= body);
            assert(data.take(16) =~= k@);
            assert(data.skip(17) =~= crc_bytes(header, body));
        },
        Key::Des(k) => {
            let body = k@ + k@;
            assert(data.take(16) =~= body);
            assert(data.take(8) =~= k@);
            assert(data.subrange(8, 16) =~= k@);
            assert(data.skip(16) =~= crc_bytes(header, body));
        },
    }
}

/// How the ChangeKey data for another key is laid out: the new key XOR-ed
/// byte by byte with the current key; for AES then the key version; then
/// the little-endian CRC-32 of the header and those bytes; and last the
/// little-endian CRC-32 of the new key's own bytes.
pub proof fn lemma_change_key_layout(header: Seq<u8>, current_key: Key, new_key: Key, new_key_version: u8, data: Seq<u8>)
    requires
        key_algorithm(current_key) == key_algorithm(new_key),
        data == change_key_data(header, current_key, new_key, new_key_version),
    ensures
        new_key is Aes ==> ({
            &&& data.len() == 25
            &&& forall|i: int| 0 <= i < 16 ==> #[trigger] data[i] == new_key.spec_bytes()[i] ^ current_key.spec_bytes()[i]
            &&& data[16] == new_key_version
            &&& data.subrange(17, 21) == u32_le_bytes(desfire_crc32(header + data.take(17)))
            &&& data.skip(21) == u32_le_bytes(desfire_crc32(new_key.spec_bytes()))
        }),
        new_key is Des ==> ({
            &&& data.len() == 16
            &&& forall|i: int| 0 <= i < 8 ==> #[trigger] data[i] == new_key.spec_bytes()[i] ^ current_key.spec_bytes()[i]
            &&& data.subrange(8, 12) == u32_le_bytes(desfire_crc32(header + data.take(8)))
            &&& data.skip(12) == u32_le_bytes(desfire_crc32(new_key.spec_bytes()))
        }),
{
    let x = xor_seq(new_key.spec_bytes(), current_key.spec_bytes());
    match new_key {
        Key::Aes(_) => {
            let body = x + seq![new_key_version];
            assert(data.take(17) =~= body);
            assert(data.subrange(17, 21) =~= crc_bytes(header, body));
            assert(data.skip(21) =~= u32_le_bytes(desfire_crc32(new_key.spec_bytes())));
            assert forall|i: int| 0 <= i < 16 implies #[trigger] data[i] == new_key.spec_bytes()[i] ^ current_key.spec_bytes()[i] by {
                assert(data[i] == x[i]);
            }
        },
        Key::Des(_) => {
            assert(data.take(8) =~= x);
            assert(data.subrange(8, 12) =~= crc_bytes(header, x));
            assert(data.skip(12) =~= u32_le_bytes(desfire_crc32(new_key.spec_bytes())));
            assert forall|i: int| 0 <= i < 8 implies #[trigger] data[i] == new_key.spec_bytes()[i] ^ current_key.spec_bytes()[i] by {
                assert(data[i] == x[i]);
            }
        },
    }
}

} // verus!
