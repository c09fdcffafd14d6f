use crate::error::Error;
use crate::KeyId;
use vstd::prelude::*;

verus! {

/// How communication with a File must be done.
#[derive(Copy, Clone, Debug, PartialEq, Eq, Structural)]
pub enum FileCommunication {
    /// Plain reads and writes are allowed
    Plain,
    /// Writes must be CMAC Signed
    Cmac,
    /// Writes must be Encrypted
    Encrypted,
}

/// The wire byte of a communication setting.
pub open spec fn file_communication_byte(fc: FileCommunication) -> u8 {
    match fc {
        FileCommunication::Plain => 0x00,
        FileCommunication::Cmac => 0x01,
        FileCommunication::Encrypted => 0x03,
    }
}

/// The communication setting a wire byte stands for (`None` where the byte
/// is none of 0x00, 0x01 and 0x03).
pub open spec fn file_communication_of_byte(ft: u8) -> Option<FileCommunication> {
    if ft == 0x00 {
        Some(FileCommunication::Plain)
    } else if ft == 0x01 {
        Some(FileCommunication::Cmac)
    } else if ft == 0x03 {
        Some(FileCommunication::Encrypted)
    } else {
        None
    }
}

impl FileCommunication {
    /// Parse the wire encoded file communication; any byte other than 0x00,
    /// 0x01 and 0x03 is [Error::UnsupportedFileCommunication].
    pub fn from_u8<IoBackendErrorT>(ft: u8) -> (r: Result<Self, Error<IoBackendErrorT>>)
        ensures
            match file_communication_of_byte(ft) {
                Some(fc) => r matches Ok(x) && x == fc,
                None => r matches Err(Error::UnsupportedFileCommunication),
            },
    {
        match ft {
            0x00 => Ok(FileCommunication::Plain),
            0x01 => Ok(FileCommunication::Cmac),
            0x03 => Ok(FileCommunication::Encrypted),
            _ => Err(Error::UnsupportedFileCommunication),
        }
    }

    /// Return the [FileCommunication] as a serialized u8 value, as seen over
    /// the wire.
    pub fn as_u8(&self) -> (r: u8)
        ensures
            r == file_communication_byte(*self),
    {
        match self {
            FileCommunication::Plain => 0x00,
            FileCommunication::Cmac => 0x01,
            FileCommunication::Encrypted => 0x03,
        }
    }
}

/// A communication setting written as a byte reads back as itself, and a
/// byte that reads as a setting is written back as that byte.
pub proof fn lemma_file_communication_round_trip(fc: FileCommunication, b: u8)
    ensures
        file_communication_of_byte(file_communication_byte(fc)) == Some(fc),
        file_communication_of_byte(b) matches Some(x) ==> file_communication_byte(x) == b,
{
}

/// Kinds of File.
#[derive(Copy, Clone, Debug, PartialEq, Eq, Structural)]
pub enum FileType {
    /// Standard data file (0x00)
    Data,
    /// Backup data file (0x01)
    Backup,
}

/// The file type a wire byte stands for (`None` for an unsupported type).
pub open spec fn file_type_of_byte(b: u8) -> Option<FileType> {
    if b == 0x00 {
        Some(FileType::Data)
    } else if b == 0x01 {
        Some(FileType::Backup)
    } else {
        None
    }
}

impl FileType {
    /// Parse the wire encoded file type; any byte other than 0x00 and 0x01
    /// is [Error::UnsupportedFileType].
    pub fn from_u8<IoBackendErrorT>(b: u8) -> (r: Result<Self, Error<IoBackendErrorT>>)
        ensures
            match file_type_of_byte(b) {
                Some(t) => r matches Ok(x) && x == t,
                None => r matches Err(Error::UnsupportedFileType),
            },
    {
        match b {
            0x00 => Ok(FileType::Data),
            0x01 => Ok(FileType::Backup),
            _ => Err(Error::UnsupportedFileType),
        }
    }
}

/// File permissions
#[derive(Copy, Clone, Debug, PartialEq, Eq, Structural)]
pub struct FilePermissions {
    /// Permission to change permission key ACLs
    pub change: KeyId,
    /// Permission to read *AND* write to the file.
    pub read_write: KeyId,
    /// Permission to write to the file.
    pub write: KeyId,
    /// Permission to read the file.
    pub read: KeyId,
}

/// Settings of a File.
#[derive(Copy, Clone, Debug, PartialEq, Eq, Structural)]
pub enum FileSettings {
    /// A standard data file.
    Data {
        /// How to communicate with the file.
        communication: FileCommunication,
        /// Access rights.
        permissions: FilePermissions,
        /// Size in bytes (24 bits on the wire).
        size: u32,
    },
    /// A backup data file.
    Backup {
        /// How to communicate with the file.
        communication: FileCommunication,
        /// Access rights.
        permissions: FilePermissions,
        /// Size in bytes (24 bits on the wire).
        size: u32,
    },
}

/// Key ids that fit in a permission nibble: 0 to 14 (0xF is reserved).
pub open spec fn valid_kid(kid: u8) -> bool {
    kid <= 14
}

fn kid_to_nibble<IoBackendErrorT>(kid: KeyId) -> (r: Result<u8, Error<IoBackendErrorT>>)
    ensures
        valid_kid(kid) ==> (r matches Ok(x) && x == kid),
        !valid_kid(kid) ==> r matches Err(Error::BadKeyId),
{
    if kid <= 14 {
        Ok(kid)
    } else {
        Err(Error::BadKeyId)
    }
}

fn nibble_to_kid<IoBackendErrorT>(kid: u8) -> (r: Result<KeyId, Error<IoBackendErrorT>>)
    ensures
        valid_kid(kid) ==> (r matches Ok(x) && x == kid),
        !valid_kid(kid) ==> r matches Err(Error::BadKeyId),
{
    if kid <= 14 {
        Ok(kid)
    } else {
        Err(Error::BadKeyId)
    }
}

fn byte_to_kids<IoBackendErrorT>(byte: u8) -> (r: Result<(KeyId, KeyId), Error<IoBackendErrorT>>)
    ensures
        valid_kid(byte & 0x0F) && valid_kid(byte >> 4) ==> (r matches Ok(x) && x == (byte & 0x0F, byte >> 4)),
        !(valid_kid(byte & 0x0F) && valid_kid(byte >> 4)) ==> r matches Err(Error::BadKeyId),
{
    let lo = match nibble_to_kid(byte & 0x0F) {
        Ok(k) => k,
        Err(e) => return Err(e),
    };
    assert((byte & 0xF0) >> 4 == byte >> 4) by (bit_vector);
    let hi = match nibble_to_kid((byte & 0xF0) >> 4) {
        Ok(k) => k,
        Err(e) => return Err(e),
    };
    Ok((lo, hi))
}

impl FilePermissions {
    /// Every key id fits in a nibble.
    pub open spec fn spec_valid(self) -> bool {
        valid_kid(self.change) && valid_kid(self.read_write) && valid_kid(self.write) && valid_kid(self.read)
    }

    /// The two wire bytes: change | read_write << 4, then write | read << 4.
    pub open spec fn spec_bytes(self) -> Seq<u8> {
        seq![(self.change | (self.read_write << 4u8)) as u8, (self.write | (self.read << 4u8)) as u8]
    }

    /// The permissions two wire bytes stand for, where every nibble holds a
    /// valid key id.
    pub open spec fn spec_of_bytes(fp: Seq<u8>) -> Option<Self> {
        let p = FilePermissions { change: fp[0] & 0x0F, read_write: fp[0] >> 4, write: fp[1] & 0x0F, read: fp[1] >> 4 };
        if p.spec_valid() { Some(p) } else { None }
    }

    /// Parse the wire encoded permissions; a nibble of 0xF is
    /// [Error::BadKeyId].
    pub fn from_bytes<IoBackendErrorT>(fp: [u8; 2]) -> (r: Result<Self, Error<IoBackendErrorT>>)
        ensures
            match Self::spec_of_bytes(fp@) {
                Some(p) => r matches Ok(x) && x == p,
                None => r matches Err(Error::BadKeyId),
            },
    {
        let fp1 = fp[0];
        let fp2 = fp[1];
        let (change, read_write) = match byte_to_kids(fp1) {
            Ok(k) => k,
            Err(e) => return Err(e),
        };
        let (write, read) = match byte_to_kids(fp2) {
            Ok(k) => k,
            Err(e) => return Err(e),
        };
        Ok(FilePermissions { change, read_write, write, read })
    }

    /// Return the [FilePermissions] as bytes; a key id above 14 is
    /// [Error::BadKeyId].
    pub fn as_bytes<IoBackendErrorT>(&self) -> (r: Result<[u8; 2], Error<IoBackendErrorT>>)
        ensures
            self.spec_valid() ==> (r matches Ok(x) && x@ == self.spec_bytes()),
            !self.spec_valid() ==> r matches Err(Error::BadKeyId),
    {
        let c = match kid_to_nibble(self.change) { Ok(k) => k, Err(e) => return Err(e) };
        let rw = match kid_to_nibble(self.read_write) { Ok(k) => k, Err(e) => return Err(e) };
        let w = match kid_to_nibble(self.write) { Ok(k) => k, Err(e) => return Err(e) };
        let rd = match kid_to_nibble(self.read) { Ok(k) => k, Err(e) => return Err(e) };
        let r: [u8; 2] = [c | (rw << 4u8), w | (rd << 4u8)];
        assert(r@ =~= self.spec_bytes());
        Ok(r)
    }
}

/// Valid permissions written as bytes read back as themselves.
pub proof fn lemma_file_permissions_round_trip(p: FilePermissions)
    requires
        p.spec_valid(),
    ensures
        FilePermissions::spec_of_bytes(p.spec_bytes()) == Some(p),
{
    let (c, rw, w, r) = (p.change, p.read_write, p.write, p.read);
    let b0 = (c | (rw << 4u8)) as u8;
    let b1 = (w | (r << 4u8)) as u8;
    assert((b0 & 0x0F) == c && (b0 >> 4) == rw) by (bit_vector)
        requires c <= 14, rw <= 14, b0 == (c | (rw << 4u8)) as u8;
    assert((b1 & 0x0F) == w && (b1 >> 4) == r) by (bit_vector)
        requires w <= 14, r <= 14, b1 == (w | (r << 4u8)) as u8;
}

/// Two bytes that read as permissions are written back as those bytes.
pub proof fn lemma_file_permissions_bytes_round_trip(fp: Seq<u8>)
    requires
        fp.len() == 2,
        FilePermissions::spec_of_bytes(fp) is Some,
    ensures
        FilePermissions::spec_of_bytes(fp).unwrap().spec_bytes() == fp,
{
    let (b0, b1) = (fp[0], fp[1]);
    assert(((b0 & 0x0F) | ((b0 >> 4) << 4u8)) as u8 == b0) by (bit_vector);
    assert(((b1 & 0x0F) | ((b1 >> 4) << 4u8)) as u8 == b1) by (bit_vector);
    assert(FilePermissions::spec_of_bytes(fp).unwrap().spec_bytes() =~= fp);
}

/// What the communication byte means: 0x00 plain, 0x01 CMAC, 0x03
/// encrypted; no other byte names a setting.
pub proof fn lemma_file_communication_meaning(b: u8)
    ensures
        file_communication_of_byte(b) == Some(FileCommunication::Plain) <==> b == 0x00,
        file_communication_of_byte(b) == Some(FileCommunication::Cmac) <==> b == 0x01,
        file_communication_of_byte(b) == Some(FileCommunication::Encrypted) <==> b == 0x03,
        file_communication_of_byte(b) is None <==> (b != 0x00 && b != 0x01 && b != 0x03),
        file_communication_byte(FileCommunication::Plain) == 0x00,
        file_communication_byte(FileCommunication::Cmac) == 0x01,
        file_communication_byte(FileCommunication::Encrypted) == 0x03,
{
}

/// Where each key id of file permissions sits in the two wire bytes: the
/// change key in the low nibble of the first byte, the read-and-write key
/// in its high nibble, the write key in the low nibble of the second byte
/// and the read key in its high nibble. Reading the bytes gives these, and
/// writing valid permissions puts them there.
pub proof fn lemma_file_permissions_layout(fp: Seq<u8>, p: FilePermissions)
    requires
        fp.len() == 2,
    ensures
        FilePermissions::spec_of_bytes(fp) == Some(p) ==> ({
            &&& p.change == fp[0] & 0x0F
            &&& p.read_write == fp[0] >> 4u8
            &&& p.write == fp[1] & 0x0F
            &&& p.read == fp[1] >> 4u8
        }),
        p.spec_valid() ==> ({
            let b = p.spec_bytes();
            &&& b[0] & 0x0F == p.change
            &&& b[0] >> 4u8 == p.read_write
            &&& b[1] & 0x0F == p.write
            &&& b[1] >> 4u8 == p.read
        }),
{
    if p.spec_valid() {
        let (c, rw, w, r) = (p.change, p.read_write, p.write, p.read);
        let b0 = (c | (rw << 4u8)) as u8;
        let b1 = (w | (r << 4u8)) as u8;
        assert((b0 & 0x0F) == c && (b0 >> 4u8) == rw) by (bit_vector)
            requires c <= 14, rw <= 14, b0 == (c | (rw << 4u8)) as u8;
        assert((b1 & 0x0F) == w && (b1 >> 4u8) == r) by (bit_vector)
            requires w <= 14, r <= 14, b1 == (w | (r << 4u8)) as u8;
    }
}

} // verus!
