//! DESOx: a partial implementation of the MIFARE DESFire protocol.
//!
//! The library holds the wire encodings of the DESFire data structures, the
//! cryptographic session state shared by reader and card (CBC keying, CMAC
//! signatures, CRC-32 checksums), the authentication handshake, and the
//! decision logic of every card command. The transport that actually moves
//! bytes to a card is provided by the caller.
#![allow(unused_imports)]

mod card;
pub mod commands;
mod copy_to_slice;
mod crc;
mod crypto;
mod error;
mod file;
mod handshake;
mod instruction;
pub mod io;
mod key;
mod key_count;
mod key_settings;
mod keying;
mod mock;
mod padding;
mod permissions;
mod session;
mod status_code;
mod u24;
mod version_info;

pub use card::{Authenticated, AuthenticationState, Card, Unauthenticated};
pub use crc::{check_crc32, crc32};
pub use crypto::{xor, Algorithm, BackendDecryptor, BackendEncryptor, Decryptor, Encryptor, Scheme};
pub use error::Error;
pub use handshake::{HalfOpen, Handshake, Initial, Initiate, Successful};
pub use file::{FileCommunication, FilePermissions, FileSettings, FileType};
pub use instruction::Instruction;
pub use key::Key;
pub use key_count::KeyCount;
pub use keying::KeyingState;
pub use padding::Padding;
pub use u24::U24;
pub use version_info::{DetailedVersionInfo, VersionInfo};
pub use key_settings::{KeySettings, KeySettingsApp, KeySettingsPicc};
pub use permissions::{AppPermissions, KeyPermissions, Permissions};
pub use session::Session;
pub use status_code::StatusCode;

use vstd::prelude::*;

verus! {

/// MIFARE DESFire Cards all have a Unique ID ([Uid]). UIDs are 7 bytes long,
/// and are generally only readable after authentication.
pub type Uid = [u8; 7];

/// Applications on a card are identified by a 3-byte [ApplicationId].
pub type ApplicationId = [u8; 3];

/// Key slots on a card (the PICC key, and up to 14 application keys).
pub type KeyId = u8;

/// Files within an Application, from 0x00 to 0x1F (inclusive).
pub type FileId = u8;

/// A card which is currently unauthenticated.
pub type UnauthenticatedCard<'card, IoBackend> = Card<'card, IoBackend, Unauthenticated>;

/// A card which is currently authenticated.
pub type AuthenticatedCard<'card, IoBackend> = Card<'card, IoBackend, Authenticated>;

} // verus!
