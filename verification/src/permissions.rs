use crate::error::Error;
use crate::KeyId;
use vstd::prelude::*;

verus! {

/// Global (PICC-wide) and Application-specific permissions and
/// configuration.
#[derive(Copy, Clone, Debug, PartialEq, Eq, Structural)]
pub struct Permissions {
    /// Key Settings specific to the Root Key.
    pub app: AppPermissions,
    /// Permissions regarding key changes within the current Application.
    pub key: KeyPermissions,
}

/// Application-wide permissions: what is required to take app-wide
/// destructive actions.
#[derive(Copy, Clone, Debug, PartialEq, Eq, Structural)]
pub struct AppPermissions {
    /// If true, the key settings can be changed; if false they are locked.
    pub can_change_key_settings: bool,
    /// If true, the root key ("master key") can be changed.
    pub can_change_root_key: bool,
    /// If true, deleting applications does not require the root key.
    pub anyone_can_delete: bool,
    /// If true, listing applications does not require the root key.
    pub anyone_can_list: bool,
}

/// Application-specific Key settings: which key is required to change an
/// Application key.
#[derive(Copy, Clone, Debug, PartialEq, Eq, Structural)]
pub enum KeyPermissions {
    /// Changing an Application key requires the Root Key.
    RequiresRoot,
    /// Changing an Application key requires the given Application key
    /// (within 1 to 13, inclusive).
    RequiresAppKey(KeyId),
    /// Changing an Application key requires the key to be changed itself.
    RequiresTargetedAppKey,
    /// Application keys may not be changed.
    Frozen,
}

impl AppPermissions {
    /// The low nibble that encodes these flags: bit 0 "can change root key",
    /// bit 1 "anyone can list", bit 2 "anyone can delete", bit 3 "can
    /// change key settings".
    pub open spec fn spec_byte(self) -> u8 {
        (if self.can_change_root_key { 0x01u8 } else { 0u8 })
            | (if self.anyone_can_list { 0x02u8 } else { 0u8 })
            | (if self.anyone_can_delete { 0x04u8 } else { 0u8 })
            | (if self.can_change_key_settings { 0x08u8 } else { 0u8 })
    }

    /// The flags that a key settings byte holds in its low nibble.
    pub open spec fn spec_of_byte(ks: u8) -> Self {
        AppPermissions {
            can_change_root_key: (ks & 0x01) != 0,
            anyone_can_list: (ks & 0x02) != 0,
            anyone_can_delete: (ks & 0x04) != 0,
            can_change_key_settings: (ks & 0x08) != 0,
        }
    }

    /// Create a new [AppPermissions] from an encoded key settings byte.
    pub(crate) fn from_u8(ks: u8) -> (r: Self)
        ensures
            r == Self::spec_of_byte(ks),
    {
        AppPermissions {
            can_change_root_key: (ks & 0x01) != 0,
            anyone_can_list: (ks & 0x02) != 0,
            anyone_can_delete: (ks & 0x04) != 0,
            can_change_key_settings: (ks & 0x08) != 0,
        }
    }

    /// Create the encoded key settings bits of these flags.
    pub fn as_u8(&self) -> (r: u8)
        ensures
            r == self.spec_byte(),
    {
        (if self.can_change_root_key { 0x01u8 } else { 0u8 })
            | (if self.anyone_can_list { 0x02u8 } else { 0u8 })
            | (if self.anyone_can_delete { 0x04u8 } else { 0u8 })
            | (if self.can_change_key_settings { 0x08u8 } else { 0u8 })
    }
}

impl KeyPermissions {
    /// The high-nibble value of this setting, `None` where a key id is out
    /// of the range 1 to 13.
    pub open spec fn spec_nibble(self) -> Option<u8> {
        match self {
            KeyPermissions::RequiresRoot => Some(0x00u8),
            KeyPermissions::RequiresAppKey(key) => if 0x01 <= key <= 0x0D { Some(key) } else { None },
            KeyPermissions::RequiresTargetedAppKey => Some(0x0Eu8),
            KeyPermissions::Frozen => Some(0x0Fu8),
        }
    }

    /// The setting that the high nibble of a key settings byte stands for.
    pub open spec fn spec_of_byte(ks: u8) -> Self {
        let hi = ks >> 4;
        if hi == 0x00 {
            KeyPermissions::RequiresRoot
        } else if hi == 0x0E {
            KeyPermissions::RequiresTargetedAppKey
        } else if hi == 0x0F {
            KeyPermissions::Frozen
        } else {
            KeyPermissions::RequiresAppKey(hi)
        }
    }

    /// Create a new [KeyPermissions] from an encoded key settings byte.
    pub(crate) fn from_u8(ks: u8) -> (r: Self)
        ensures
            r == Self::spec_of_byte(ks),
    {
        let hi = ks >> 4;
        if hi == 0x00 {
            KeyPermissions::RequiresRoot
        } else if hi == 0x0E {
            KeyPermissions::RequiresTargetedAppKey
        } else if hi == 0x0F {
            KeyPermissions::Frozen
        } else {
            KeyPermissions::RequiresAppKey(hi)
        }
    }

    /// Create the encoded key settings bits (the high nibble) of this
    /// setting; a key id outside 1 to 13 is [Error::BadKeyId].
    pub(crate) fn as_u8<IoBackendErrorT>(&self) -> (r: Result<u8, Error<IoBackendErrorT>>)
        ensures
            match self.spec_nibble() {
                Some(n) => r matches Ok(x) && x == (n << 4u8),
                None => r matches Err(Error::BadKeyId),
            },
    {
        let nibble: u8 = match self {
            KeyPermissions::RequiresRoot => 0x00,
            KeyPermissions::RequiresAppKey(key) => {
                if 0x01 <= *key && *key <= 0x0D {
                    *key
                } else {
                    return Err(Error::BadKeyId);
                }
            },
            KeyPermissions::RequiresTargetedAppKey => 0x0E,
            KeyPermissions::Frozen => 0x0F,
        };
        Ok(nibble << 4u8)
    }
}

impl Permissions {
    /// Default application MIFARE DESFire EV3 key settings (0x0F).
    pub open spec fn spec_factory_default() -> Self {
        Permissions {
            app: AppPermissions {
                can_change_key_settings: true,
                can_change_root_key: true,
                anyone_can_delete: true,
                anyone_can_list: true,
            },
            key: KeyPermissions::RequiresRoot,
        }
    }

    /// Default application MIFARE DESFire EV3 key settings (0x0F).
    pub fn factory_default() -> (r: Self)
        ensures
            r == Self::spec_factory_default(),
    {
        Permissions {
            app: AppPermissions {
                can_change_key_settings: true,
                can_change_root_key: true,
                anyone_can_delete: true,
                anyone_can_list: true,
            },
            key: KeyPermissions::RequiresRoot,
        }
    }

    /// The encoded byte of these settings, `None` where the application
    /// setting names a key id outside 1 to 13.
    pub open spec fn spec_byte(self) -> Option<u8> {
        match self.key.spec_nibble() {
            Some(n) => Some(self.app.spec_byte() | (n << 4u8)),
            None => None,
        }
    }

    /// The settings that an encoded byte stands for.
    pub open spec fn spec_of_byte(ks: u8) -> Self {
        Permissions { app: AppPermissions::spec_of_byte(ks), key: KeyPermissions::spec_of_byte(ks) }
    }

    /// Create a new [Permissions] from the encoded value.
    pub fn from_u8(ks: u8) -> (r: Self)
        ensures
            r == Self::spec_of_byte(ks),
    {
        Permissions { app: AppPermissions::from_u8(ks), key: KeyPermissions::from_u8(ks) }
    }

    /// Create the encoded value of these settings; an application key id
    /// outside 1 to 13 is [Error::BadKeyId].
    pub fn as_u8<IoBackendErrorT>(&self) -> (r: Result<u8, Error<IoBackendErrorT>>)
        ensures
            match self.spec_byte() {
                Some(b) => r matches Ok(x) && x == b,
                None => r matches Err(Error::BadKeyId),
            },
    {
        let app_bits = self.app.as_u8();
        let key_bits = match self.key.as_u8::<IoBackendErrorT>() {
            Ok(a) => a,
            Err(e) => return Err(e),
        };
        Ok(app_bits | key_bits)
    }
}

/// Every key settings byte is written back as itself after being read:
/// `as_u8(from_u8(b)) == b` for all 256 bytes.
pub proof fn lemma_permissions_byte_round_trip(b: u8)
    ensures
        Permissions::spec_of_byte(b).spec_byte() == Some(b),
{
    let hi = b >> 4;
    assert(hi <= 15) by (bit_vector) requires hi == b >> 4;
    let p = AppPermissions::spec_of_byte(b);
    let pb = p.spec_byte();
    assert(pb | ((hi << 4u8) as u8) == b) by (bit_vector)
        requires
            hi == b >> 4,
            pb == ((if (b & 0x01) != 0 { 0x01u8 } else { 0u8 })
                | (if (b & 0x02) != 0 { 0x02u8 } else { 0u8 })
                | (if (b & 0x04) != 0 { 0x04u8 } else { 0u8 })
                | (if (b & 0x08) != 0 { 0x08u8 } else { 0u8 })),
    ;
}

/// Key settings that can be written read back as themselves.
pub proof fn lemma_permissions_round_trip(s: Permissions)
    requires
        s.spec_byte() is Some,
    ensures
        Permissions::spec_of_byte(s.spec_byte().unwrap()) == s,
{
    let n = s.key.spec_nibble().unwrap();
    let p = s.app.spec_byte();
    let b = s.spec_byte().unwrap();
    let (c1, c2, c3, c4) = (s.app.can_change_root_key, s.app.anyone_can_list, s.app.anyone_can_delete, s.app.can_change_key_settings);
    assert(
        ((b & 0x01) != 0) == c1 && ((b & 0x02) != 0) == c2 && ((b & 0x04) != 0) == c3
            && ((b & 0x08) != 0) == c4 && (b >> 4) == n
    ) by (bit_vector)
        requires
            n <= 15,
            p == ((if c1 { 0x01u8 } else { 0u8 }) | (if c2 { 0x02u8 } else { 0u8 })
                | (if c3 { 0x04u8 } else { 0u8 }) | (if c4 { 0x08u8 } else { 0u8 })),
            b == p | (n << 4u8),
    ;
}

/// What a key settings byte means, bit by bit: 0x01 lets the root key be
/// changed, 0x02 lets anyone list applications, 0x04 lets anyone delete
/// them, 0x08 lets the settings themselves be changed; the high nibble
/// names the key needed to change application keys: 0x0 the root key,
/// 0x1 to 0xD that application key, 0xE the key being changed, 0xF none
/// (frozen). Settings read from a byte say exactly this.
pub proof fn lemma_permissions_byte_meaning(b: u8, s: Permissions)
    requires
        s == Permissions::spec_of_byte(b),
    ensures
        s.app.can_change_root_key == ((b & 0x01) != 0),
        s.app.anyone_can_list == ((b & 0x02) != 0),
        s.app.anyone_can_delete == ((b & 0x04) != 0),
        s.app.can_change_key_settings == ((b & 0x08) != 0),
        b >> 4u8 == 0x00 ==> s.key == KeyPermissions::RequiresRoot,
        0x01 <= b >> 4u8 <= 0x0D ==> s.key == KeyPermissions::RequiresAppKey(b >> 4u8),
        b >> 4u8 == 0x0E ==> s.key == KeyPermissions::RequiresTargetedAppKey,
        b >> 4u8 == 0x0F ==> s.key == KeyPermissions::Frozen,
{
}

/// How settings are written, bit by bit: the byte has 0x01 set exactly when
/// the root key can be changed, 0x02 when anyone can list, 0x04 when anyone
/// can delete, 0x08 when the settings can be changed, and the high nibble
/// names the key needed to change application keys (0x0 the root key, the
/// key id itself, 0xE the key being changed, 0xF frozen).
pub proof fn lemma_permissions_encoding_meaning(s: Permissions, b: u8)
    requires
        s.spec_byte() == Some(b),
    ensures
        ((b & 0x01) != 0) == s.app.can_change_root_key,
        ((b & 0x02) != 0) == s.app.anyone_can_list,
        ((b & 0x04) != 0) == s.app.anyone_can_delete,
        ((b & 0x08) != 0) == s.app.can_change_key_settings,
        s.key == KeyPermissions::RequiresRoot ==> b >> 4u8 == 0x00,
        s.key matches KeyPermissions::RequiresAppKey(k) ==> b >> 4u8 == k,
        s.key == KeyPermissions::RequiresTargetedAppKey ==> b >> 4u8 == 0x0E,
        s.key == KeyPermissions::Frozen ==> b >> 4u8 == 0x0F,
{
    lemma_permissions_round_trip(s);
    lemma_permissions_byte_meaning(b, s);
    assert(b >> 4u8 <= 15) by (bit_vector);
}

} // verus!
