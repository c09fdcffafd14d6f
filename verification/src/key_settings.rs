use crate::error::Error;
use crate::KeyId;
use vstd::prelude::*;

verus! {

/// Global (PICC-wide) and Application-specific configuration surrounding
/// permissions regarding keying material.
#[derive(Copy, Clone, Debug, PartialEq, Eq, Structural)]
pub struct KeySettings {
    /// Key Settings specific to the PICC Key.
    pub picc: KeySettingsPicc,
    /// Key Settings specific to the Application Key(s).
    pub app: KeySettingsApp,
}

/// PICC-wide Key Settings: what permissions are required to take card-wide
/// destructive actions.
#[derive(Copy, Clone, Debug, PartialEq, Eq, Structural)]
pub struct KeySettingsPicc {
    /// If true, the key settings can be changed; if false they are locked.
    pub can_change_key_settings: bool,
    /// If true, the PICC key ("master key") can be changed.
    pub can_change_picc_key: bool,
    /// If true, deleting applications does not require the PICC key.
    pub anyone_can_delete: bool,
    /// If true, listing applications does not require the PICC key.
    pub anyone_can_list: bool,
}

/// Application-specific Key settings: which key is required to change an
/// Application key.
#[derive(Copy, Clone, Debug, PartialEq, Eq, Structural)]
pub enum KeySettingsApp {
    /// Changing an Application key requires the PICC Key.
    RequiresPicc,
    /// Changing an Application key requires the given Application key
    /// (within 1 to 13, inclusive).
    RequiresAppKey(KeyId),
    /// Changing an Application key requires the key to be changed itself.
    RequiresTargetedAppKey,
    /// Application keys may not be changed.
    Frozen,
}

impl KeySettingsPicc {
    /// The low nibble that encodes these flags: bit 0 "can change PICC key",
    /// bit 1 "anyone can list", bit 2 "anyone can delete", bit 3 "can
    /// change key settings".
    pub open spec fn spec_byte(self) -> u8 {
        (if self.can_change_picc_key { 0x01u8 } else { 0u8 })
            | (if self.anyone_can_list { 0x02u8 } else { 0u8 })
            | (if self.anyone_can_delete { 0x04u8 } else { 0u8 })
            | (if self.can_change_key_settings { 0x08u8 } else { 0u8 })
    }

    /// The flags that a key settings byte holds in its low nibble.
    pub open spec fn spec_of_byte(ks: u8) -> Self {
        KeySettingsPicc {
            can_change_picc_key: (ks & 0x01) != 0,
            anyone_can_list: (ks & 0x02) != 0,
            anyone_can_delete: (ks & 0x04) != 0,
            can_change_key_settings: (ks & 0x08) != 0,
        }
    }

    /// Create a new [KeySettingsPicc] from an encoded key settings byte.
    pub(crate) fn from_u8(ks: u8) -> (r: Self)
        ensures
            r == Self::spec_of_byte(ks),
    {
        KeySettingsPicc {
            can_change_picc_key: (ks & 0x01) != 0,
            anyone_can_list: (ks & 0x02) != 0,
            anyone_can_delete: (ks & 0x04) != 0,
            can_change_key_settings: (ks & 0x08) != 0,
        }
    }

    /// Create the encoded key settings bits of these flags.
    pub fn as_u8(&self) -> (r: u8)
        ensures
            r == self.spec_byte(),
    {
        (if self.can_change_picc_key { 0x01u8 } else { 0u8 })
            | (if self.anyone_can_list { 0x02u8 } else { 0u8 })
            | (if self.anyone_can_delete { 0x04u8 } else { 0u8 })
            | (if self.can_change_key_settings { 0x08u8 } else { 0u8 })
    }
}

impl KeySettingsApp {
    /// The high-nibble value of this setting, `None` where a key id is out
    /// of the range 1 to 13.
    pub open spec fn spec_nibble(self) -> Option<u8> {
        match self {
            KeySettingsApp::RequiresPicc => Some(0x00u8),
            KeySettingsApp::RequiresAppKey(key) => if 0x01 <= key <= 0x0D { Some(key) } else { None },
            KeySettingsApp::RequiresTargetedAppKey => Some(0x0Eu8),
            KeySettingsApp::Frozen => Some(0x0Fu8),
        }
    }

    /// The setting that the high nibble of a key settings byte stands for.
    pub open spec fn spec_of_byte(ks: u8) -> Self {
        let hi = ks >> 4;
        if hi == 0x00 {
            KeySettingsApp::RequiresPicc
        } else if hi == 0x0E {
            KeySettingsApp::RequiresTargetedAppKey
        } else if hi == 0x0F {
            KeySettingsApp::Frozen
        } else {
            KeySettingsApp::RequiresAppKey(hi)
        }
    }

    /// Create a new [KeySettingsApp] from an encoded key settings byte.
    pub(crate) fn from_u8(ks: u8) -> (r: Self)
        ensures
            r == Self::spec_of_byte(ks),
    {
        let hi = ks >> 4;
        if hi == 0x00 {
            KeySettingsApp::RequiresPicc
        } else if hi == 0x0E {
            KeySettingsApp::RequiresTargetedAppKey
        } else if hi == 0x0F {
            KeySettingsApp::Frozen
        } else {
            KeySettingsApp::RequiresAppKey(hi)
        }
    }

    /// Create the encoded key settings bits (the high nibble) of this
    /// setting; a key id outside 1 to 13 is [Error::BadKeyId].
    pub(crate) fn as_u8<IoBackendErrorT>(&self) -> (r: Result<u8, Error<IoBackendErrorT>>)
        ensures
            match self.spec_nibble() {
                Some(n) => r matches Ok(x) && x == (n << 4u8),
                None => r matches Err(Error::BadKeyId),
            },
    {
        let nibble: u8 = match self {
            KeySettingsApp::RequiresPicc => 0x00,
            KeySettingsApp::RequiresAppKey(key) => {
                if 0x01 <= *key && *key <= 0x0D {
                    *key
                } else {
                    return Err(Error::BadKeyId);
                }
            },
            KeySettingsApp::RequiresTargetedAppKey => 0x0E,
            KeySettingsApp::Frozen => 0x0F,
        };
        Ok(nibble << 4u8)
    }
}

impl KeySettings {
    /// Default application MIFARE DESFire EV3 key settings (0x0F).
    pub open spec fn spec_factory_default() -> Self {
        KeySettings {
            picc: KeySettingsPicc {
                can_change_key_settings: true,
                can_change_picc_key: true,
                anyone_can_delete: true,
                anyone_can_list: true,
            },
            app: KeySettingsApp::RequiresPicc,
        }
    }

    /// Default application MIFARE DESFire EV3 key settings (0x0F).
    pub fn factory_default() -> (r: Self)
        ensures
            r == Self::spec_factory_default(),
    {
        KeySettings {
            picc: KeySettingsPicc {
                can_change_key_settings: true,
                can_change_picc_key: true,
                anyone_can_delete: true,
                anyone_can_list: true,
            },
            app: KeySettingsApp::RequiresPicc,
        }
    }

    /// The encoded byte of these settings, `None` where the application
    /// setting names a key id outside 1 to 13.
    pub open spec fn spec_byte(self) -> Option<u8> {
        match self.app.spec_nibble() {
            Some(n) => Some(self.picc.spec_byte() | (n << 4u8)),
            None => None,
        }
    }

    /// The settings that an encoded byte stands for.
    pub open spec fn spec_of_byte(ks: u8) -> Self {
        KeySettings { picc: KeySettingsPicc::spec_of_byte(ks), app: KeySettingsApp::spec_of_byte(ks) }
    }

    /// Create a new [KeySettings] from the encoded value.
    pub fn from_u8(ks: u8) -> (r: Self)
        ensures
            r == Self::spec_of_byte(ks),
    {
        KeySettings { picc: KeySettingsPicc::from_u8(ks), app: KeySettingsApp::from_u8(ks) }
    }

    /// Create the encoded value of these settings; an application key id
    /// outside 1 to 13 is [Error::BadKeyId].
    pub fn as_u8<IoBackendErrorT>(&self) -> (r: Result<u8, Error<IoBackendErrorT>>)
        ensures
            match self.spec_byte() {
                Some(b) => r matches Ok(x) && x == b,
                None => r matches Err(Error::BadKeyId),
            },
    {
        let picc = self.picc.as_u8();
        let app = match self.app.as_u8::<IoBackendErrorT>() {
            Ok(a) => a,
            Err(e) => return Err(e),
        };
        Ok(picc | app)
    }
}

/// Every key settings byte is written back as itself after being read:
/// `as_u8(from_u8(b)) == b` for all 256 bytes.
pub proof fn lemma_key_settings_byte_round_trip(b: u8)
    ensures
        KeySettings::spec_of_byte(b).spec_byte() == Some(b),
{
    let hi = b >> 4;
    assert(hi <= 15) by (bit_vector) requires hi == b >> 4;
    let p = KeySettingsPicc::spec_of_byte(b);
    let pb = p.spec_byte();
    assert(pb | ((hi << 4u8) as u8) == b) by (bit_vector)
        requires
            hi == b >> 4,
            pb == ((if (b & 0x01) != 0 { 0x01u8 } else { 0u8 })
                | (if (b & 0x02) != 0 { 0x02u8 } else { 0u8 })
                | (if (b & 0x04) != 0 { 0x04u8 } else { 0u8 })
                | (if (b & 0x08) != 0 { 0x08u8 } else { 0u8 })),
    ;
}

/// Key settings that can be written read back as themselves.
pub proof fn lemma_key_settings_round_trip(s: KeySettings)
    requires
        s.spec_byte() is Some,
    ensures
        KeySettings::spec_of_byte(s.spec_byte().unwrap()) == s,
{
    let n = s.app.spec_nibble().unwrap();
    let p = s.picc.spec_byte();
    let b = s.spec_byte().unwrap();
    let (c1, c2, c3, c4) = (s.picc.can_change_picc_key, s.picc.anyone_can_list, s.picc.anyone_can_delete, s.picc.can_change_key_settings);
    assert(
        ((b & 0x01) != 0) == c1 && ((b & 0x02) != 0) == c2 && ((b & 0x04) != 0) == c3
            && ((b & 0x08) != 0) == c4 && (b >> 4) == n
    ) by (bit_vector)
        requires
            n <= 15,
            p == ((if c1 { 0x01u8 } else { 0u8 }) | (if c2 { 0x02u8 } else { 0u8 })
                | (if c3 { 0x04u8 } else { 0u8 }) | (if c4 { 0x08u8 } else { 0u8 })),
            b == p | (n << 4u8),
    ;
}

/// What a key settings byte means, bit by bit: 0x01 lets the PICC key be
/// changed, 0x02 lets anyone list applications, 0x04 lets anyone delete
/// them, 0x08 lets the settings themselves be changed; the high nibble
/// names the key needed to change application keys: 0x0 the PICC key,
/// 0x1 to 0xD that application key, 0xE the key being changed, 0xF none
/// (frozen). Settings read from a byte say exactly this.
pub proof fn lemma_key_settings_byte_meaning(b: u8, s: KeySettings)
    requires
        s == KeySettings::spec_of_byte(b),
    ensures
        s.picc.can_change_picc_key == ((b & 0x01) != 0),
        s.picc.anyone_can_list == ((b & 0x02) != 0),
        s.picc.anyone_can_delete == ((b & 0x04) != 0),
        s.picc.can_change_key_settings == ((b & 0x08) != 0),
        b >> 4u8 == 0x00 ==> s.app == KeySettingsApp::RequiresPicc,
        0x01 <= b >> 4u8 <= 0x0D ==> s.app == KeySettingsApp::RequiresAppKey(b >> 4u8),
        b >> 4u8 == 0x0E ==> s.app == KeySettingsApp::RequiresTargetedAppKey,
        b >> 4u8 == 0x0F ==> s.app == KeySettingsApp::Frozen,
{
}

/// How settings are written, bit by bit: the byte has 0x01 set exactly when
/// the PICC key can be changed, 0x02 when anyone can list, 0x04 when anyone
/// can delete, 0x08 when the settings can be changed, and the high nibble
/// names the key needed to change application keys (0x0 the PICC key, the
/// key id itself, 0xE the key being changed, 0xF frozen).
pub proof fn lemma_key_settings_encoding_meaning(s: KeySettings, b: u8)
    requires
        s.spec_byte() == Some(b),
    ensures
        ((b & 0x01) != 0) == s.picc.can_change_picc_key,
        ((b & 0x02) != 0) == s.picc.anyone_can_list,
        ((b & 0x04) != 0) == s.picc.anyone_can_delete,
        ((b & 0x08) != 0) == s.picc.can_change_key_settings,
        s.app == KeySettingsApp::RequiresPicc ==> b >> 4u8 == 0x00,
        s.app matches KeySettingsApp::RequiresAppKey(k) ==> b >> 4u8 == k,
        s.app == KeySettingsApp::RequiresTargetedAppKey ==> b >> 4u8 == 0x0E,
        s.app == KeySettingsApp::Frozen ==> b >> 4u8 == 0x0F,
{
    lemma_key_settings_round_trip(s);
    lemma_key_settings_byte_meaning(b, s);
    assert(b >> 4u8 <= 15) by (bit_vector);
}

} // verus!
