//! AES-128 channel of the DCP.

use super::{
    cipher_mode_code, cipher_select_code, key_select_code, with_field, with_flag, ChannelClaims,
    CipherMode, CipherSelect, Control0, Control1, KeySelect, AES128_RAM_CHANNEL,
};
use vstd::prelude::*;

verus! {

/// The hardware keys that the AES-128 channel can use.
#[derive(Clone, Copy, PartialEq, Eq, Structural)]
pub enum HardwareKey {
    /// The device unique key, derived from the OTP key and a device-specific
    /// 64-bit value.
    Unique,
    /// The unreadable OTP key.
    Otp,
}

/// The key selection of a hardware key.
pub open spec fn hardware_key_select(key: HardwareKey) -> KeySelect {
    match key {
        HardwareKey::Unique => KeySelect::UniqueKey,
        HardwareKey::Otp => KeySelect::OtpKey,
    }
}

impl From<HardwareKey> for KeySelect {
    fn from(key: HardwareKey) -> (r: KeySelect) {
        match key {
            HardwareKey::Unique => KeySelect::UniqueKey,
            HardwareKey::Otp => KeySelect::OtpKey,
        }
    }
}

impl vstd::std_specs::convert::FromSpecImpl<HardwareKey> for KeySelect {
    open spec fn obeys_from_spec() -> bool {
        true
    }

    open spec fn from_spec(key: HardwareKey) -> KeySelect {
        hardware_key_select(key)
    }
}

/// The CHANNELCTRL bits that enable the AES-128 channel with a software key:
/// its own channel and channel 3, which the block expects enabled as well.
pub const RAM_CHANNEL_ENABLE: u32 = (1 << 1) | (1 << 3);

/// Claims the hardware-key channel: granted when it is free, and then taken.
pub open spec fn claim_hardware(c: ChannelClaims) -> (ChannelClaims, bool) {
    (ChannelClaims { aes_hw: true, ..c }, !c.aes_hw)
}

/// Claims the software-key channel: granted when it is free, and then taken.
pub open spec fn claim_ram(c: ChannelClaims) -> (ChannelClaims, bool) {
    (ChannelClaims { aes_ram: true, ..c }, !c.aes_ram)
}

/// Gives back the channel that a handle with key `key` holds.
pub open spec fn release_channel(c: ChannelClaims, key: KeySelect) -> ChannelClaims {
    if key == KeySelect::Key0 {
        ChannelClaims { aes_ram: false, ..c }
    } else {
        ChannelClaims { aes_hw: false, ..c }
    }
}

/// AES-128 channel.
pub struct Aes128 {
    key: KeySelect,
}

impl Aes128 {
    /// The key the channel uses.
    pub closed spec fn key(self) -> KeySelect {
        self.key
    }

    /// Gets a handle to the AES-128 channel configured to use the unreadable
    /// OTP key; `None` if the hardware-key channel is in use.
    pub fn new_otp(claims: &mut ChannelClaims) -> (r: Option<Aes128>)
        ensures
            (*final(claims), r is Some) == claim_hardware(*old(claims)),
            r matches Some(a) ==> a.key() == KeySelect::OtpKey,
    {
        Self::new_hardware(claims, HardwareKey::Otp)
    }

    /// Gets a handle to the AES-128 channel configured to use the unreadable
    /// UNIQUE key; `None` if the hardware-key channel is in use.
    pub fn new_unique(claims: &mut ChannelClaims) -> (r: Option<Aes128>)
        ensures
            (*final(claims), r is Some) == claim_hardware(*old(claims)),
            r matches Some(a) ==> a.key() == KeySelect::UniqueKey,
    {
        Self::new_hardware(claims, HardwareKey::Unique)
    }

    fn new_hardware(claims: &mut ChannelClaims, key: HardwareKey) -> (r: Option<Aes128>)
        ensures
            (*final(claims), r is Some) == claim_hardware(*old(claims)),
            r matches Some(a) ==> a.key() == hardware_key_select(key),
    {
        if claims.aes_hw {
            None
        } else {
            claims.aes_hw = true;
            Some(Aes128 { key: KeySelect::from(key) })
        }
    }

    /// Gets a handle to the AES-128 channel that uses a key written by
    /// software; `None` if that channel is in use.
    pub fn new_ram(claims: &mut ChannelClaims) -> (r: Option<Aes128>)
        ensures
            (*final(claims), r is Some) == claim_ram(*old(claims)),
            r matches Some(a) ==> a.key() == KeySelect::Key0,
    {
        if claims.aes_ram {
            None
        } else {
            claims.aes_ram = true;
            Some(Aes128 { key: KeySelect::Key0 })
        }
    }

    /// Gives the channel back.
    pub fn release(self, claims: &mut ChannelClaims)
        ensures
            *final(claims) == release_channel(*old(claims), self.key()),
    {
        match self.key {
            KeySelect::Key0 => claims.aes_ram = false,
            KeySelect::UniqueKey | KeySelect::OtpKey => claims.aes_hw = false,
        }
    }

    /// The key the channel uses.
    pub fn key_select(&self) -> (r: KeySelect)
        ensures
            r == self.key(),
    {
        self.key
    }

    /// The control words of a one-block ECB encryption (`encrypt`) or
    /// decryption with the channel's key.
    pub fn xcrypt_control(&self, encrypt: bool) -> (r: (Control0, Control1))
        ensures
            r.0.value() == 0x2u32 | 0x20u32 | (if encrypt { 0x100u32 } else { 0 }) | (
            if self.key() == KeySelect::OtpKey {
                0x400u32
            } else {
                0
            }),
            r.1.value() == key_select_code(self.key()) << 8,
    {
        let mut c0 = Control0::new();
        c0.decr_semaphore(true);
        c0.enable_cipher(true);
        c0.cipher_encrypt(encrypt);
        let otp = match self.key {
            KeySelect::OtpKey => true,
            _ => false,
        };
        c0.otp_key(otp);
        let mut c1 = Control1::new();
        c1.cipher_select(CipherSelect::Aes128);
        c1.cipher_mode(CipherMode::Ecb);
        c1.key_select(self.key);
        proof {
            let e = encrypt;
            let o = otp;
            let w1 = with_flag(with_flag(0, 1, true), 5, true);
            assert(w1 == 0x22u32) by (bit_vector)
                requires w1 == ((0u32 | (1u32 << 1u32)) | (1u32 << 5u32));
            let w2 = with_flag(w1, 8, e);
            let w3 = with_flag(w2, 10, o);
            assert(w3 == 0x2u32 | 0x20u32 | (if e { 0x100u32 } else { 0 }) | (if o { 0x400u32 } else { 0 }))
                by (bit_vector)
                requires
                    w1 == 0x22u32,
                    w2 == if e { w1 | (1u32 << 8u32) } else { w1 & !(1u32 << 8u32) },
                    w3 == if o { w2 | (1u32 << 10u32) } else { w2 & !(1u32 << 10u32) },
            ;
            let k = key_select_code(self.key);
            let v1 = with_field(with_field(0, 0xf, 0, 0), 0xf, 4, 0);
            assert(v1 == 0u32) by (bit_vector)
                requires v1 == (((0u32 & !(0xfu32 << 0u32)) | (0u32 << 0u32)) & !(0xfu32 << 4u32)) | (0u32 << 4u32);
            let v2 = with_field(v1, 0xff, 8, k);
            assert(v2 == k << 8u32) by (bit_vector)
                requires v1 == 0u32, v2 == (v1 & !(0xffu32 << 8u32)) | (k << 8u32);
        }
        (c0, c1)
    }

    /// The four words of a 16-byte key, each read little-endian, in the order
    /// they are written to KEYDATA.
    pub fn key_words(key: &[u8; 16]) -> (r: [u32; 4])
        ensures
            forall|i: int|
                0 <= i < 4 ==> #[trigger] r@[i] == crate::storage::le_u32(key@, 4 * i),
    {
        let k: &[u8] = key.as_slice();
        let r = [
            crate::storage::read_le_u32(k, 0),
            crate::storage::read_le_u32(k, 4),
            crate::storage::read_le_u32(k, 8),
            crate::storage::read_le_u32(k, 12),
        ];
        r
    }

    /// The KEY register value that selects the key slot of the software-key
    /// channel.
    pub fn ram_key_slot() -> (r: u32)
        ensures
            r == (AES128_RAM_CHANNEL as u32) << 6,
    {
        (AES128_RAM_CHANNEL as u32) << 6u32
    }
}

/// The hardware-key channel is handed out once until it is released: after
/// a successful claim every further claim is refused, whichever hardware key
/// it asks for, and once the handle is released a claim is granted again.
/// The software-key channel is unaffected throughout.
pub proof fn law_hardware_channel_exclusive(claims: ChannelClaims, key: HardwareKey)
    requires
        claim_hardware(claims).1,
    ensures
        !claim_hardware(claim_hardware(claims).0).1,
        claim_hardware(release_channel(claim_hardware(claims).0, hardware_key_select(key))).1,
        claim_hardware(claims).0.aes_ram == claims.aes_ram,
{
}

/// The software-key channel is handed out once until it is released, and
/// claiming it does not affect the hardware-key channel.
pub proof fn law_ram_channel_exclusive(claims: ChannelClaims)
    requires
        claim_ram(claims).1,
    ensures
        !claim_ram(claim_ram(claims).0).1,
        claim_ram(release_channel(claim_ram(claims).0, KeySelect::Key0)).1,
        claim_hardware(claim_ram(claims).0).1 == claim_hardware(claims).1,
{
}

} // verus!
