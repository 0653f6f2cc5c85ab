//! Windows `(DOT11_AUTH_ALGORITHM, DOT11_CIPHER_ALGORITHM)` →
//! `SecurityFlags` translation.

use vstd::prelude::*;

use crate::flags::{no_flags, SecurityFlags};

verus! {

// DOT11_AUTH_ALGORITHM, see wlantypes.h.
pub const AUTH_80211_OPEN: i32 = 1;
pub const AUTH_80211_SHARED_KEY: i32 = 2;
pub const AUTH_WPA: i32 = 3;
pub const AUTH_WPA_PSK: i32 = 4;
pub const AUTH_WPA_NONE: i32 = 5;
pub const AUTH_RSNA: i32 = 6;
pub const AUTH_RSNA_PSK: i32 = 7;
/// WPA3-Enterprise with the 192-bit suite; its newer name shares the number.
pub const AUTH_WPA3: i32 = 8;
pub const AUTH_WPA3_ENT_192: i32 = 8;
pub const AUTH_WPA3_SAE: i32 = 9;
pub const AUTH_OWE: i32 = 10;
pub const AUTH_WPA3_ENT: i32 = 11;

// DOT11_CIPHER_ALGORITHM, see wlantypes.h.
pub const CIPHER_NONE: i32 = 0;
pub const CIPHER_CCMP: i32 = 4;
pub const CIPHER_WEP: i32 = 257;

/// The security modes of an auth/cipher pair. An open-system network with a cipher
/// is WEP.
pub open spec fn auth_cipher_security(auth: i32, cipher: i32) -> SecurityFlags {
    if auth == AUTH_80211_OPEN {
        if cipher == CIPHER_NONE {
            SecurityFlags::open()
        } else {
            SecurityFlags::wep()
        }
    } else if auth == AUTH_80211_SHARED_KEY {
        SecurityFlags::wep()
    } else if auth == AUTH_WPA || auth == AUTH_WPA_NONE || auth == AUTH_WPA_PSK {
        SecurityFlags::wpa_psk()
    } else if auth == AUTH_RSNA {
        SecurityFlags::wpa2_enterprise()
    } else if auth == AUTH_RSNA_PSK {
        SecurityFlags::wpa2_psk()
    } else if auth == AUTH_WPA3 || auth == AUTH_WPA3_ENT {
        SecurityFlags::wpa3_enterprise()
    } else if auth == AUTH_WPA3_SAE {
        SecurityFlags::wpa3_sae()
    } else if auth == AUTH_OWE {
        SecurityFlags::owe()
    } else {
        no_flags()
    }
}

/// Map Windows auth/cipher pair to portable `SecurityFlags`.
pub fn security_from_auth_cipher(auth: i32, cipher: i32) -> (r: SecurityFlags)
    ensures
        r == auth_cipher_security(auth, cipher),
{
    match auth {
        AUTH_80211_OPEN => {
            // Some adapters report open-system with a WEP cipher to denote
            // "WEP open system" — treat that as WEP rather than open.
            if cipher == CIPHER_NONE {
                SecurityFlags::open()
            } else {
                SecurityFlags::wep()
            }
        },
        AUTH_80211_SHARED_KEY => SecurityFlags::wep(),
        AUTH_WPA | AUTH_WPA_NONE | AUTH_WPA_PSK => SecurityFlags::wpa_psk(),
        AUTH_RSNA => SecurityFlags::wpa2_enterprise(),
        AUTH_RSNA_PSK => SecurityFlags::wpa2_psk(),
        AUTH_WPA3 | AUTH_WPA3_ENT => SecurityFlags::wpa3_enterprise(),
        AUTH_WPA3_SAE => SecurityFlags::wpa3_sae(),
        AUTH_OWE => SecurityFlags::owe(),
        _ => SecurityFlags::empty(),
    }
}

/// Each mode is set exactly for its own algorithms; an open system is WEP when it
/// has a cipher, and no pair has two modes.
pub proof fn algorithms_name_one_mode(auth: i32, cipher: i32)
    ensures
        ({
            let modes = auth_cipher_security(auth, cipher);
            &&& modes.open <==> auth == 1 && cipher == 0
            &&& modes.wep <==> auth == 2 || (auth == 1 && cipher != 0)
            &&& modes.wpa_psk <==> auth == 3 || auth == 4 || auth == 5
            &&& modes.wpa2_enterprise <==> auth == 6
            &&& modes.wpa2_psk <==> auth == 7
            &&& modes.wpa3_enterprise <==> auth == 8 || auth == 11
            &&& modes.wpa3_sae <==> auth == 9
            &&& modes.owe <==> auth == 10
        }),
{
}

} // verus!
