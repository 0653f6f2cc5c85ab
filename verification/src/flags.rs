//! Security modes, as a set of flags.

use std::fmt::{Debug, Formatter};

use vstd::prelude::*;

use crate::formatting::{is_alternate, written};
use crate::text::same_text;

verus! {

broadcast use vstd::string::group_string_axioms;

/// Security modes the AP advertises in beacons / probe responses.
/// Several flags can be set when an SSID is broadcast under a
/// transition mode (e.g. `wpa2_psk | wpa3_sae`).
#[derive(Clone, Copy, PartialEq, Eq, Hash, Structural)]
pub struct SecurityFlags {
    pub open: bool,
    pub wep: bool,
    pub wpa_psk: bool,
    pub wpa2_psk: bool,
    pub wpa3_sae: bool,
    pub wpa2_enterprise: bool,
    pub wpa3_enterprise: bool,
    pub owe: bool,
}

/// A list of names with one more, if that flag is set.
pub open spec fn listed(names: Seq<char>, set: bool, name: Seq<char>) -> Seq<char> {
    if !set {
        names
    } else if names.len() == 0 {
        name
    } else {
        names + " | "@ + name
    }
}

/// The names of the flags that are set, with bars between them.
pub open spec fn flag_names(flags: SecurityFlags) -> Seq<char> {
    let none: Seq<char> = seq![];
    let upto_open = listed(none, flags.open, "OPEN"@);
    let upto_wep = listed(upto_open, flags.wep, "WEP"@);
    let upto_wpa_psk = listed(upto_wep, flags.wpa_psk, "WPA_PSK"@);
    let upto_wpa2_psk = listed(upto_wpa_psk, flags.wpa2_psk, "WPA2_PSK"@);
    let upto_wpa3_sae = listed(upto_wpa2_psk, flags.wpa3_sae, "WPA3_SAE"@);
    let upto_wpa2_enterprise = listed(upto_wpa3_sae, flags.wpa2_enterprise, "WPA2_ENTERPRISE"@);
    let upto_wpa3_enterprise = listed(upto_wpa2_enterprise, flags.wpa3_enterprise, "WPA3_ENTERPRISE"@);
    listed(upto_wpa3_enterprise, flags.owe, "OWE"@)
}

/// How `Debug` prints a set of flags, such as `SecurityFlags(WEP | OWE)`; the set
/// without any is `SecurityFlags(0x0)`. The alternate form takes three lines.
pub open spec fn flags_debug(flags: SecurityFlags, alternate: bool) -> Seq<char> {
    let names = if flags == no_flags() {
        "0x0"@
    } else {
        flag_names(flags)
    };
    if alternate {
        "SecurityFlags(\n    "@ + names + ",\n)"@
    } else {
        "SecurityFlags("@ + names + ")"@
    }
}

fn list_name(names: &mut String, set: bool, name: &str)
    ensures
        final(names)@ == listed(old(names)@, set, name@),
{
    proof {
        reveal_strlit("");
        if names@.len() == 0 {
            assert(names@ =~= ""@);
        }
    }
    if set {
        if !same_text(names.as_str(), "") {
            names.push_str(" | ");
        }
        names.push_str(name);
    }
    assert(names@ =~= listed(old(names)@, set, name@));
}

impl SecurityFlags {
    fn debug_text(&self, alternate: bool) -> (r: String)
        ensures
            r@ == flags_debug(*self, alternate),
    {
        let mut names = String::new();
        list_name(&mut names, self.open, "OPEN");
        list_name(&mut names, self.wep, "WEP");
        list_name(&mut names, self.wpa_psk, "WPA_PSK");
        list_name(&mut names, self.wpa2_psk, "WPA2_PSK");
        list_name(&mut names, self.wpa3_sae, "WPA3_SAE");
        list_name(&mut names, self.wpa2_enterprise, "WPA2_ENTERPRISE");
        list_name(&mut names, self.wpa3_enterprise, "WPA3_ENTERPRISE");
        list_name(&mut names, self.owe, "OWE");
        assert(names@ == flag_names(*self));
        if self.is_empty() {
            names = "0x0".to_owned();
        }
        let (before, after) = if alternate {
            ("SecurityFlags(\n    ", ",\n)")
        } else {
            ("SecurityFlags(", ")")
        };
        let mut out = before.to_owned();
        out.push_str(names.as_str());
        out.push_str(after);
        out
    }
}

impl Debug for SecurityFlags {
    fn fmt(&self, f: &mut Formatter<'_>) -> (r: Result<(), std::fmt::Error>)
        ensures
            r is Ok ==> written(*final(f)) == written(*old(f)) + flags_debug(
                *self,
                is_alternate(*old(f)),
            ),
    {
        let text = self.debug_text(f.alternate());
        f.write_str(text.as_str())
    }
}

/// The set without any flag.
pub open spec fn no_flags() -> SecurityFlags {
    SecurityFlags {
        open: false,
        wep: false,
        wpa_psk: false,
        wpa2_psk: false,
        wpa3_sae: false,
        wpa2_enterprise: false,
        wpa3_enterprise: false,
        owe: false,
    }
}

impl SecurityFlags {
    /// The set without any flag.
    #[verifier::allow_in_spec]
    pub fn empty() -> SecurityFlags
        returns
            no_flags(),
    {
        SecurityFlags {
            open: false,
            wep: false,
            wpa_psk: false,
            wpa2_psk: false,
            wpa3_sae: false,
            wpa2_enterprise: false,
            wpa3_enterprise: false,
            owe: false,
        }
    }

    /// No authentication and no encryption.
    #[verifier::allow_in_spec]
    pub fn open() -> SecurityFlags
        returns
            (SecurityFlags { open: true, ..no_flags() }),
    {
        SecurityFlags { open: true, ..SecurityFlags::empty() }
    }

    /// WEP, open-system or shared-key.
    #[verifier::allow_in_spec]
    pub fn wep() -> SecurityFlags
        returns
            (SecurityFlags { wep: true, ..no_flags() }),
    {
        SecurityFlags { wep: true, ..SecurityFlags::empty() }
    }

    /// WPA Personal.
    #[verifier::allow_in_spec]
    pub fn wpa_psk() -> SecurityFlags
        returns
            (SecurityFlags { wpa_psk: true, ..no_flags() }),
    {
        SecurityFlags { wpa_psk: true, ..SecurityFlags::empty() }
    }

    /// WPA2 Personal.
    #[verifier::allow_in_spec]
    pub fn wpa2_psk() -> SecurityFlags
        returns
            (SecurityFlags { wpa2_psk: true, ..no_flags() }),
    {
        SecurityFlags { wpa2_psk: true, ..SecurityFlags::empty() }
    }

    /// WPA3 Personal.
    #[verifier::allow_in_spec]
    pub fn wpa3_sae() -> SecurityFlags
        returns
            (SecurityFlags { wpa3_sae: true, ..no_flags() }),
    {
        SecurityFlags { wpa3_sae: true, ..SecurityFlags::empty() }
    }

    /// WPA2 Enterprise.
    #[verifier::allow_in_spec]
    pub fn wpa2_enterprise() -> SecurityFlags
        returns
            (SecurityFlags { wpa2_enterprise: true, ..no_flags() }),
    {
        SecurityFlags { wpa2_enterprise: true, ..SecurityFlags::empty() }
    }

    /// WPA3 Enterprise.
    #[verifier::allow_in_spec]
    pub fn wpa3_enterprise() -> SecurityFlags
        returns
            (SecurityFlags { wpa3_enterprise: true, ..no_flags() }),
    {
        SecurityFlags { wpa3_enterprise: true, ..SecurityFlags::empty() }
    }

    /// Opportunistic Wireless Encryption.
    #[verifier::allow_in_spec]
    pub fn owe() -> SecurityFlags
        returns
            (SecurityFlags { owe: true, ..no_flags() }),
    {
        SecurityFlags { owe: true, ..SecurityFlags::empty() }
    }

    /// Whether no flag is set.
    pub fn is_empty(&self) -> (r: bool)
        ensures
            r == (*self == no_flags()),
    {
        *self == SecurityFlags::empty()
    }

    /// Whether every flag of `other` is set here too.
    pub open spec fn includes(self, other: SecurityFlags) -> bool {
        &&& other.open ==> self.open
        &&& other.wep ==> self.wep
        &&& other.wpa_psk ==> self.wpa_psk
        &&& other.wpa2_psk ==> self.wpa2_psk
        &&& other.wpa3_sae ==> self.wpa3_sae
        &&& other.wpa2_enterprise ==> self.wpa2_enterprise
        &&& other.wpa3_enterprise ==> self.wpa3_enterprise
        &&& other.owe ==> self.owe
    }

    /// Whether every flag of `other` is set here too.
    pub fn contains(&self, other: SecurityFlags) -> (r: bool)
        ensures
            r == self.includes(other),
    {
        (!other.open || self.open)
            && (!other.wep || self.wep)
            && (!other.wpa_psk || self.wpa_psk)
            && (!other.wpa2_psk || self.wpa2_psk)
            && (!other.wpa3_sae || self.wpa3_sae)
            && (!other.wpa2_enterprise || self.wpa2_enterprise)
            && (!other.wpa3_enterprise || self.wpa3_enterprise)
            && (!other.owe || self.owe)
    }

    /// The flags that are set in at least one of the two sets.
    pub open spec fn either(self, other: SecurityFlags) -> SecurityFlags {
        SecurityFlags {
            open: self.open || other.open,
            wep: self.wep || other.wep,
            wpa_psk: self.wpa_psk || other.wpa_psk,
            wpa2_psk: self.wpa2_psk || other.wpa2_psk,
            wpa3_sae: self.wpa3_sae || other.wpa3_sae,
            wpa2_enterprise: self.wpa2_enterprise || other.wpa2_enterprise,
            wpa3_enterprise: self.wpa3_enterprise || other.wpa3_enterprise,
            owe: self.owe || other.owe,
        }
    }

    /// The flags that are set in at least one of the two sets.
    pub fn union(self, other: SecurityFlags) -> (r: SecurityFlags)
        ensures
            r == self.either(other),
    {
        SecurityFlags {
            open: self.open || other.open,
            wep: self.wep || other.wep,
            wpa_psk: self.wpa_psk || other.wpa_psk,
            wpa2_psk: self.wpa2_psk || other.wpa2_psk,
            wpa3_sae: self.wpa3_sae || other.wpa3_sae,
            wpa2_enterprise: self.wpa2_enterprise || other.wpa2_enterprise,
            wpa3_enterprise: self.wpa3_enterprise || other.wpa3_enterprise,
            owe: self.owe || other.owe,
        }
    }

    /// Sets every flag of `other`.
    pub fn insert(&mut self, other: SecurityFlags)
        ensures
            *final(self) == old(self).either(other),
    {
        *self = self.union(other);
    }

    /// Clears every flag of `other`.
    pub fn remove(&mut self, other: SecurityFlags)
        ensures
            *final(self) == (SecurityFlags {
                open: old(self).open && !other.open,
                wep: old(self).wep && !other.wep,
                wpa_psk: old(self).wpa_psk && !other.wpa_psk,
                wpa2_psk: old(self).wpa2_psk && !other.wpa2_psk,
                wpa3_sae: old(self).wpa3_sae && !other.wpa3_sae,
                wpa2_enterprise: old(self).wpa2_enterprise && !other.wpa2_enterprise,
                wpa3_enterprise: old(self).wpa3_enterprise && !other.wpa3_enterprise,
                owe: old(self).owe && !other.owe,
            }),
    {
        *self = SecurityFlags {
            open: self.open && !other.open,
            wep: self.wep && !other.wep,
            wpa_psk: self.wpa_psk && !other.wpa_psk,
            wpa2_psk: self.wpa2_psk && !other.wpa2_psk,
            wpa3_sae: self.wpa3_sae && !other.wpa3_sae,
            wpa2_enterprise: self.wpa2_enterprise && !other.wpa2_enterprise,
            wpa3_enterprise: self.wpa3_enterprise && !other.wpa3_enterprise,
            owe: self.owe && !other.owe,
        };
    }

    /// The flags as a bit mask, one bit for each, from `open` in the lowest bit
    /// to `owe` in the eighth.
    pub open spec fn mask(self) -> int {
        (if self.open { 1int } else { 0 })
            + (if self.wep { 2int } else { 0 })
            + (if self.wpa_psk { 4int } else { 0 })
            + (if self.wpa2_psk { 8int } else { 0 })
            + (if self.wpa3_sae { 16int } else { 0 })
            + (if self.wpa2_enterprise { 32int } else { 0 })
            + (if self.wpa3_enterprise { 64int } else { 0 })
            + (if self.owe { 128int } else { 0 })
    }

    /// The flags as a bit mask.
    pub fn bits(&self) -> (r: u16)
        ensures
            r == self.mask(),
    {
        let mut r: u16 = 0;
        if self.open {
            r = r + 1;
        }
        if self.wep {
            r = r + 2;
        }
        if self.wpa_psk {
            r = r + 4;
        }
        if self.wpa2_psk {
            r = r + 8;
        }
        if self.wpa3_sae {
            r = r + 16;
        }
        if self.wpa2_enterprise {
            r = r + 32;
        }
        if self.wpa3_enterprise {
            r = r + 64;
        }
        if self.owe {
            r = r + 128;
        }
        r
    }
}

impl Default for SecurityFlags {
    fn default() -> (r: SecurityFlags)
        ensures
            r == no_flags(),
    {
        SecurityFlags::empty()
    }
}

impl vstd::std_specs::ops::BitOrSpecImpl for SecurityFlags {
    open spec fn obeys_bitor_spec() -> bool {
        true
    }

    open spec fn bitor_req(self, rhs: SecurityFlags) -> bool {
        true
    }

    open spec fn bitor_spec(self, rhs: SecurityFlags) -> SecurityFlags {
        self.either(rhs)
    }
}

impl std::ops::BitOr for SecurityFlags {
    type Output = SecurityFlags;

    fn bitor(self, rhs: SecurityFlags) -> (r: SecurityFlags) {
        self.union(rhs)
    }
}

/// Union is associative, commutative and idempotent, and the empty set changes
/// nothing: how often and in what order modes are collected does not matter.
pub proof fn union_is_a_semilattice(a: SecurityFlags, b: SecurityFlags, c: SecurityFlags)
    ensures
        a.either(b) == b.either(a),
        a.either(b).either(c) == a.either(b.either(c)),
        a.either(a) == a,
        a.either(no_flags()) == a,
{
}

/// A union holds what either side holds, and nothing else.
pub proof fn union_is_the_least_upper_bound(a: SecurityFlags, b: SecurityFlags, c: SecurityFlags)
    ensures
        a.either(b).includes(a),
        a.either(b).includes(b),
        c.includes(a) && c.includes(b) ==> c.includes(a.either(b)),
{
}

/// Two sets with the same mask are the same set.
pub proof fn mask_is_injective(a: SecurityFlags, b: SecurityFlags)
    requires
        a.mask() == b.mask(),
    ensures
        a == b,
{
}

/// Each bit of the mask is one flag, from `open` in the lowest to `owe` in the
/// eighth, and there are no others.
pub proof fn mask_bits_are_flags(flags: SecurityFlags)
    ensures
        0 <= flags.mask() < 256,
        flags.open <==> flags.mask() % 2 == 1,
        flags.wep <==> (flags.mask() / 2) % 2 == 1,
        flags.wpa_psk <==> (flags.mask() / 4) % 2 == 1,
        flags.wpa2_psk <==> (flags.mask() / 8) % 2 == 1,
        flags.wpa3_sae <==> (flags.mask() / 16) % 2 == 1,
        flags.wpa2_enterprise <==> (flags.mask() / 32) % 2 == 1,
        flags.wpa3_enterprise <==> (flags.mask() / 64) % 2 == 1,
        flags.owe <==> (flags.mask() / 128) % 2 == 1,
{
}

/// A set has a flag exactly when that flag is set: in a union, when it is set in
/// one of the two, and a set is inside another when each of its flags is.
pub proof fn sets_go_flag_by_flag(a: SecurityFlags, b: SecurityFlags)
    ensures
        a.either(b).open <==> a.open || b.open,
        a.either(b).wep <==> a.wep || b.wep,
        a.either(b).wpa_psk <==> a.wpa_psk || b.wpa_psk,
        a.either(b).wpa2_psk <==> a.wpa2_psk || b.wpa2_psk,
        a.either(b).wpa3_sae <==> a.wpa3_sae || b.wpa3_sae,
        a.either(b).wpa2_enterprise <==> a.wpa2_enterprise || b.wpa2_enterprise,
        a.either(b).wpa3_enterprise <==> a.wpa3_enterprise || b.wpa3_enterprise,
        a.either(b).owe <==> a.owe || b.owe,
        a.includes(b) <==> a.either(b) == a,
        no_flags().mask() == 0,
{
}

proof fn lemma_listed(names: Seq<char>, led: Seq<char>, set: bool, name: Seq<char>)
    requires
        name.len() > 0,
        if names.len() == 0 {
            led.len() == 0
        } else {
            led == " | "@ + names
        },
    ensures
        ({
            let after = listed(names, set, name);
            let led_after = led + if set {
                " | "@ + name
            } else {
                seq![]
            };
            if after.len() == 0 {
                led_after.len() == 0
            } else {
                led_after == " | "@ + after
            }
        }),
{
    let after = listed(names, set, name);
    if set {
        if names.len() == 0 {
            assert(led + (" | "@ + name) =~= " | "@ + after);
        } else {
            assert(led + (" | "@ + name) =~= " | "@ + after);
        }
    } else {
        assert(led + Seq::<char>::empty() =~= led);
    }
}

/// The names that are printed are those of the flags that are set, in their order,
/// with a bar before each but the first.
pub proof fn set_flags_are_named(flags: SecurityFlags)
    ensures
        flags == no_flags() ==> flag_names(flags).len() == 0,
        flags != no_flags() ==> " | "@ + flag_names(flags) == (if flags.open {
            " | "@ + "OPEN"@
        } else {
            seq![]
        }) + (if flags.wep {
            " | "@ + "WEP"@
        } else {
            seq![]
        }) + (if flags.wpa_psk {
            " | "@ + "WPA_PSK"@
        } else {
            seq![]
        }) + (if flags.wpa2_psk {
            " | "@ + "WPA2_PSK"@
        } else {
            seq![]
        }) + (if flags.wpa3_sae {
            " | "@ + "WPA3_SAE"@
        } else {
            seq![]
        }) + (if flags.wpa2_enterprise {
            " | "@ + "WPA2_ENTERPRISE"@
        } else {
            seq![]
        }) + (if flags.wpa3_enterprise {
            " | "@ + "WPA3_ENTERPRISE"@
        } else {
            seq![]
        }) + (if flags.owe {
            " | "@ + "OWE"@
        } else {
            seq![]
        }),
{
    reveal_strlit("OPEN");
    reveal_strlit("WEP");
    reveal_strlit("WPA_PSK");
    reveal_strlit("WPA2_PSK");
    reveal_strlit("WPA3_SAE");
    reveal_strlit("WPA2_ENTERPRISE");
    reveal_strlit("WPA3_ENTERPRISE");
    reveal_strlit("OWE");
    let bar = " | "@;
    let none: Seq<char> = seq![];
    let n1 = listed(none, flags.open, "OPEN"@);
    let n2 = listed(n1, flags.wep, "WEP"@);
    let n3 = listed(n2, flags.wpa_psk, "WPA_PSK"@);
    let n4 = listed(n3, flags.wpa2_psk, "WPA2_PSK"@);
    let n5 = listed(n4, flags.wpa3_sae, "WPA3_SAE"@);
    let n6 = listed(n5, flags.wpa2_enterprise, "WPA2_ENTERPRISE"@);
    let n7 = listed(n6, flags.wpa3_enterprise, "WPA3_ENTERPRISE"@);
    let l1 = if flags.open { bar + "OPEN"@ } else { none };
    let l2 = l1 + if flags.wep { bar + "WEP"@ } else { none };
    let l3 = l2 + if flags.wpa_psk { bar + "WPA_PSK"@ } else { none };
    let l4 = l3 + if flags.wpa2_psk { bar + "WPA2_PSK"@ } else { none };
    let l5 = l4 + if flags.wpa3_sae { bar + "WPA3_SAE"@ } else { none };
    let l6 = l5 + if flags.wpa2_enterprise { bar + "WPA2_ENTERPRISE"@ } else { none };
    let l7 = l6 + if flags.wpa3_enterprise { bar + "WPA3_ENTERPRISE"@ } else { none };
    lemma_listed(none, none, flags.open, "OPEN"@);
    assert(none + l1 =~= l1);
    lemma_listed(n1, l1, flags.wep, "WEP"@);
    lemma_listed(n2, l2, flags.wpa_psk, "WPA_PSK"@);
    lemma_listed(n3, l3, flags.wpa2_psk, "WPA2_PSK"@);
    lemma_listed(n4, l4, flags.wpa3_sae, "WPA3_SAE"@);
    lemma_listed(n5, l5, flags.wpa2_enterprise, "WPA2_ENTERPRISE"@);
    lemma_listed(n6, l6, flags.wpa3_enterprise, "WPA3_ENTERPRISE"@);
    lemma_listed(n7, l7, flags.owe, "OWE"@);
}

/// `Debug` prints the names in the brackets of the type, a zero for the set without
/// any, and the alternate form on a line of its own.
pub proof fn flags_are_debugged_in_brackets(flags: SecurityFlags)
    ensures
        ({
            let names = if flags.open || flags.wep || flags.wpa_psk || flags.wpa2_psk
                || flags.wpa3_sae || flags.wpa2_enterprise || flags.wpa3_enterprise || flags.owe {
                flag_names(flags)
            } else {
                "0x0"@
            };
            &&& flags_debug(flags, false) == "SecurityFlags("@ + names + ")"@
            &&& flags_debug(flags, true) == "SecurityFlags(\n    "@ + names + ",\n)"@
        }),
{
}

} // verus!
