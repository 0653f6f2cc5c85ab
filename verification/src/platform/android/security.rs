//! Android `ScanResult.capabilities` string → [`SecurityFlags`].
//!
//! `capabilities` is a concatenation of `[KEY-MGMT-CIPHER]` tokens plus
//! topology hints like `[ESS]`, `[WPS]`. We test each token for the
//! presence of `PSK`, `EAP`, `SAE`, `OWE` substrings independently, so:
//!  - 802.11r fast-transition variants (e.g. `[RSN-FT/SAE-CCMP]`) are
//!    classified by their key-management infix.
//!  - Plus-joined transition tokens (e.g. `[WPA2-PSK+SAE-CCMP]`) yield
//!    multiple [`SecurityFlags`].

use vstd::prelude::*;

use crate::flags::{no_flags, SecurityFlags};
use crate::text::{contains_text, is_text, occurs_in, part_views, split, split_text, starts_with};

verus! {

broadcast use vstd::string::group_string_axioms;

/// A token without the brackets that close it.
pub open spec fn without_brackets(token: Seq<char>) -> Seq<char>
    decreases token.len(),
{
    if token.len() > 0 && token.last() == ']' {
        without_brackets(token.drop_last())
    } else {
        token
    }
}

/// A token that says something other than how the network is secured.
pub open spec fn is_topology(token: Seq<char>) -> bool {
    token == "ESS"@ || token == "IBSS"@ || token == "WPS"@ || token == "MFPC"@ || token == "MFPR"@
        || token == "P2P"@
}

/// The security modes that a token advertises. Legacy WPA1-Enterprise counts as
/// WPA2-Enterprise.
pub open spec fn token_security(token: Seq<char>) -> SecurityFlags {
    if "WEP"@.is_prefix_of(token) {
        SecurityFlags::wep()
    } else {
        SecurityFlags {
            open: false,
            wep: false,
            wpa_psk: occurs_in(token, "PSK"@) && "WPA-"@.is_prefix_of(token),
            wpa2_psk: occurs_in(token, "PSK"@) && !"WPA-"@.is_prefix_of(token),
            wpa3_sae: occurs_in(token, "SAE"@),
            wpa2_enterprise: occurs_in(token, "EAP"@),
            wpa3_enterprise: false,
            owe: occurs_in(token, "OWE"@),
        }
    }
}

/// Whether what stands between two opening brackets is a security token.
pub open spec fn is_security_part(part: Seq<char>) -> bool {
    part.len() > 0 && !is_topology(without_brackets(part))
}

/// Whether any part is a security token.
pub open spec fn has_security_part(parts: Seq<Seq<char>>) -> bool {
    exists|i: int| 0 <= i < parts.len() && is_security_part(#[trigger] parts[i])
}

/// All security modes that parts advertise.
pub open spec fn parts_security(parts: Seq<Seq<char>>) -> SecurityFlags
    decreases parts.len(),
{
    if parts.len() == 0 {
        no_flags()
    } else {
        let before = parts_security(parts.drop_last());
        if is_security_part(parts.last()) {
            before.either(token_security(without_brackets(parts.last())))
        } else {
            before
        }
    }
}

/// The security modes of a capabilities text. Without any security token the
/// network is open.
pub open spec fn capabilities_security(caps: Seq<char>) -> SecurityFlags {
    let parts = split_text(caps, '[');
    if has_security_part(parts) {
        parts_security(parts)
    } else {
        SecurityFlags::open()
    }
}

fn strip_brackets(part: &Vec<char>) -> (r: Vec<char>)
    ensures
        r@ == without_brackets(part@),
{
    let mut r = part.clone();
    assert(r@ =~= part@);
    while r.len() > 0 && r[r.len() - 1] == ']'
        invariant
            without_brackets(r@) == without_brackets(part@),
        decreases r@.len(),
    {
        let ghost was = r@;
        let _bracket = r.pop();
        assert(r@ =~= was.drop_last());
    }
    r
}

fn security_of_token(token: &Vec<char>) -> (r: SecurityFlags)
    ensures
        r == token_security(token@),
{
    if starts_with(token, "WEP") {
        return SecurityFlags::wep();
    }
    let mut out = SecurityFlags::empty();
    // wpa_supplicant emits one of: WPA-, WPA2-, WPA3-, RSN-.
    let is_legacy_wpa1 = starts_with(token, "WPA-");
    if contains_text(token, "OWE") {
        out.insert(SecurityFlags::owe());
    }
    if contains_text(token, "SAE") {
        out.insert(SecurityFlags::wpa3_sae());
    }
    if contains_text(token, "PSK") {
        if is_legacy_wpa1 {
            out.insert(SecurityFlags::wpa_psk());
        } else {
            out.insert(SecurityFlags::wpa2_psk());
        }
    }
    if contains_text(token, "EAP") {
        out.insert(SecurityFlags::wpa2_enterprise());
    }
    out
}

/// Translates a capabilities text.
pub fn security_from_capabilities(caps: &str) -> (r: SecurityFlags)
    ensures
        r == capabilities_security(caps@),
{
    let parts = split(caps, '[');
    let ghost views = part_views(parts@);
    let mut out = SecurityFlags::empty();
    let mut saw_owe = false;
    let mut saw_any_ie = false;
    let mut i: usize = 0;
    while i < parts.len()
        invariant
            views == part_views(parts@),
            i <= parts@.len(),
            out == parts_security(views.take(i as int)),
            saw_owe == out.owe,
            saw_any_ie == has_security_part(views.take(i as int)),
            !out.open,
        decreases parts@.len() - i,
    {
        let ghost before = views.take(i as int);
        let ghost after = views.take(i + 1);
        assert(after.drop_last() =~= before);
        assert(after.last() == parts@[i as int]@);
        proof {
            assert(has_security_part(after) <==> has_security_part(before) || is_security_part(
                parts@[i as int]@,
            )) by {
                if has_security_part(before) {
                    let k = choose|k: int| 0 <= k < before.len() && is_security_part(#[trigger] before[k]);
                    assert(after[k] == before[k]);
                }
                if has_security_part(after) {
                    let k = choose|k: int| 0 <= k < after.len() && is_security_part(#[trigger] after[k]);
                    if k < i {
                        assert(before[k] == after[k]);
                    }
                }
                if is_security_part(parts@[i as int]@) {
                    assert(is_security_part(after[i as int]));
                }
            }
        }
        if parts[i].len() > 0 {
            let token = strip_brackets(&parts[i]);
            let topology = is_text(&token, "ESS") || is_text(&token, "IBSS") || is_text(
                &token,
                "WPS",
            ) || is_text(&token, "MFPC") || is_text(&token, "MFPR") || is_text(&token, "P2P");
            if !topology {
                saw_any_ie = true;
                let modes = security_of_token(&token);
                if modes.owe {
                    saw_owe = true;
                }
                out.insert(modes);
            }
        }
        i = i + 1;
    }
    assert(views.take(views.len() as int) =~= views);
    if !saw_any_ie {
        proof {
            lemma_no_security_part(views);
        }
        // No security IE → either truly open or non-security tokens only.
        out.insert(SecurityFlags::open());
    }
    if saw_owe {
        out.remove(SecurityFlags::open());
    }
    out
}

proof fn lemma_no_security_part(parts: Seq<Seq<char>>)
    requires
        !has_security_part(parts),
    ensures
        parts_security(parts) == no_flags(),
    decreases parts.len(),
{
    if parts.len() > 0 {
        let rest = parts.drop_last();
        if has_security_part(rest) {
            let k = choose|k: int| 0 <= k < rest.len() && is_security_part(#[trigger] rest[k]);
            assert(is_security_part(parts[k]));
        }
        lemma_no_security_part(rest);
        assert(!is_security_part(parts[parts.len() - 1]));
    }
}

proof fn lemma_parts_are_not_open(parts: Seq<Seq<char>>)
    ensures
        !parts_security(parts).open,
    decreases parts.len(),
{
    if parts.len() > 0 {
        lemma_parts_are_not_open(parts.drop_last());
    }
}

/// A network that counts as open has no other mode; in particular one with OWE
/// never counts as open.
pub proof fn open_capabilities_stand_alone(caps: Seq<char>)
    ensures
        capabilities_security(caps).open ==> capabilities_security(caps) == SecurityFlags::open(),
{
    lemma_parts_are_not_open(split_text(caps, '['));
}

/// Brackets are taken off the end of a token, all of them and nothing else.
pub proof fn only_closing_brackets_go(token: Seq<char>)
    ensures
        without_brackets(token).len() <= token.len(),
        without_brackets(token) == token.take(without_brackets(token).len() as int),
        without_brackets(token).len() > 0 ==> without_brackets(token).last() != ']',
        forall|i: int| without_brackets(token).len() <= i < token.len() ==> #[trigger] token[i] == ']',
    decreases token.len(),
{
    if token.len() > 0 && token.last() == ']' {
        let rest = token.drop_last();
        only_closing_brackets_go(rest);
        let n = without_brackets(token).len() as int;
        assert(rest.take(n) =~= token.take(n));
        assert forall|i: int| n <= i < token.len() implies #[trigger] token[i] == ']' by {
            if i < rest.len() {
                assert(rest[i] == token[i]);
            }
        }
    } else {
        assert(token.take(token.len() as int) =~= token);
    }
}

proof fn lemma_parts_have_a_mode(parts: Seq<Seq<char>>, mode: spec_fn(SecurityFlags) -> bool)
    requires
        !mode(no_flags()),
        forall|a: SecurityFlags, b: SecurityFlags|
            #[trigger] mode(a.either(b)) == (mode(a) || mode(b)),
    ensures
        mode(parts_security(parts)) <==> exists|i: int|
            0 <= i < parts.len() && is_security_part(#[trigger] parts[i]) && mode(
                token_security(without_brackets(parts[i])),
            ),
    decreases parts.len(),
{
    if parts.len() > 0 {
        let rest = parts.drop_last();
        let last = parts.len() - 1;
        lemma_parts_have_a_mode(rest, mode);
        assert(parts.last() == parts[last]);
        if mode(parts_security(rest)) {
            let i = choose|i: int|
                0 <= i < rest.len() && is_security_part(#[trigger] rest[i]) && mode(
                    token_security(without_brackets(rest[i])),
                );
            assert(parts[i] == rest[i]);
        }
        if exists|i: int|
            0 <= i < parts.len() && is_security_part(#[trigger] parts[i]) && mode(
                token_security(without_brackets(parts[i])),
            ) {
            let i = choose|i: int|
                0 <= i < parts.len() && is_security_part(#[trigger] parts[i]) && mode(
                    token_security(without_brackets(parts[i])),
                );
            if i < last {
                assert(rest[i] == parts[i]);
            }
        }
    }
}

/// A network has a mode exactly when one of its tokens, other than those on
/// topology, names it; it is open exactly when there is no such token.
pub proof fn modes_are_named_by_tokens(caps: Seq<char>)
    ensures
        ({
            let parts = split_text(caps, '[');
            let modes = capabilities_security(caps);
            &&& modes.open <==> !(exists|i: int|
                0 <= i < parts.len() && (#[trigger] parts[i]).len() > 0 && without_brackets(parts[i]) != "ESS"@ && without_brackets(parts[i]) != "IBSS"@ && without_brackets(parts[i]) != "WPS"@ && without_brackets(parts[i]) != "MFPC"@ && without_brackets(parts[i]) != "MFPR"@ && without_brackets(parts[i]) != "P2P"@)
            &&& modes.wep <==> exists|i: int|
                0 <= i < parts.len() && (#[trigger] parts[i]).len() > 0 && without_brackets(parts[i]) != "ESS"@ && without_brackets(parts[i]) != "IBSS"@ && without_brackets(parts[i]) != "WPS"@ && without_brackets(parts[i]) != "MFPC"@ && without_brackets(parts[i]) != "MFPR"@ && without_brackets(parts[i]) != "P2P"@ && "WEP"@.is_prefix_of(without_brackets(parts[i]))
            &&& modes.wpa_psk <==> exists|i: int|
                0 <= i < parts.len() && (#[trigger] parts[i]).len() > 0 && without_brackets(parts[i]) != "ESS"@ && without_brackets(parts[i]) != "IBSS"@ && without_brackets(parts[i]) != "WPS"@ && without_brackets(parts[i]) != "MFPC"@ && without_brackets(parts[i]) != "MFPR"@ && without_brackets(parts[i]) != "P2P"@ && !"WEP"@.is_prefix_of(without_brackets(parts[i])) && occurs_in(without_brackets(parts[i]), "PSK"@) && "WPA-"@.is_prefix_of(without_brackets(parts[i]))
            &&& modes.wpa2_psk <==> exists|i: int|
                0 <= i < parts.len() && (#[trigger] parts[i]).len() > 0 && without_brackets(parts[i]) != "ESS"@ && without_brackets(parts[i]) != "IBSS"@ && without_brackets(parts[i]) != "WPS"@ && without_brackets(parts[i]) != "MFPC"@ && without_brackets(parts[i]) != "MFPR"@ && without_brackets(parts[i]) != "P2P"@ && !"WEP"@.is_prefix_of(without_brackets(parts[i])) && occurs_in(without_brackets(parts[i]), "PSK"@) && !"WPA-"@.is_prefix_of(without_brackets(parts[i]))
            &&& modes.wpa3_sae <==> exists|i: int|
                0 <= i < parts.len() && (#[trigger] parts[i]).len() > 0 && without_brackets(parts[i]) != "ESS"@ && without_brackets(parts[i]) != "IBSS"@ && without_brackets(parts[i]) != "WPS"@ && without_brackets(parts[i]) != "MFPC"@ && without_brackets(parts[i]) != "MFPR"@ && without_brackets(parts[i]) != "P2P"@ && !"WEP"@.is_prefix_of(without_brackets(parts[i])) && occurs_in(without_brackets(parts[i]), "SAE"@)
            &&& modes.wpa2_enterprise <==> exists|i: int|
                0 <= i < parts.len() && (#[trigger] parts[i]).len() > 0 && without_brackets(parts[i]) != "ESS"@ && without_brackets(parts[i]) != "IBSS"@ && without_brackets(parts[i]) != "WPS"@ && without_brackets(parts[i]) != "MFPC"@ && without_brackets(parts[i]) != "MFPR"@ && without_brackets(parts[i]) != "P2P"@ && !"WEP"@.is_prefix_of(without_brackets(parts[i])) && occurs_in(without_brackets(parts[i]), "EAP"@)
            &&& modes.owe <==> exists|i: int|
                0 <= i < parts.len() && (#[trigger] parts[i]).len() > 0 && without_brackets(parts[i]) != "ESS"@ && without_brackets(parts[i]) != "IBSS"@ && without_brackets(parts[i]) != "WPS"@ && without_brackets(parts[i]) != "MFPC"@ && without_brackets(parts[i]) != "MFPR"@ && without_brackets(parts[i]) != "P2P"@ && !"WEP"@.is_prefix_of(without_brackets(parts[i])) && occurs_in(without_brackets(parts[i]), "OWE"@)
            &&& !modes.wpa3_enterprise
        }),
{
    let parts = split_text(caps, '[');
    lemma_parts_are_not_open(parts);
    if has_security_part(parts) {
        let i = choose|i: int| 0 <= i < parts.len() && is_security_part(#[trigger] parts[i]);
        assert(parts[i].len() > 0);
    }
    lemma_parts_have_a_mode(parts, |m: SecurityFlags| m.wep);
    if parts_security(parts).wep {
        let i = choose|i: int|
            0 <= i < parts.len() && is_security_part(#[trigger] parts[i]) && token_security(
                without_brackets(parts[i]),
            ).wep;
        assert(parts[i].len() > 0);
    }
    assert(parts_security(parts).wep ==> has_security_part(parts));
    lemma_parts_have_a_mode(parts, |m: SecurityFlags| m.wpa_psk);
    if parts_security(parts).wpa_psk {
        let i = choose|i: int|
            0 <= i < parts.len() && is_security_part(#[trigger] parts[i]) && token_security(
                without_brackets(parts[i]),
            ).wpa_psk;
        assert(parts[i].len() > 0);
    }
    assert(parts_security(parts).wpa_psk ==> has_security_part(parts));
    lemma_parts_have_a_mode(parts, |m: SecurityFlags| m.wpa2_psk);
    if parts_security(parts).wpa2_psk {
        let i = choose|i: int|
            0 <= i < parts.len() && is_security_part(#[trigger] parts[i]) && token_security(
                without_brackets(parts[i]),
            ).wpa2_psk;
        assert(parts[i].len() > 0);
    }
    assert(parts_security(parts).wpa2_psk ==> has_security_part(parts));
    lemma_parts_have_a_mode(parts, |m: SecurityFlags| m.wpa3_sae);
    if parts_security(parts).wpa3_sae {
        let i = choose|i: int|
            0 <= i < parts.len() && is_security_part(#[trigger] parts[i]) && token_security(
                without_brackets(parts[i]),
            ).wpa3_sae;
        assert(parts[i].len() > 0);
    }
    assert(parts_security(parts).wpa3_sae ==> has_security_part(parts));
    lemma_parts_have_a_mode(parts, |m: SecurityFlags| m.wpa2_enterprise);
    if parts_security(parts).wpa2_enterprise {
        let i = choose|i: int|
            0 <= i < parts.len() && is_security_part(#[trigger] parts[i]) && token_security(
                without_brackets(parts[i]),
            ).wpa2_enterprise;
        assert(parts[i].len() > 0);
    }
    assert(parts_security(parts).wpa2_enterprise ==> has_security_part(parts));
    lemma_parts_have_a_mode(parts, |m: SecurityFlags| m.owe);
    if parts_security(parts).owe {
        let i = choose|i: int|
            0 <= i < parts.len() && is_security_part(#[trigger] parts[i]) && token_security(
                without_brackets(parts[i]),
            ).owe;
        assert(parts[i].len() > 0);
    }
    assert(parts_security(parts).owe ==> has_security_part(parts));
    lemma_parts_have_a_mode(parts, |m: SecurityFlags| m.wpa3_enterprise);
}

} // verus!
