//! Builder for the `NetworkManager` connection-settings dictionary
//! (`a{sa{sv}}`).

use vstd::prelude::*;

use crate::assoc::AssocMap;
use crate::types::{ssid_display, Credentials, Ssid};

verus! {

broadcast use vstd::string::group_string_axioms;

/// A value of the settings dictionary.
#[derive(Debug)]
pub enum SettingValue {
    /// `s`
    Text(String),
    /// `ay`
    Bytes(Vec<u8>),
    /// `b`
    Flag(bool),
}

/// What a [`SettingValue`] says.
pub enum SettingView {
    Text(Seq<char>),
    Bytes(Seq<u8>),
    Flag(bool),
}

impl View for SettingValue {
    type V = SettingView;

    open spec fn view(&self) -> SettingView {
        match self {
            SettingValue::Text(s) => SettingView::Text(s@),
            SettingValue::Bytes(b) => SettingView::Bytes(b@),
            SettingValue::Flag(f) => SettingView::Flag(*f),
        }
    }
}

/// One section: values by key.
pub type Section = AssocMap<String, SettingValue>;

/// The dictionary: sections by name.
pub type ConnectionSettings = AssocMap<String, Section>;

/// What a section says.
pub open spec fn section_view(section: Section) -> Map<Seq<char>, SettingView> {
    section@.map_values(|v: SettingValue| v@)
}

/// What the dictionary says.
pub open spec fn settings_view(settings: ConnectionSettings) -> Map<
    Seq<char>,
    Map<Seq<char>, SettingView>,
> {
    settings@.map_values(|s: Section| section_view(s))
}

/// The `connection` section for an SSID.
pub open spec fn connection_section(ssid: Seq<u8>) -> Map<Seq<char>, SettingView> {
    map![
        "type"@ => SettingView::Text("802-11-wireless"@),
        "id"@ => SettingView::Text("uniwifi:"@ + ssid_display(ssid)),
        "autoconnect"@ => SettingView::Flag(true),
    ]
}

/// The `802-11-wireless` section for an SSID.
pub open spec fn wireless_section(ssid: Seq<u8>) -> Map<Seq<char>, SettingView> {
    map![
        "ssid"@ => SettingView::Bytes(ssid),
        "mode"@ => SettingView::Text("infrastructure"@),
    ]
}

/// The `802-11-wireless-security` section for a passphrase.
pub open spec fn security_section(psk: Seq<char>) -> Map<Seq<char>, SettingView> {
    map![
        "key-mgmt"@ => SettingView::Text("wpa-psk"@),
        "psk"@ => SettingView::Text(psk),
    ]
}

/// The whole dictionary.
pub open spec fn connection_settings(ssid: Seq<u8>, credentials: Option<Seq<char>>) -> Map<
    Seq<char>,
    Map<Seq<char>, SettingView>,
> {
    let base = map![
        "connection"@ => connection_section(ssid),
        "802-11-wireless"@ => wireless_section(ssid),
    ];
    match credentials {
        None => base,
        Some(psk) => base.insert("802-11-wireless-security"@, security_section(psk)),
    }
}

fn put(section: &mut Section, key: &str, value: SettingValue)
    ensures
        section_view(*final(section)) == section_view(*old(section)).insert(key@, value@),
{
    section.insert(key.to_owned(), value);
    assert(section_view(*section) =~= section_view(*old(section)).insert(key@, value@));
}

fn new_section() -> (r: Section)
    ensures
        section_view(r) == Map::<Seq<char>, SettingView>::empty(),
{
    let r: Section = AssocMap::new();
    assert(section_view(r) =~= Map::<Seq<char>, SettingView>::empty());
    r
}

fn add_section(settings: &mut ConnectionSettings, name: &str, section: Section)
    ensures
        settings_view(*final(settings)) == settings_view(*old(settings)).insert(
            name@,
            section_view(section),
        ),
{
    settings.insert(name.to_owned(), section);
    assert(settings_view(*settings) =~= settings_view(*old(settings)).insert(
        name@,
        section_view(section),
    ));
}

/// Build the `a{sa{sv}}` settings dict for a Wi-Fi connection profile.
///
/// Sections produced:
/// - `connection`    — top-level metadata (`type`, `id`, `autoconnect`).
/// - `802-11-wireless` — the SSID octets and infrastructure mode.
/// - `802-11-wireless-security` — present iff credentials carry a PSK.
pub fn build_connection_settings(ssid: &Ssid, credentials: &Credentials) -> (r: ConnectionSettings)
    ensures
        settings_view(r) == connection_settings(ssid@, credentials@),
{
    let mut settings: ConnectionSettings = AssocMap::new();
    assert(settings_view(settings) =~= Map::<Seq<char>, Map<Seq<char>, SettingView>>::empty());

    let mut connection = new_section();
    put(&mut connection, "type", SettingValue::Text("802-11-wireless".to_owned()));
    let mut id = "uniwifi:".to_owned();
    id.push_str(ssid.to_string().as_str());
    put(&mut connection, "id", SettingValue::Text(id));
    put(&mut connection, "autoconnect", SettingValue::Flag(true));
    assert(section_view(connection) == connection_section(ssid@));
    add_section(&mut settings, "connection", connection);

    let mut wireless = new_section();
    put(
        &mut wireless,
        "ssid",
        SettingValue::Bytes(vstd::slice::slice_to_vec(ssid.as_bytes())),
    );
    put(&mut wireless, "mode", SettingValue::Text("infrastructure".to_owned()));
    assert(section_view(wireless) == wireless_section(ssid@));
    add_section(&mut settings, "802-11-wireless", wireless);

    if let Some(psk) = credentials.passphrase() {
        let mut security = new_section();
        put(&mut security, "key-mgmt", SettingValue::Text("wpa-psk".to_owned()));
        put(&mut security, "psk", SettingValue::Text(psk.to_owned()));
        assert(section_view(security) == security_section(psk@));
        add_section(&mut settings, "802-11-wireless-security", security);
    }
    settings
}

/// There is a security section exactly when there is a passphrase, and it holds
/// the passphrase; the SSID is given as its octets either way.
pub proof fn settings_follow_the_credentials(ssid: Seq<u8>, credentials: Option<Seq<char>>)
    ensures
        connection_settings(ssid, credentials).contains_key("802-11-wireless-security"@)
            <==> credentials is Some,
        credentials matches Some(psk) ==> connection_settings(
            ssid,
            credentials,
        )["802-11-wireless-security"@]["psk"@] == SettingView::Text(psk),
        connection_settings(ssid, credentials)["802-11-wireless"@]["ssid"@] == SettingView::Bytes(
            ssid,
        ),
{
    reveal_strlit("connection");
    reveal_strlit("802-11-wireless");
    reveal_strlit("802-11-wireless-security");
    reveal_strlit("ssid");
    reveal_strlit("mode");
    reveal_strlit("key-mgmt");
    reveal_strlit("psk");
    assert("connection"@.len() == 10);
    assert("802-11-wireless"@.len() == 15);
    assert("802-11-wireless-security"@.len() == 24);
    assert("ssid"@[0] != "mode"@[0]);
}

/// A value is found in the dictionary under exactly the sections and keys of a
/// Wi-Fi profile: the connection's type, label and autoconnect, the network's
/// octets and mode, and with a passphrase the key management and the passphrase.
pub proof fn settings_hold_these_values(
    ssid: Seq<u8>,
    credentials: Option<Seq<char>>,
    section: Seq<char>,
    key: Seq<char>,
)
    ensures
        ({
            let settings = connection_settings(ssid, credentials);
            let value = if settings.contains_key(section) && settings[section].contains_key(key) {
                Some(settings[section][key])
            } else {
                None
            };
            value == if section == "connection"@ && key == "type"@ {
                Some(SettingView::Text("802-11-wireless"@))
            } else if section == "connection"@ && key == "id"@ {
                Some(SettingView::Text("uniwifi:"@ + ssid_display(ssid)))
            } else if section == "connection"@ && key == "autoconnect"@ {
                Some(SettingView::Flag(true))
            } else if section == "802-11-wireless"@ && key == "ssid"@ {
                Some(SettingView::Bytes(ssid))
            } else if section == "802-11-wireless"@ && key == "mode"@ {
                Some(SettingView::Text("infrastructure"@))
            } else if section == "802-11-wireless-security"@ && key == "key-mgmt"@ && credentials
                is Some {
                Some(SettingView::Text("wpa-psk"@))
            } else if section == "802-11-wireless-security"@ && key == "psk"@ && credentials is Some {
                Some(SettingView::Text(credentials->0))
            } else {
                None
            }
        }),
{
    reveal_strlit("connection");
    reveal_strlit("802-11-wireless");
    reveal_strlit("802-11-wireless-security");
    reveal_strlit("type");
    reveal_strlit("id");
    reveal_strlit("autoconnect");
    reveal_strlit("ssid");
    reveal_strlit("mode");
    reveal_strlit("key-mgmt");
    reveal_strlit("psk");
    assert("connection"@.len() == 10);
    assert("802-11-wireless"@.len() == 15);
    assert("802-11-wireless-security"@.len() == 24);
    assert("type"@.len() == 4 && "id"@.len() == 2 && "autoconnect"@.len() == 11);
    assert("ssid"@[0] != "mode"@[0]);
    assert("key-mgmt"@.len() == 8 && "psk"@.len() == 3);
}

/// What a value says is what it holds.
pub proof fn setting_views_are_faithful(text: String, octets: Vec<u8>, flag: bool)
    ensures
        SettingValue::Text(text)@ == SettingView::Text(text@),
        SettingValue::Bytes(octets)@ == SettingView::Bytes(octets@),
        SettingValue::Flag(flag)@ == SettingView::Flag(flag),
{
}

/// A dictionary is seen section by section and value by value, under the same
/// names.
pub proof fn settings_are_seen_by_name(
    settings: ConnectionSettings,
    name: Seq<char>,
    key: Seq<char>,
)
    ensures
        settings_view(settings).contains_key(name) <==> settings@.contains_key(name),
        settings@.contains_key(name) ==> (settings_view(settings)[name].contains_key(key)
            <==> settings@[name]@.contains_key(key)),
        settings@.contains_key(name) && settings@[name]@.contains_key(key) ==> settings_view(
            settings,
        )[name][key] == settings@[name]@[key]@,
{
}

} // verus!
