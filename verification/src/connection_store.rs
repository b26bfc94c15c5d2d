//! What a client remembers from one run to the next: its own identifier and
//! where it last found the server.

use crate::common::{get_setting_by_key, remove_setting, set_setting};
use crate::schema::{Format, ServerConnectInfo};
use crate::text;
use crate::types::save_key;
use crate::types::InMemoryStorage;
use crate::Settings;
use vstd::prelude::*;
use vstd::string::*;
use vstd::utf8::*;

verus! {

/// Whether a character may stand in a generated identifier.
pub open spec fn url_safe(c: char) -> bool {
    ||| c == '_' || c == '-'
    ||| '0' as u32 <= c as u32 <= '9' as u32
    ||| 'a' as u32 <= c as u32 <= 'z' as u32
    ||| 'A' as u32 <= c as u32 <= 'Z' as u32
}

/// Whether a text has the shape of a generated identifier.
pub open spec fn is_generated_id(id: Seq<char>) -> bool {
    id.len() == 21 && forall|i: int| 0 <= i < id.len() ==> url_safe(#[trigger] id[i])
}

/// `nanoid::format` with the default generator and alphabet and a length of
/// 21: a random text over the 64 URL-safe characters. Which one comes back is
/// chance.
#[verifier::external_body]
fn random_id() -> (id: String)
    ensures
        is_generated_id(id@),
{
    nanoid::format(nanoid::rngs::default, &nanoid::alphabet::SAFE, 21)
}

/// `String::from_utf8`: the text that these bytes encode, if they are
/// well-formed UTF-8.
#[verifier::external_body]
fn text_from_utf8(bytes: Vec<u8>) -> (text: Option<String>)
    ensures
        text is Some <==> valid_utf8(bytes@),
        text matches Some(s) ==> s@ == decode_utf8(bytes@),
{
    String::from_utf8(bytes).ok()
}

/// The text that these bytes encode, or the empty text where they are not
/// well-formed UTF-8.
pub open spec fn utf8_or_empty(bytes: Seq<u8>) -> Seq<char> {
    if valid_utf8(bytes) {
        decode_utf8(bytes)
    } else {
        Seq::empty()
    }
}

/// The text that these bytes encode, or the empty text.
pub fn text_or_empty(bytes: Vec<u8>) -> (text: String)
    ensures
        text@ == utf8_or_empty(bytes@),
{
    match text_from_utf8(bytes) {
        Some(text) => text,
        None => String::new(),
    }
}

/// The bytes of a fresh client identifier.
pub fn new_client_id_value() -> (value: Vec<u8>)
    ensures
        exists|id: Seq<char>| #[trigger] is_generated_id(id) && value@ == encode_utf8(id),
{
    let id: String = random_id();
    let value: Vec<u8> = id.as_str().as_bytes_vec();
    assert(is_generated_id(id@) && value@ == encode_utf8(id@));
    value
}

/// The client identifier in a stored setting: empty where there is none or
/// where it is not text.
pub fn client_id_from_value(value: Option<Vec<u8>>) -> (id: String)
    ensures
        id@ == match value {
            Some(bytes) => utf8_or_empty(bytes@),
            None => Seq::empty(),
        },
{
    match value {
        Some(bytes) => text_or_empty(bytes),
        None => String::new(),
    }
}

/// The address and port that a stored setting holds. A bare setting holds an
/// address and no port.
pub open spec fn info_in(format: Format, value: Seq<u8>) -> Option<(Seq<char>, Seq<char>)> {
    match format {
        Format::Bebop => if ServerConnectInfo::readable(value) {
            Some((ServerConnectInfo::server_ip_in(value), ServerConnectInfo::port_in(value)))
        } else {
            None
        },
        Format::Raw => Some((utf8_or_empty(value), Seq::empty())),
    }
}

/// The setting that holds an address and a port, if they can be written.
pub open spec fn info_value(format: Format, server_ip: Seq<char>, port: Seq<char>) -> Option<
    Seq<u8>,
> {
    match format {
        Format::Bebop => if ServerConnectInfo::writable(server_ip, port) {
            Some(ServerConnectInfo::layout_of(server_ip, port))
        } else {
            None
        },
        Format::Raw => Some(encode_utf8(server_ip)),
    }
}

/// Reads the address and port out of a stored setting.
pub fn info_from_value(format: Format, value: Vec<u8>) -> (info: Option<(String, String)>)
    ensures
        info is Some <==> info_in(format, value@) is Some,
        info matches Some((server_ip, port)) ==> info_in(format, value@) == Some(
            (server_ip@, port@),
        ),
{
    match format {
        Format::Bebop => match ServerConnectInfo::deserialize(value.as_slice()) {
            Ok(info) => Some((info.server_ip.to_owned(), info.port.to_owned())),
            Err(_) => None,
        },
        Format::Raw => Some((text_or_empty(value), String::new())),
    }
}

/// Writes an address and a port into a setting.
pub fn info_to_value(format: Format, server_ip: &str, port: &str) -> (value: Option<Vec<u8>>)
    ensures
        value is Some <==> info_value(format, server_ip@, port@) is Some,
        value matches Some(bytes) ==> info_value(format, server_ip@, port@) == Some(bytes@),
{
    match format {
        Format::Bebop => {
            let mut value: Vec<u8> = Vec::new();
            match (ServerConnectInfo { server_ip, port }).serialize(&mut value) {
                Ok(_) => {
                    assert(value@ == ServerConnectInfo::layout_of(server_ip@, port@));
                    Some(value)
                },
                Err(_) => None,
            }
        },
        Format::Raw => Some(server_ip.as_bytes_vec()),
    }
}

/// A port that is worth keeping: itself where it is a number, nothing where
/// it is anything else.
pub open spec fn sane_port(port: Seq<char>) -> Seq<char> {
    if text::all_digits(port) {
        port
    } else {
        Seq::empty()
    }
}

/// The port, or the empty text where it is not made of digits alone.
pub fn keep_numeric(port: &str) -> (kept: String)
    ensures
        kept@ == sane_port(port@),
{
    let chars: Vec<char> = text::characters(port);
    if text::digits_between(&chars, 0, chars.len()) {
        assert(chars@.subrange(0, chars@.len() as int) =~= port@);
        port.to_owned()
    } else {
        assert(chars@.subrange(0, chars@.len() as int) =~= port@);
        String::new()
    }
}

/// What becomes of the stored address and port when the address is cleared.
pub enum ClearOutcome {
    /// Nothing readable is stored: it stays as it is
    Unchanged,
    /// This setting takes the place of the old one
    Replace(Vec<u8>),
    /// The setting is dropped
    Remove,
}

/// Decides what becomes of a stored setting when its address is cleared. The
/// port stays if it is a number.
pub fn cleared_value(format: Format, value: Option<Vec<u8>>) -> (outcome: ClearOutcome)
    ensures
        match format {
            Format::Bebop => match value {
                Some(bytes) => match info_in(format, bytes@) {
                    Some((_, port)) => match info_value(format, Seq::empty(), sane_port(port)) {
                        Some(written) => outcome matches ClearOutcome::Replace(new) && new@
                            == written,
                        None => outcome is Unchanged,
                    },
                    None => outcome is Unchanged,
                },
                None => outcome is Unchanged,
            },
            Format::Raw => outcome is Remove,
        },
{
    match format {
        Format::Bebop => match value {
            Some(bytes) => match info_from_value(format, bytes) {
                Some((_, port)) => {
                    proof {
                        reveal_strlit("");
                        assert(""@ =~= Seq::<char>::empty());
                    }
                    match info_to_value(format, "", keep_numeric(port.as_str()).as_str()) {
                        Some(written) => ClearOutcome::Replace(written),
                        None => ClearOutcome::Unchanged,
                    }
                },
                None => ClearOutcome::Unchanged,
            },
            None => ClearOutcome::Unchanged,
        },
        Format::Raw => ClearOutcome::Remove,
    }
}

/// Keeps a client's identity: its identifier and the last known server.
/// Implement this to keep them in a database of your own.
pub trait ConnectionStore {
    /// Whether an identifier has been registered.
    spec fn registered(&self) -> bool;

    /// The registered identifier, empty if there is none.
    spec fn client_id(&self) -> Seq<char>;

    /// The stored address and port, if there are any.
    spec fn connect_info(&self) -> Option<(Seq<char>, Seq<char>)>;

    /// What `connect_info` becomes when this address and port are stored.
    spec fn info_after_set(&self, server_ip: Seq<char>, port: Seq<char>) -> Option<
        (Seq<char>, Seq<char>),
    >;

    /// What `connect_info` becomes when the address is cleared.
    spec fn info_after_clear(&self) -> Option<(Seq<char>, Seq<char>)>;

    /// Registers an identifier if there is none yet.
    fn ensure_client_id(&mut self)
        ensures
            final(self).registered(),
            final(self).connect_info() == old(self).connect_info(),
            old(self).registered() ==> final(self).client_id() == old(self).client_id(),
    ;

    /// The registered identifier, empty if there is none.
    fn get_client_id(&self) -> (id: String)
        ensures
            id@ == self.client_id(),
    ;

    /// The stored address and port. The address is empty where only a port has
    /// been reserved.
    fn get_server_connect_info(&self) -> (info: Option<(String, String)>)
        ensures
            info is Some <==> self.connect_info() is Some,
            info matches Some((server_ip, port)) ==> self.connect_info() == Some(
                (server_ip@, port@),
            ),
    ;

    /// Stores an address and a port. The address may be empty, to reserve the
    /// port.
    fn set_server_connect_info(&mut self, server_ip: &str, port: &str)
        ensures
            final(self).connect_info() == old(self).info_after_set(server_ip@, port@),
            final(self).registered() == old(self).registered(),
            final(self).client_id() == old(self).client_id(),
    ;

    /// Forgets the address and keeps what else is stored, as far as the
    /// backend can.
    fn clear_server_ip(&mut self, server_ip: &str)
        ensures
            final(self).connect_info() == old(self).info_after_clear(),
            final(self).registered() == old(self).registered(),
            final(self).client_id() == old(self).client_id(),
    ;
}

/// A store over a table of settings.
pub struct NativeDbConnectionStore {
    db: InMemoryStorage,
    format: Format,
}

impl NativeDbConnectionStore {
    /// The settings of this store.
    pub closed spec fn settings(&self) -> Map<Seq<char>, Seq<u8>> {
        self.db@
    }

    /// How this store writes its records.
    pub closed spec fn written_as(&self) -> Format {
        self.format
    }

    /// What the settings become when the address is cleared: a readable bebop
    /// record keeps its port, a bare setting is dropped, and all other settings
    /// stay.
    pub open spec fn settings_after_clear(&self) -> Map<Seq<char>, Seq<u8>> {
        match self.written_as() {
            Format::Bebop => match self.connect_info() {
                Some((_, port)) => match info_value(Format::Bebop, Seq::empty(), sane_port(port)) {
                    Some(value) => self.settings().insert("ServerConnectInfo"@, value),
                    None => self.settings(),
                },
                None => self.settings(),
            },
            Format::Raw => self.settings().remove("ServerConnectInfo"@),
        }
    }

    /// A store over this table, with bebop records.
    pub fn new(db: InMemoryStorage) -> (store: Self)
        ensures
            store.settings() == db@,
            store.written_as() == Format::Bebop,
    {
        NativeDbConnectionStore { db, format: Format::Bebop }
    }

    /// A store over this table, with bare bytes.
    pub fn raw(db: InMemoryStorage) -> (store: Self)
        ensures
            store.settings() == db@,
            store.written_as() == Format::Raw,
    {
        NativeDbConnectionStore { db, format: Format::Raw }
    }

    /// The table of this store.
    pub fn into_db(self) -> (db: InMemoryStorage)
        ensures
            db@ == self.settings(),
    {
        self.db
    }

    /// The setting with this name, if there is one.
    fn value_of(&self, key: &str) -> (value: Option<Vec<u8>>)
        ensures
            value is Some <==> self.settings().contains_key(key@),
            value matches Some(bytes) ==> bytes@ == self.settings()[key@],
    {
        match get_setting_by_key(&self.db, key.to_owned()) {
            Ok(Some(setting)) => Some(setting.value),
            _ => None,
        }
    }
}

impl ConnectionStore for NativeDbConnectionStore {
    open spec fn registered(&self) -> bool {
        self.settings().contains_key("ClientId"@)
    }

    open spec fn client_id(&self) -> Seq<char> {
        if self.settings().contains_key("ClientId"@) {
            utf8_or_empty(self.settings()["ClientId"@])
        } else {
            Seq::empty()
        }
    }

    open spec fn connect_info(&self) -> Option<(Seq<char>, Seq<char>)> {
        if self.settings().contains_key("ServerConnectInfo"@) {
            info_in(self.written_as(), self.settings()["ServerConnectInfo"@])
        } else {
            None
        }
    }

    open spec fn info_after_set(&self, server_ip: Seq<char>, port: Seq<char>) -> Option<
        (Seq<char>, Seq<char>),
    > {
        match self.written_as() {
            Format::Bebop => if ServerConnectInfo::writable(server_ip, port) {
                Some((server_ip, port))
            } else {
                self.connect_info()
            },
            Format::Raw => Some((server_ip, Seq::empty())),
        }
    }

    open spec fn info_after_clear(&self) -> Option<(Seq<char>, Seq<char>)> {
        match self.written_as() {
            Format::Bebop => match self.connect_info() {
                Some((_, port)) => self.info_after_set(Seq::empty(), sane_port(port)),
                None => None,
            },
            Format::Raw => None,
        }
    }

    fn ensure_client_id(&mut self)
        ensures
            old(self).registered() ==> final(self).settings() == old(self).settings(),
            !old(self).registered() ==> is_generated_id(final(self).client_id())
                && final(self).settings() == old(self).settings().insert(
                "ClientId"@,
                encode_utf8(final(self).client_id()),
            ),
            final(self).written_as() == old(self).written_as(),
    {
        if self.value_of(save_key::CLIENT_ID).is_none() {
            let value: Vec<u8> = new_client_id_value();
            proof {
                let id = choose|id: Seq<char>| #[trigger]
                    is_generated_id(id) && value@ == encode_utf8(id);
                encode_utf8_valid_utf8(id);
                encode_utf8_decode_utf8(id);
                lemma_keys_differ();
            }
            let _ = set_setting(
                &mut self.db,
                Settings { key: save_key::CLIENT_ID.to_owned(), value },
            );
        }
    }

    fn get_client_id(&self) -> (id: String) {
        client_id_from_value(self.value_of(save_key::CLIENT_ID))
    }

    fn get_server_connect_info(&self) -> (info: Option<(String, String)>) {
        match self.value_of(save_key::SERVER_CONNECT_INFO) {
            Some(value) => info_from_value(self.format, value),
            None => None,
        }
    }

    fn set_server_connect_info(&mut self, server_ip: &str, port: &str)
        ensures
            final(self).settings() == match info_value(
                old(self).written_as(),
                server_ip@,
                port@,
            ) {
                Some(value) => old(self).settings().insert("ServerConnectInfo"@, value),
                None => old(self).settings(),
            },
            final(self).written_as() == old(self).written_as(),
    {
        match info_to_value(self.format, server_ip, port) {
            Some(value) => {
                proof {
                    lemma_keys_differ();
                    lemma_info_round_trip(self.format, server_ip@, port@);
                }
                let _ = set_setting(
                    &mut self.db,
                    Settings { key: save_key::SERVER_CONNECT_INFO.to_owned(), value },
                );
            },
            None => {},
        }
    }

    fn clear_server_ip(&mut self, _server_ip: &str)
        ensures
            final(self).settings() == old(self).settings_after_clear(),
            final(self).written_as() == old(self).written_as(),
    {
        let value = self.value_of(save_key::SERVER_CONNECT_INFO);
        proof {
            lemma_keys_differ();
        }
        match cleared_value(self.format, value) {
            ClearOutcome::Unchanged => {},
            ClearOutcome::Replace(value) => {
                proof {
                    let port = self.connect_info()->Some_0.1;
                    lemma_info_round_trip(self.format, Seq::empty(), sane_port(port));
                }
                let _ = set_setting(
                    &mut self.db,
                    Settings { key: save_key::SERVER_CONNECT_INFO.to_owned(), value },
                );
            },
            ClearOutcome::Remove => {
                let _ = remove_setting(&mut self.db, save_key::SERVER_CONNECT_INFO.to_owned());
            },
        }
    }
}

/// Something that a store is to be told.
#[derive(Debug)]
pub enum StoreChange {
    /// Register an identifier if there is none yet
    Register,
    /// Store this address and this port
    Remember(String, String),
    /// Forget the address; this is the one that has failed
    Forget(String),
}

/// Something that a store is to be told, as plain text.
pub enum ChangeView {
    Register,
    Remember(Seq<char>, Seq<char>),
    Forget(Seq<char>),
}

impl View for StoreChange {
    type V = ChangeView;

    open spec fn view(&self) -> ChangeView {
        match self {
            StoreChange::Register => ChangeView::Register,
            StoreChange::Remember(server_ip, port) => ChangeView::Remember(server_ip@, port@),
            StoreChange::Forget(server_ip) => ChangeView::Forget(server_ip@),
        }
    }
}

/// What a store held at one moment, and all that it is to be told since, in
/// order. It stands in for a store that cannot be asked at once.
#[derive(Debug)]
pub struct StoreSnapshot {
    client_id: String,
    info: Option<(String, String)>,
    asked: bool,
    changes: Vec<StoreChange>,
}

impl StoreSnapshot {
    /// What the store is to be told, in order.
    pub closed spec fn changes(&self) -> Seq<ChangeView> {
        self.changes@.map_values(|change: StoreChange| change@)
    }

    /// Whether the store is to be told to register an identifier.
    pub closed spec fn asked(&self) -> bool {
        self.asked
    }

    /// A store that held this identifier, this address and this port, and is to
    /// be told nothing.
    pub fn new(client_id: String, info: Option<(String, String)>) -> (snapshot: Self)
        ensures
            snapshot.client_id() == client_id@,
            snapshot.connect_info() == match info {
                Some((server_ip, port)) => Some((server_ip@, port@)),
                None => None,
            },
            snapshot.registered() == (client_id@.len() > 0),
            snapshot.changes() == Seq::<ChangeView>::empty(),
    {
        let snapshot = StoreSnapshot { client_id, info, asked: false, changes: Vec::new() };
        assert(snapshot.changes() =~= Seq::<ChangeView>::empty());
        snapshot
    }

    /// Adds to what the store is to be told.
    fn record(&mut self, change: StoreChange)
        ensures
            final(self).changes() == old(self).changes().push(change@),
            final(self).client_id == old(self).client_id,
            final(self).info == old(self).info,
            final(self).asked == old(self).asked,
    {
        self.changes.push(change);
        assert(self.changes() =~= old(self).changes().push(change@));
    }

    /// What the store is to be told, in order.
    pub fn into_changes(self) -> (changes: Vec<StoreChange>)
        ensures
            changes@.map_values(|change: StoreChange| change@) == self.changes(),
    {
        self.changes
    }
}

impl ConnectionStore for StoreSnapshot {
    open spec fn registered(&self) -> bool {
        self.client_id().len() > 0 || self.asked()
    }

    closed spec fn client_id(&self) -> Seq<char> {
        self.client_id@
    }

    closed spec fn connect_info(&self) -> Option<(Seq<char>, Seq<char>)> {
        match self.info {
            Some((server_ip, port)) => Some((server_ip@, port@)),
            None => None,
        }
    }

    open spec fn info_after_set(&self, server_ip: Seq<char>, port: Seq<char>) -> Option<
        (Seq<char>, Seq<char>),
    > {
        Some((server_ip, port))
    }

    open spec fn info_after_clear(&self) -> Option<(Seq<char>, Seq<char>)> {
        match self.connect_info() {
            Some((_, port)) => Some((Seq::empty(), sane_port(port))),
            None => None,
        }
    }

    fn ensure_client_id(&mut self)
        ensures
            final(self).client_id() == old(self).client_id(),
            final(self).changes() == old(self).changes().push(ChangeView::Register),
    {
        self.record(StoreChange::Register);
        self.asked = true;
    }

    fn get_client_id(&self) -> (id: String) {
        self.client_id.clone()
    }

    fn get_server_connect_info(&self) -> (info: Option<(String, String)>) {
        match &self.info {
            Some((server_ip, port)) => Some((server_ip.clone(), port.clone())),
            None => None,
        }
    }

    fn set_server_connect_info(&mut self, server_ip: &str, port: &str)
        ensures
            final(self).changes() == old(self).changes().push(
                ChangeView::Remember(server_ip@, port@),
            ),
    {
        self.record(StoreChange::Remember(server_ip.to_owned(), port.to_owned()));
        self.info = Some((server_ip.to_owned(), port.to_owned()));
    }

    fn clear_server_ip(&mut self, server_ip: &str)
        ensures
            final(self).changes() == old(self).changes().push(ChangeView::Forget(server_ip@)),
    {
        self.record(StoreChange::Forget(server_ip.to_owned()));
        let kept: Option<(String, String)> = match &self.info {
            Some((_, port)) => Some((String::new(), keep_numeric(port.as_str()))),
            None => None,
        };
        self.info = kept;
    }
}

/// The two settings of a client go by different names.
proof fn lemma_keys_differ()
    ensures
        "ClientId"@ != "ServerConnectInfo"@,
{
    reveal_strlit("ClientId");
    reveal_strlit("ServerConnectInfo");
    assert("ClientId"@.len() != "ServerConnectInfo"@.len());
}

/// Reading a stored address and port gives back what was stored: both of them
/// in a bebop record, the address alone in a bare setting.
pub proof fn lemma_info_round_trip(format: Format, server_ip: Seq<char>, port: Seq<char>)
    requires
        info_value(format, server_ip, port) is Some,
    ensures
        info_in(format, info_value(format, server_ip, port)->Some_0) == Some(
            match format {
                Format::Bebop => (server_ip, port),
                Format::Raw => (server_ip, Seq::empty()),
            },
        ),
{
    match format {
        Format::Bebop => {
            crate::schema::lemma_server_connect_info_round_trip(server_ip, port, Seq::empty());
            let layout = ServerConnectInfo::layout_of(server_ip, port);
            assert(layout + Seq::<u8>::empty() =~= layout);
        },
        Format::Raw => {
            encode_utf8_valid_utf8(server_ip);
            encode_utf8_decode_utf8(server_ip);
        },
    }
}

/// A port that is a number survives the loss of its address, so that the next
/// scan looks for the right one.
pub proof fn lemma_port_survives_clearing(
    store: NativeDbConnectionStore,
    server_ip: Seq<char>,
    port: Seq<char>,
)
    requires
        store.written_as() == Format::Bebop,
        store.connect_info() == Some((server_ip, port)),
        text::all_digits(port),
        crate::wire::text_fits(port),
    ensures
        store.info_after_clear() == Some((Seq::<char>::empty(), port)),
{
    crate::wire::lemma_empty_fits();
}

} // verus!
