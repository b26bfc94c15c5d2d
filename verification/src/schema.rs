//! The records that clients and servers exchange, and the categories that
//! tell them apart.

use crate::error::AtomicWebsocketError;
use crate::wire;
use vstd::prelude::*;

verus! {

/// What a message is about. The library's own categories start at 10000;
/// every other number belongs to the application.
#[derive(Debug, Clone, Copy, PartialEq, Eq, Structural)]
pub enum Category {
    /// A client says who it is, or that it is still there
    Ping,
    /// The server's answer to a ping
    Pong,
    /// The client's registration is no longer valid
    Expired,
    /// The connection is about to be closed
    Disconnect,
}

impl Category {
    /// The number of this category.
    pub open spec fn number(self) -> u16 {
        match self {
            Category::Ping => 10000,
            Category::Pong => 10001,
            Category::Expired => 10002,
            Category::Disconnect => 10003,
        }
    }

    /// The number that stands for this category on the wire.
    pub fn code(self) -> (n: u16)
        ensures
            n == self.number(),
    {
        match self {
            Category::Ping => 10000,
            Category::Pong => 10001,
            Category::Expired => 10002,
            Category::Disconnect => 10003,
        }
    }

    /// The category with this number, if it is one of the library's own.
    pub fn from_code(n: u16) -> (c: Option<Category>)
        ensures
            c matches Some(category) ==> category.number() == n,
            c is None <==> n < 10000 || n > 10003,
            c is None ==> forall|category: Category|
                #![trigger category.number()]
                category.number() != n,
    {
        if n == 10000 {
            Some(Category::Ping)
        } else if n == 10001 {
            Some(Category::Pong)
        } else if n == 10002 {
            Some(Category::Expired)
        } else if n == 10003 {
            Some(Category::Disconnect)
        } else {
            None
        }
    }
}

/// How messages and stored records are written.
#[derive(Debug, Clone, Copy, PartialEq, Eq, Structural)]
pub enum Format {
    /// With categories in messages and bebop records in storage
    Bebop,
    /// As bare bytes
    Raw,
}

/// The names under which the library keeps its own settings.
#[derive(Debug, Clone, Copy, PartialEq, Eq, Structural)]
pub enum SaveKey {
    /// Address and port of the last known server
    ServerConnectInfo,
    /// Whether this client is registered
    ValidClient,
    /// The generated client identifier
    ClientId,
}

/// A message taken apart: its category and the bytes that follow.
#[derive(Debug, Clone, Copy)]
pub struct Data<'a> {
    pub category: u16,
    pub datas: &'a [u8],
}

/// A client names itself.
#[derive(Debug, Clone, Copy)]
pub struct Ping<'a> {
    pub peer: &'a str,
    pub activations: u32,
}

/// A connection is closed on behalf of a peer.
#[derive(Debug, Clone, Copy)]
pub struct Disconnect<'a> {
    pub peer: &'a str,
}

/// Whether a registration has run out.
#[derive(Debug, Clone, Copy, PartialEq, Eq)]
pub struct Expired {
    pub is_expired: bool,
}

/// Where the server was last found.
#[derive(Debug, Clone, Copy)]
pub struct ServerConnectInfo<'a> {
    pub server_ip: &'a str,
    pub port: &'a str,
}

/// An application announces itself after connecting.
#[derive(Debug, Clone, Copy)]
pub struct AppStartup<'a> {
    pub id: &'a str,
    pub app_type: u32,
}

/// The answer to an announcement.
#[derive(Debug, Clone, Copy, PartialEq, Eq)]
pub struct AppStartupOutput {
    pub success: bool,
}

/// The error of a record that is too long to be written.
fn too_long() -> (e: AtomicWebsocketError)
    ensures
        e matches AtomicWebsocketError::Serialization(text) && text@ == "length exceeds 32 bits"@,
{
    AtomicWebsocketError::Serialization("length exceeds 32 bits".to_owned())
}

impl<'a> Data<'a> {
    /// The bytes of this record.
    pub open spec fn layout(self) -> Seq<u8> {
        wire::le16(self.category) + wire::framed(self.datas@)
    }

    /// Whether `raw` begins with a whole record of this kind.
    pub open spec fn readable(raw: Seq<u8>) -> bool {
        raw.len() >= 2 && wire::has_frame(raw.skip(2))
    }

    /// Appends this record and returns how many bytes it took. Where the
    /// payload is too long only the category has been written.
    pub fn serialize(&self, out: &mut Vec<u8>) -> (r: Result<usize, AtomicWebsocketError>)
        ensures
            r is Ok <==> wire::fits_frame(self.datas@),
            r matches Ok(n) ==> n == self.layout().len(),
            r is Ok ==> final(out)@ == old(out)@ + self.layout(),
            r is Err ==> final(out)@ == old(out)@ + wire::le16(self.category),
            r matches Err(e) ==> e is Serialization,
    {
        let _ = wire::write_u16(self.category, out);
        match wire::write_bytes(self.datas, out) {
            Ok(n) => {
                let written: usize = out.len();
                assert(written == out@.len());
                assert(out@ == old(out)@ + self.layout());
                Ok(2 + n)
            },
            Err(_) => Err(too_long()),
        }
    }

    /// Reads a record from the front of `raw`; what follows it is ignored.
    pub fn deserialize(raw: &'a [u8]) -> (r: Result<Data<'a>, AtomicWebsocketError>)
        ensures
            r is Ok <==> Self::readable(raw@),
            r matches Ok(data) ==> data.category == wire::le16_value(raw@) && data.datas@
                == wire::frame_content(raw@.skip(2)),
            r matches Err(e) ==> e is Serialization,
    {
        match wire::read_u16(raw) {
            Ok((_, category)) => {
                let rest = vstd::slice::slice_subrange(raw, 2, raw.len());
                assert(rest@ == raw@.skip(2));
                match wire::take_bytes(rest) {
                    Ok((datas, _)) => Ok(Data { category, datas }),
                    Err(e) => Err(e),
                }
            },
            Err(e) => Err(AtomicWebsocketError::from(e)),
        }
    }
}

impl<'a> Ping<'a> {
    /// The bytes of this record.
    pub open spec fn layout(self) -> Seq<u8> {
        wire::framed_text(self.peer@) + wire::le32(self.activations)
    }

    /// Whether `raw` begins with a whole record of this kind.
    pub open spec fn readable(raw: Seq<u8>) -> bool {
        wire::has_text(raw) && wire::after_frame(raw).len() >= 4
    }

    /// The peer that a readable record names.
    pub open spec fn peer_in(raw: Seq<u8>) -> Seq<char> {
        wire::text_of(raw)
    }

    /// Appends this record and returns how many bytes it took. Where the name
    /// is too long nothing has been written.
    pub fn serialize(&self, out: &mut Vec<u8>) -> (r: Result<usize, AtomicWebsocketError>)
        ensures
            r is Ok <==> wire::text_fits(self.peer@),
            r matches Ok(n) ==> n == self.layout().len(),
            r is Ok ==> final(out)@ == old(out)@ + self.layout(),
            r is Err ==> final(out)@ == old(out)@,
            r matches Err(e) ==> e is Serialization,
    {
        match wire::write_text(self.peer, out) {
            Ok(n) => {
                let _ = wire::write_u32(self.activations, out);
                let written: usize = out.len();
                assert(written == out@.len());
                assert(out@ == old(out)@ + self.layout());
                Ok(n + 4)
            },
            Err(_) => Err(too_long()),
        }
    }

    /// Reads a record from the front of `raw`; what follows it is ignored.
    pub fn deserialize(raw: &'a [u8]) -> (r: Result<Ping<'a>, AtomicWebsocketError>)
        ensures
            r is Ok <==> Self::readable(raw@),
            r matches Ok(ping) ==> ping.peer@ == Self::peer_in(raw@) && ping.activations
                == wire::le32_value(wire::after_frame(raw@)),
            r matches Err(e) ==> e is Serialization,
    {
        match wire::take_text(raw) {
            Ok((peer, rest)) => match wire::read_u32(rest) {
                Ok((_, activations)) => Ok(Ping { peer, activations }),
                Err(e) => Err(AtomicWebsocketError::from(e)),
            },
            Err(e) => Err(e),
        }
    }
}

impl<'a> Disconnect<'a> {
    /// The bytes of this record.
    pub open spec fn layout(self) -> Seq<u8> {
        wire::framed_text(self.peer@)
    }

    /// Appends this record and returns how many bytes it took. Where the name
    /// is too long nothing has been written.
    pub fn serialize(&self, out: &mut Vec<u8>) -> (r: Result<usize, AtomicWebsocketError>)
        ensures
            r is Ok <==> wire::text_fits(self.peer@),
            r matches Ok(n) ==> n == self.layout().len(),
            r is Ok ==> final(out)@ == old(out)@ + self.layout(),
            r is Err ==> final(out)@ == old(out)@,
            r matches Err(e) ==> e is Serialization,
    {
        match wire::write_text(self.peer, out) {
            Ok(n) => Ok(n),
            Err(_) => Err(too_long()),
        }
    }

    /// Reads a record from the front of `raw`; what follows it is ignored.
    pub fn deserialize(raw: &'a [u8]) -> (r: Result<Disconnect<'a>, AtomicWebsocketError>)
        ensures
            r is Ok <==> wire::has_text(raw@),
            r matches Ok(disconnect) ==> disconnect.peer@ == wire::text_of(raw@),
            r matches Err(e) ==> e is Serialization,
    {
        match wire::take_text(raw) {
            Ok((peer, _)) => Ok(Disconnect { peer }),
            Err(e) => Err(e),
        }
    }
}

impl Expired {
    /// The bytes of this record.
    pub open spec fn layout(self) -> Seq<u8> {
        seq![if self.is_expired { 1u8 } else { 0u8 }]
    }

    /// Appends this record and returns how many bytes it took.
    pub fn serialize(&self, out: &mut Vec<u8>) -> (r: Result<usize, AtomicWebsocketError>)
        ensures
            r matches Ok(n) && n == self.layout().len(),
            final(out)@ == old(out)@ + self.layout(),
    {
        let _ = wire::write_bool(self.is_expired, out);
        Ok(1)
    }

    /// Reads a record from the front of `raw`; what follows it is ignored.
    pub fn deserialize(raw: &[u8]) -> (r: Result<Expired, AtomicWebsocketError>)
        ensures
            r is Ok <==> raw@.len() >= 1,
            r matches Ok(expired) ==> expired.is_expired == (raw@[0] > 0),
            r matches Err(e) ==> e is Serialization,
    {
        match wire::read_bool(raw) {
            Ok((_, is_expired)) => Ok(Expired { is_expired }),
            Err(e) => Err(AtomicWebsocketError::from(e)),
        }
    }
}

impl<'a> ServerConnectInfo<'a> {
    /// The bytes of a record with this address and port.
    pub open spec fn layout_of(server_ip: Seq<char>, port: Seq<char>) -> Seq<u8> {
        wire::framed_text(server_ip) + wire::framed_text(port)
    }

    /// Whether a record with this address and port can be written.
    pub open spec fn writable(server_ip: Seq<char>, port: Seq<char>) -> bool {
        wire::text_fits(server_ip) && wire::text_fits(port)
    }

    /// Whether `raw` begins with a whole record of this kind.
    pub open spec fn readable(raw: Seq<u8>) -> bool {
        wire::has_text(raw) && wire::has_text(wire::after_frame(raw))
    }

    /// The address that a readable record holds.
    pub open spec fn server_ip_in(raw: Seq<u8>) -> Seq<char> {
        wire::text_of(raw)
    }

    /// The port that a readable record holds.
    pub open spec fn port_in(raw: Seq<u8>) -> Seq<char> {
        wire::text_of(wire::after_frame(raw))
    }

    /// Appends this record and returns how many bytes it took. Where the port
    /// is the first field that is too long the address has been written.
    pub fn serialize(&self, out: &mut Vec<u8>) -> (r: Result<usize, AtomicWebsocketError>)
        ensures
            r is Ok <==> Self::writable(self.server_ip@, self.port@),
            r matches Ok(n) ==> n == Self::layout_of(self.server_ip@, self.port@).len(),
            r is Ok ==> final(out)@ == old(out)@ + Self::layout_of(self.server_ip@, self.port@),
            r is Err ==> final(out)@ == if wire::text_fits(self.server_ip@) {
                old(out)@ + wire::framed_text(self.server_ip@)
            } else {
                old(out)@
            },
            r matches Err(e) ==> e is Serialization,
    {
        match wire::write_text(self.server_ip, out) {
            Ok(n) => match wire::write_text(self.port, out) {
                Ok(m) => {
                    let written: usize = out.len();
                    assert(written == out@.len());
                    assert(out@ == old(out)@ + Self::layout_of(self.server_ip@, self.port@));
                    Ok(n + m)
                },
                Err(_) => Err(too_long()),
            },
            Err(_) => Err(too_long()),
        }
    }

    /// Reads a record from the front of `raw`; what follows it is ignored.
    pub fn deserialize(raw: &'a [u8]) -> (r: Result<ServerConnectInfo<'a>, AtomicWebsocketError>)
        ensures
            r is Ok <==> Self::readable(raw@),
            r matches Ok(info) ==> info.server_ip@ == Self::server_ip_in(raw@) && info.port@
                == Self::port_in(raw@),
            r matches Err(e) ==> e is Serialization,
    {
        match wire::take_text(raw) {
            Ok((server_ip, rest)) => match wire::take_text(rest) {
                Ok((port, _)) => Ok(ServerConnectInfo { server_ip, port }),
                Err(e) => Err(e),
            },
            Err(e) => Err(e),
        }
    }
}

impl<'a> AppStartup<'a> {
    /// The bytes of this record.
    pub open spec fn layout(self) -> Seq<u8> {
        wire::framed_text(self.id@) + wire::le32(self.app_type)
    }

    /// Appends this record and returns how many bytes it took. Where the
    /// identifier is too long nothing has been written.
    pub fn serialize(&self, out: &mut Vec<u8>) -> (r: Result<usize, AtomicWebsocketError>)
        ensures
            r is Ok <==> wire::text_fits(self.id@),
            r matches Ok(n) ==> n == self.layout().len(),
            r is Ok ==> final(out)@ == old(out)@ + self.layout(),
            r is Err ==> final(out)@ == old(out)@,
            r matches Err(e) ==> e is Serialization,
    {
        match wire::write_text(self.id, out) {
            Ok(n) => {
                let _ = wire::write_u32(self.app_type, out);
                let written: usize = out.len();
                assert(written == out@.len());
                assert(out@ == old(out)@ + self.layout());
                Ok(n + 4)
            },
            Err(_) => Err(too_long()),
        }
    }

    /// Reads a record from the front of `raw`; what follows it is ignored.
    pub fn deserialize(raw: &'a [u8]) -> (r: Result<AppStartup<'a>, AtomicWebsocketError>)
        ensures
            r is Ok <==> wire::has_text(raw@) && wire::after_frame(raw@).len() >= 4,
            r matches Ok(startup) ==> startup.id@ == wire::text_of(raw@) && startup.app_type
                == wire::le32_value(wire::after_frame(raw@)),
            r matches Err(e) ==> e is Serialization,
    {
        match wire::take_text(raw) {
            Ok((id, rest)) => match wire::read_u32(rest) {
                Ok((_, app_type)) => Ok(AppStartup { id, app_type }),
                Err(e) => Err(AtomicWebsocketError::from(e)),
            },
            Err(e) => Err(e),
        }
    }
}

impl AppStartupOutput {
    /// The bytes of this record.
    pub open spec fn layout(self) -> Seq<u8> {
        seq![if self.success { 1u8 } else { 0u8 }]
    }

    /// Appends this record and returns how many bytes it took.
    pub fn serialize(&self, out: &mut Vec<u8>) -> (r: Result<usize, AtomicWebsocketError>)
        ensures
            r matches Ok(n) && n == self.layout().len(),
            final(out)@ == old(out)@ + self.layout(),
    {
        let _ = wire::write_bool(self.success, out);
        Ok(1)
    }

    /// Reads a record from the front of `raw`; what follows it is ignored.
    pub fn deserialize(raw: &[u8]) -> (r: Result<AppStartupOutput, AtomicWebsocketError>)
        ensures
            r is Ok <==> raw@.len() >= 1,
            r matches Ok(output) ==> output.success == (raw@[0] > 0),
            r matches Err(e) ==> e is Serialization,
    {
        match wire::read_bool(raw) {
            Ok((_, success)) => Ok(AppStartupOutput { success }),
            Err(e) => Err(AtomicWebsocketError::from(e)),
        }
    }
}

/// Reading a message record gives back what was written, whatever follows it.
pub proof fn lemma_data_round_trip(data: Data<'_>, rest: Seq<u8>)
    requires
        wire::fits_frame(data.datas@),
    ensures
        Data::readable(data.layout() + rest),
        wire::le16_value(data.layout() + rest) == data.category,
        wire::frame_content((data.layout() + rest).skip(2)) == data.datas@,
{
    let tail = wire::framed(data.datas@) + rest;
    assert(data.layout() + rest =~= wire::le16(data.category) + tail);
    wire::lemma_le16_round_trip(data.category, tail);
    wire::lemma_frame_round_trip(data.datas@, rest);
}

/// Reading a ping gives back what was written, whatever follows it.
pub proof fn lemma_ping_round_trip(ping: Ping<'_>, rest: Seq<u8>)
    requires
        wire::text_fits(ping.peer@),
    ensures
        Ping::readable(ping.layout() + rest),
        Ping::peer_in(ping.layout() + rest) == ping.peer@,
        wire::le32_value(wire::after_frame(ping.layout() + rest)) == ping.activations,
{
    let tail = wire::le32(ping.activations) + rest;
    assert(ping.layout() + rest =~= wire::framed_text(ping.peer@) + tail);
    wire::lemma_text_round_trip(ping.peer@, tail);
    wire::lemma_le32_round_trip(ping.activations, rest);
}

/// Reading a disconnect notice gives back what was written, whatever follows
/// it.
pub proof fn lemma_disconnect_round_trip(disconnect: Disconnect<'_>, rest: Seq<u8>)
    requires
        wire::text_fits(disconnect.peer@),
    ensures
        wire::has_text(disconnect.layout() + rest),
        wire::text_of(disconnect.layout() + rest) == disconnect.peer@,
{
    wire::lemma_text_round_trip(disconnect.peer@, rest);
}

/// Reading an expiry notice gives back what was written, whatever follows it.
pub proof fn lemma_expired_round_trip(expired: Expired, rest: Seq<u8>)
    ensures
        (expired.layout() + rest).len() >= 1,
        ((expired.layout() + rest)[0] > 0) == expired.is_expired,
{
}

/// Reading connect info gives back the address and the port that were
/// written, whatever follows them.
pub proof fn lemma_server_connect_info_round_trip(
    server_ip: Seq<char>,
    port: Seq<char>,
    rest: Seq<u8>,
)
    requires
        ServerConnectInfo::writable(server_ip, port),
    ensures
        ServerConnectInfo::readable(ServerConnectInfo::layout_of(server_ip, port) + rest),
        ServerConnectInfo::server_ip_in(ServerConnectInfo::layout_of(server_ip, port) + rest)
            == server_ip,
        ServerConnectInfo::port_in(ServerConnectInfo::layout_of(server_ip, port) + rest) == port,
{
    let tail = wire::framed_text(port) + rest;
    assert(ServerConnectInfo::layout_of(server_ip, port) + rest =~= wire::framed_text(server_ip)
        + tail);
    wire::lemma_text_round_trip(server_ip, tail);
    wire::lemma_text_round_trip(port, rest);
}

/// Reading an announcement gives back what was written, whatever follows it.
pub proof fn lemma_app_startup_round_trip(startup: AppStartup<'_>, rest: Seq<u8>)
    requires
        wire::text_fits(startup.id@),
    ensures
        wire::has_text(startup.layout() + rest),
        wire::text_of(startup.layout() + rest) == startup.id@,
        wire::after_frame(startup.layout() + rest).len() >= 4,
        wire::le32_value(wire::after_frame(startup.layout() + rest)) == startup.app_type,
{
    let tail = wire::le32(startup.app_type) + rest;
    assert(startup.layout() + rest =~= wire::framed_text(startup.id@) + tail);
    wire::lemma_text_round_trip(startup.id@, tail);
    wire::lemma_le32_round_trip(startup.app_type, rest);
}

} // verus!
