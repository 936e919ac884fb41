//! The values that travel between devices, each with its mathematical view.

use vstd::prelude::*;
use vstd::string::StringExecFns;

verus! {

/// The port on which every device accepts transfers.
pub const TRANSFER_PORT: u16 = 8080;

/// The device class that this program announces for itself.
pub open spec fn desktop_class() -> Seq<char> {
    "desktop"@
}

/// What a `Device` is, as plain mathematical data.
pub struct DeviceView {
    pub id: Seq<char>,
    pub name: Seq<char>,
    pub ip: Seq<char>,
    pub port: u16,
    pub device_type: Seq<char>,
    pub os: Seq<char>,
    pub last_seen: u64,
}

/// The identity of a machine on the network.
///
/// `ip` is the address in its textual form, as it is written on the wire and
/// in a URL. `last_seen` is in seconds since the Unix epoch.
#[derive(Debug)]
pub struct Device {
    pub id: String,
    pub name: String,
    pub ip: String,
    pub port: u16,
    pub device_type: String,
    pub os: String,
    pub last_seen: u64,
}

impl DeviceView {
    /// The same record, seen at `now`.
    pub open spec fn seen_at(self, now: u64) -> DeviceView {
        DeviceView { last_seen: now, ..self }
    }
}

impl View for Device {
    type V = DeviceView;

    open spec fn view(&self) -> DeviceView {
        DeviceView {
            id: self.id@,
            name: self.name@,
            ip: self.ip@,
            port: self.port,
            device_type: self.device_type@,
            os: self.os@,
            last_seen: self.last_seen,
        }
    }
}

impl Clone for Device {
    fn clone(&self) -> (copy: Self)
        ensures
            copy@ == self@,
    {
        Device {
            id: self.id.clone(),
            name: self.name.clone(),
            ip: self.ip.clone(),
            port: self.port,
            device_type: self.device_type.clone(),
            os: self.os.clone(),
            last_seen: self.last_seen,
        }
    }
}

/// A lower-case hexadecimal digit.
pub open spec fn is_lower_hex(c: char) -> bool {
    ('0' <= c && c <= '9') || ('a' <= c && c <= 'f')
}

/// The hyphenated lower-case text of a random (version 4) UUID: 36
/// characters, hyphens after the 8th, 12th, 16th and 20th digit, the version
/// digit `4` and a variant digit among `8`, `9`, `a` and `b`.
pub open spec fn is_random_uuid_text(s: Seq<char>) -> bool {
    &&& s.len() == 36
    &&& forall|i: int|
        0 <= i < 36 ==> if i == 8 || i == 13 || i == 18 || i == 23 {
            #[trigger] s[i] == '-'
        } else {
            is_lower_hex(s[i])
        }
    &&& s[14] == '4'
    &&& (s[19] == '8' || s[19] == '9' || s[19] == 'a' || s[19] == 'b')
}

/// A fresh random identifier from `uuid::Uuid::new_v4`, written by the
/// `Display` of `uuid::Uuid`.
///
/// Believed, not proved: the text has the hyphenated lower-case shape of a
/// version 4 UUID. Which identifier comes back is left open; two calls
/// differ. The call panics where the operating system yields no random
/// bytes.
#[verifier::external_body]
fn fresh_id() -> (id: String)
    ensures
        is_random_uuid_text(id@),
{
    uuid::Uuid::new_v4().to_string()
}

impl Device {
    /// A copy of the record that carries `now` as the time it was last seen.
    pub fn seen_at(&self, now: u64) -> (device: Device)
        ensures
            device@ == self@.seen_at(now),
    {
        Device {
            id: self.id.clone(),
            name: self.name.clone(),
            ip: self.ip.clone(),
            port: self.port,
            device_type: self.device_type.clone(),
            os: self.os.clone(),
            last_seen: now,
        }
    }

    /// The identity of the local machine with the identifier `id`: it accepts
    /// transfers on `TRANSFER_PORT`, is of the desktop class, and was last
    /// seen at `now`.
    pub fn with_id(id: String, name: String, ip: String, os: String, now: u64) -> (device: Device)
        ensures
            device@ == (DeviceView {
                id: id@,
                name: name@,
                ip: ip@,
                port: TRANSFER_PORT,
                device_type: desktop_class(),
                os: os@,
                last_seen: now,
            }),
    {
        Device {
            id,
            name,
            ip,
            port: TRANSFER_PORT,
            device_type: String::from_str("desktop"),
            os,
            last_seen: now,
        }
    }

    /// The identity of the local machine under a fresh random identifier.
    ///
    /// `name` is the host name, `ip` the local address in text, `os` the name
    /// of the operating system and `now` the time in seconds since the Unix
    /// epoch. All but the identifier is as `with_id` gives it.
    ///
    /// Each call draws a new identifier. A process that is to be known under
    /// one identifier calls this once and hands the record to every service.
    pub fn current(name: String, ip: String, os: String, now: u64) -> (device: Device)
        ensures
            is_random_uuid_text(device@.id),
            device@ == (DeviceView {
                id: device@.id,
                name: name@,
                ip: ip@,
                port: TRANSFER_PORT,
                device_type: desktop_class(),
                os: os@,
                last_seen: now,
            }),
    {
        Device::with_id(fresh_id(), name, ip, os, now)
    }
}

/// The four kinds of discovery message.
#[derive(Debug, Clone, Copy, PartialEq, Eq, Structural)]
pub enum DiscoveryMessageType {
    Announce,
    Goodbye,
    Ping,
    Pong,
}

/// What a `DiscoveryMessage` is, as plain mathematical data.
pub struct DiscoveryMessageView {
    pub device: DeviceView,
    pub message_type: DiscoveryMessageType,
}

/// The envelope of the presence protocol: a device and what it says of itself.
#[derive(Debug)]
pub struct DiscoveryMessage {
    pub device: Device,
    pub message_type: DiscoveryMessageType,
}

impl View for DiscoveryMessage {
    type V = DiscoveryMessageView;

    open spec fn view(&self) -> DiscoveryMessageView {
        DiscoveryMessageView { device: self.device@, message_type: self.message_type }
    }
}

impl Clone for DiscoveryMessage {
    fn clone(&self) -> (copy: Self)
        ensures
            copy@ == self@,
    {
        DiscoveryMessage { device: self.device.clone(), message_type: self.message_type }
    }
}

/// What a `TransferData` is, as plain mathematical data.
pub enum TransferDataView {
    Text { content: Seq<char> },
    File { name: Seq<char>, size: u64, mime_type: Seq<char>, data: Seq<u8> },
    FileRequest { name: Seq<char>, size: u64 },
}

/// The payload of a transfer.
///
/// `FileRequest` is part of the protocol's surface; no sender produces it.
#[derive(Debug)]
pub enum TransferData {
    Text { content: String },
    File { name: String, size: u64, mime_type: String, data: Vec<u8> },
    FileRequest { name: String, size: u64 },
}

impl View for TransferData {
    type V = TransferDataView;

    open spec fn view(&self) -> TransferDataView {
        match self {
            TransferData::Text { content } => TransferDataView::Text { content: content@ },
            TransferData::File { name, size, mime_type, data } => TransferDataView::File {
                name: name@,
                size: *size,
                mime_type: mime_type@,
                data: data@,
            },
            TransferData::FileRequest { name, size } => TransferDataView::FileRequest {
                name: name@,
                size: *size,
            },
        }
    }
}

impl Clone for TransferData {
    fn clone(&self) -> (copy: Self)
        ensures
            copy@ == self@,
    {
        match self {
            TransferData::Text { content } => TransferData::Text { content: content.clone() },
            TransferData::File { name, size, mime_type, data } => {
                let bytes = data.clone();
                assert(bytes@ =~= data@);
                TransferData::File {
                    name: name.clone(),
                    size: *size,
                    mime_type: mime_type.clone(),
                    data: bytes,
                }
            },
            TransferData::FileRequest { name, size } => TransferData::FileRequest {
                name: name.clone(),
                size: *size,
            },
        }
    }
}

/// What a `TransferMessage` is, as plain mathematical data.
pub struct TransferMessageView {
    pub message_type: Seq<char>,
    pub sender: DeviceView,
    pub data: TransferDataView,
    pub timestamp: u64,
}

/// The envelope of one transfer: who sends what, and when.
#[derive(Debug)]
pub struct TransferMessage {
    pub message_type: String,
    pub sender: Device,
    pub data: TransferData,
    pub timestamp: u64,
}

impl View for TransferMessage {
    type V = TransferMessageView;

    open spec fn view(&self) -> TransferMessageView {
        TransferMessageView {
            message_type: self.message_type@,
            sender: self.sender@,
            data: self.data@,
            timestamp: self.timestamp,
        }
    }
}

impl Clone for TransferMessage {
    fn clone(&self) -> (copy: Self)
        ensures
            copy@ == self@,
    {
        TransferMessage {
            message_type: self.message_type.clone(),
            sender: self.sender.clone(),
            data: self.data.clone(),
            timestamp: self.timestamp,
        }
    }
}

/// The state of one transfer: `status` is one of "pending", "transferring",
/// "completed" and "failed". The protocol declares the shape; nothing in this
/// crate writes one.
#[derive(Debug)]
pub struct TransferStatus {
    pub transfer_id: String,
    pub status: String,
    pub error: Option<String>,
}

} // verus!
