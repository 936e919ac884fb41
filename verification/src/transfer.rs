//! Transfer coordination: how a payload becomes one HTTP request to a peer,
//! and what the receiving side makes of such a request.
//!
//! The embedding program reads and writes files, performs the request and
//! serves the routes. It hands the outcome of each of these in as a plain
//! value and gets back what to send, to store, to announce or to answer.

use vstd::prelude::*;
use vstd::string::StringExecFns;
use crate::text::{decimal, decimal_string};
use crate::types::{
    Device, DeviceView, TransferData, TransferDataView, TransferMessage, TransferMessageView,
};

verus! {

/// The route that accepts a file.
pub const RECEIVE_FILE_ROUTE: &'static str = "/api/receive/file";

/// The route that accepts a text.
pub const RECEIVE_TEXT_ROUTE: &'static str = "/api/receive/text";

/// The route of the liveness probe.
pub const PING_ROUTE: &'static str = "/api/ping";

/// The route that tells the receiver's identity.
pub const DEVICE_ROUTE: &'static str = "/api/device";

/// The name of the notification that tells of a stored file.
pub const FILE_RECEIVED_EVENT: &'static str = "file-received";

/// The name of the notification that tells of a received text.
pub const TEXT_RECEIVED_EVENT: &'static str = "text-received";

/// The address of `route` on the device at `ip` and `port`.
pub open spec fn route_url(ip: Seq<char>, port: u16, route: Seq<char>) -> Seq<char> {
    "http://"@ + ip + ":"@ + decimal(port as nat) + route
}

/// The name under which a file travels when its path gives none.
pub open spec fn nameless() -> Seq<char> {
    "unknown"@
}

/// The envelope of a text transfer.
pub open spec fn text_message(
    sender: DeviceView,
    content: Seq<char>,
    now: u64,
) -> TransferMessageView {
    TransferMessageView {
        message_type: "text"@,
        sender,
        data: TransferDataView::Text { content },
        timestamp: now,
    }
}

/// The envelope of a file transfer. A path without a file name gives the
/// name `nameless()`; the size is the number of bytes.
pub open spec fn file_message(
    sender: DeviceView,
    name: Option<Seq<char>>,
    mime_type: Seq<char>,
    data: Seq<u8>,
    now: u64,
) -> TransferMessageView {
    TransferMessageView {
        message_type: "file"@,
        sender,
        data: TransferDataView::File {
            name: match name {
                Some(n) => n,
                None => nameless(),
            },
            size: data.len() as u64,
            mime_type,
            data,
        },
        timestamp: now,
    }
}

/// Whether an HTTP status tells of success.
pub open spec fn is_success(status: u16) -> bool {
    200 <= status < 300
}

/// Why a transfer was not sent or did not arrive.
#[derive(Debug)]
pub enum TransferError {
    /// The file could not be read; `detail` is what the read reported.
    Read { detail: String },
    /// The payload is of a kind that no route accepts.
    Unsupported,
    /// The request could not be completed; `detail` is what the client
    /// reported.
    Network { detail: String },
}

impl TransferError {
    /// The error in words.
    pub fn message(&self) -> (text: String)
        ensures
            text@ == (match *self {
                TransferError::Read { detail } => detail@,
                TransferError::Unsupported => "Unsupported transfer data type"@,
                TransferError::Network { detail } => detail@,
            }),
    {
        match self {
            TransferError::Read { detail } => detail.clone(),
            TransferError::Unsupported => String::from_str("Unsupported transfer data type"),
            TransferError::Network { detail } => detail.clone(),
        }
    }
}

/// One HTTP POST: the address and the message that is its body.
#[derive(Debug)]
pub struct OutboundRequest {
    pub url: String,
    pub message: TransferMessage,
}

/// What the peer made of a request that reached it.
#[derive(Debug, Clone, Copy, PartialEq, Eq, Structural)]
pub enum Delivery {
    /// The peer answered with a status of success.
    Accepted { status: u16 },
    /// The peer answered with another status. This is reported, not failed.
    Rejected { status: u16 },
}

/// The statuses with which the receiver answers.
#[derive(Debug, Clone, Copy, PartialEq, Eq, Structural)]
pub enum HttpStatus {
    Success,
    BadRequest,
    InternalServerError,
}

impl HttpStatus {
    /// The number of the status.
    pub open spec fn spec_code(self) -> u16 {
        match self {
            HttpStatus::Success => 200,
            HttpStatus::BadRequest => 400,
            HttpStatus::InternalServerError => 500,
        }
    }

    /// The number of the status.
    #[verifier::when_used_as_spec(spec_code)]
    pub fn code(self) -> (code: u16)
        ensures
            code == self.spec_code(),
    {
        match self {
            HttpStatus::Success => 200,
            HttpStatus::BadRequest => 400,
            HttpStatus::InternalServerError => 500,
        }
    }

    /// Whether the status blames the request.
    pub open spec fn is_client_error(self) -> bool {
        400 <= self.spec_code() < 500
    }

    /// Whether the status blames the receiver.
    pub open spec fn is_server_error(self) -> bool {
        500 <= self.spec_code() < 600
    }
}

/// The body of a successful answer.
#[derive(Debug)]
pub struct Acknowledgement {
    pub status: String,
    pub message: String,
}

/// The body of the answer to the liveness probe.
#[derive(Debug)]
pub struct PingReply {
    pub status: String,
    pub timestamp: u64,
}

/// A file that was accepted and waits to be stored.
#[derive(Debug)]
pub struct IncomingFile {
    pub sender: Device,
    pub name: String,
    pub size: u64,
    pub mime_type: String,
    pub data: Vec<u8>,
    pub timestamp: u64,
}

/// The notification that tells of a stored file.
#[derive(Debug)]
pub struct FileReceived {
    pub sender: Device,
    pub file_name: String,
    pub file_path: String,
    pub file_size: u64,
    pub mime_type: String,
    pub timestamp: u64,
}

/// The notification that tells of a received text.
#[derive(Debug)]
pub struct TextReceived {
    pub sender: Device,
    pub content: String,
    pub timestamp: u64,
}

/// The name of the last component of a path, as `std::path::Path::file_name`
/// finds it under the path rules of the platform that the crate is built
/// for; `None` where the path ends in no such component.
pub uninterp spec fn file_name_of(path: Seq<char>) -> Option<Seq<char>>;

/// The media type that `mime_guess` has for the extension of a path, or
/// `application/octet-stream` where it has none, under the path rules of the
/// platform that the crate is built for.
pub uninterp spec fn media_type_of(path: Seq<char>) -> Seq<char>;

/// The last component of a path, from `std::path::Path::file_name`.
///
/// Believed, not proved: the result is `file_name_of` of the path's text.
/// The call reads nothing but the text. What counts as a separator is fixed
/// when the crate is built, so of the result itself no more is claimed.
#[verifier::external_body]
fn path_file_name(path: &str) -> (name: Option<String>)
    ensures
        match name {
            Some(n) => file_name_of(path@) == Some(n@),
            None => file_name_of(path@) is None,
        },
{
    let name = std::path::Path::new(path).file_name()?;
    Some(name.to_str()?.to_string())
}

/// The media type that `mime_guess::from_path` guesses from the extension of
/// a path, or `application/octet-stream` where it has no guess
/// (`MimeGuess::first_or_octet_stream`), as text.
///
/// Believed, not proved: the result is `media_type_of` of the path's text.
/// The call reads nothing but the text and a table that is part of the
/// outside crate. What the extension of a path is is fixed when the crate is
/// built, so of the result itself no more is claimed.
#[verifier::external_body]
fn guess_mime_type(path: &str) -> (mime_type: String)
    ensures
        mime_type@ == media_type_of(path@),
{
    mime_guess::from_path(path).first_or_octet_stream().to_string()
}

/// The address of `route` on `target`.
pub fn url_for(target: &Device, route: &str) -> (url: String)
    ensures
        url@ == route_url(target@.ip, target@.port, route@),
{
    let mut url = String::from_str("http://");
    url.append(target.ip.as_str());
    url.append(":");
    let port = decimal_string(target.port as u64);
    url.append(port.as_str());
    url.append(route);
    url
}

/// What became of a request: a failure of the network is an error; any
/// answer of the peer is a delivery, accepted where the status tells of
/// success and rejected otherwise.
pub fn conclude_delivery(response: Result<u16, String>) -> (outcome: Result<Delivery, TransferError>)
    ensures
        match response {
            Ok(status) => outcome == Ok::<Delivery, TransferError>(
                if is_success(status) {
                    Delivery::Accepted { status }
                } else {
                    Delivery::Rejected { status }
                },
            ),
            Err(detail) => outcome matches Err(TransferError::Network { detail: d }) && d@
                == detail@,
        },
{
    match response {
        Ok(status) => {
            if 200 <= status && status < 300 {
                Ok(Delivery::Accepted { status })
            } else {
                Ok(Delivery::Rejected { status })
            }
        },
        Err(detail) => Err(TransferError::Network { detail }),
    }
}

/// The sending side of a device.
pub struct TransferService {
    device: Device,
}

impl TransferService {
    /// The identity under which this service sends.
    pub closed spec fn identity(&self) -> DeviceView {
        self.device@
    }

    /// A service that sends as `device`.
    pub fn new(device: Device) -> (service: TransferService)
        ensures
            service.identity() == device@,
    {
        TransferService { device }
    }

    /// The identity under which this service sends and receives.
    pub fn get_device_info(&self) -> (device: Device)
        ensures
            device@ == self.identity(),
    {
        self.device.clone()
    }

    /// The request that carries `message` to `target`: a file goes to the
    /// file route and a text to the text route of the address that `target`
    /// advertises. No other payload can be sent.
    pub fn send_to_device(&self, message: TransferMessage, target: &Device) -> (request: Result<
        OutboundRequest,
        TransferError,
    >)
        ensures
            match message@.data {
                TransferDataView::File { .. } => request matches Ok(r) && r.message@ == message@
                    && r.url@ == route_url(target@.ip, target@.port, RECEIVE_FILE_ROUTE@),
                TransferDataView::Text { .. } => request matches Ok(r) && r.message@ == message@
                    && r.url@ == route_url(target@.ip, target@.port, RECEIVE_TEXT_ROUTE@),
                TransferDataView::FileRequest { .. } => request matches Err(
                    TransferError::Unsupported,
                ),
            },
    {
        let url = match &message.data {
            TransferData::File { .. } => url_for(target, RECEIVE_FILE_ROUTE),
            TransferData::Text { .. } => url_for(target, RECEIVE_TEXT_ROUTE),
            TransferData::FileRequest { .. } => {
                return Err(TransferError::Unsupported);
            },
        };
        Ok(OutboundRequest { url, message })
    }

    /// The envelope of the file `data` sent at `now` under `name` and
    /// `mime_type`.
    pub fn file_transfer(
        &self,
        name: Option<String>,
        mime_type: String,
        data: Vec<u8>,
        now: u64,
    ) -> (message: TransferMessage)
        ensures
            message@ == file_message(
                self.identity(),
                match name {
                    Some(n) => Some(n@),
                    None => None,
                },
                mime_type@,
                data@,
                now,
            ),
    {
        let name = match name {
            Some(n) => n,
            None => String::from_str("unknown"),
        };
        TransferMessage {
            message_type: String::from_str("file"),
            sender: self.device.clone(),
            data: TransferData::File { name, size: data.len() as u64, mime_type, data },
            timestamp: now,
        }
    }

    /// The request that sends the file at `file_path` to `target` at `now`.
    ///
    /// `contents` is what reading the file gave: its bytes, or what the read
    /// reported. Where the read failed, the error is a read error and there
    /// is no request. Otherwise the request goes to the file route of
    /// `target` and carries the bytes unchanged, under the name of the path's
    /// last component (`nameless()` where it has none) and the media type of
    /// its extension.
    pub fn send_file(
        &self,
        file_path: &str,
        contents: Result<Vec<u8>, String>,
        target: &Device,
        now: u64,
    ) -> (request: Result<OutboundRequest, TransferError>)
        ensures
            match contents {
                Ok(data) => {
                    &&& request matches Ok(r)
                    &&& r.url@ == route_url(target@.ip, target@.port, RECEIVE_FILE_ROUTE@)
                    &&& r.message@ == file_message(
                        self.identity(),
                        file_name_of(file_path@),
                        media_type_of(file_path@),
                        data@,
                        now,
                    )
                },
                Err(detail) => request matches Err(TransferError::Read { detail: d }) && d@
                    == detail@,
            },
    {
        match contents {
            Err(detail) => Err(TransferError::Read { detail }),
            Ok(data) => {
                let name = path_file_name(file_path);
                let mime_type = guess_mime_type(file_path);
                let message = self.file_transfer(name, mime_type, data, now);
                self.send_to_device(message, target)
            },
        }
    }

    /// The request that sends `text` to `target` at `now`: it goes to the
    /// text route of `target` and carries the text unchanged.
    pub fn send_text(&self, text: &str, target: &Device, now: u64) -> (request: Result<
        OutboundRequest,
        TransferError,
    >)
        ensures
            request matches Ok(r) && r.message@ == text_message(self.identity(), text@, now)
                && r.url@ == route_url(target@.ip, target@.port, RECEIVE_TEXT_ROUTE@),
    {
        let message = TransferMessage {
            message_type: String::from_str("text"),
            sender: self.device.clone(),
            data: TransferData::Text { content: String::from_str(text) },
            timestamp: now,
        };
        self.send_to_device(message, target)
    }
}

/// The answer that tells of success, with `message` as its second line.
fn acknowledge(message: &str) -> (body: Acknowledgement)
    ensures
        body.status@ == "success"@,
        body.message@ == message@,
{
    Acknowledgement { status: String::from_str("success"), message: String::from_str(message) }
}

/// The file route: a message whose payload is a file is accepted and its
/// parts are handed on to be stored; any other payload is a bad request.
pub fn receive_file(message: TransferMessage) -> (accepted: Result<IncomingFile, HttpStatus>)
    ensures
        match message@.data {
            TransferDataView::File { name, size, mime_type, data } => {
                &&& accepted matches Ok(file)
                &&& file.sender@ == message@.sender
                &&& file.name@ == name
                &&& file.size == size
                &&& file.mime_type@ == mime_type
                &&& file.data@ == data
                &&& file.timestamp == message@.timestamp
            },
            _ => accepted == Err::<IncomingFile, HttpStatus>(HttpStatus::BadRequest),
        },
        accepted matches Err(status) ==> status.is_client_error(),
{
    match message.data {
        TransferData::File { name, size, mime_type, data } => Ok(
            IncomingFile {
                sender: message.sender,
                name,
                size,
                mime_type,
                data,
                timestamp: message.timestamp,
            },
        ),
        _ => Err(HttpStatus::BadRequest),
    }
}

/// The end of the file route. `stored` is the path under which the file was
/// written, or what the write reported. A stored file is announced and
/// acknowledged; a failed write is a server error, and nothing is announced.
pub fn file_stored(file: IncomingFile, stored: Result<String, String>) -> (answer: Result<
    (FileReceived, Acknowledgement),
    HttpStatus,
>)
    ensures
        match stored {
            Ok(path) => {
                &&& answer matches Ok((notice, body))
                &&& notice.sender@ == file.sender@
                &&& notice.file_name@ == file.name@
                &&& notice.file_path@ == path@
                &&& notice.file_size == file.size
                &&& notice.mime_type@ == file.mime_type@
                &&& notice.timestamp == file.timestamp
                &&& body.status@ == "success"@
                &&& body.message@ == "File received successfully"@
            },
            Err(_) => answer matches Err(HttpStatus::InternalServerError),
        },
        answer matches Err(status) ==> status.is_server_error(),
{
    match stored {
        Ok(path) => Ok(
            (
                FileReceived {
                    sender: file.sender,
                    file_name: file.name,
                    file_path: path,
                    file_size: file.size,
                    mime_type: file.mime_type,
                    timestamp: file.timestamp,
                },
                acknowledge("File received successfully"),
            ),
        ),
        Err(_) => Err(HttpStatus::InternalServerError),
    }
}

/// The text route: a message whose payload is a text is announced and
/// acknowledged; any other payload is a bad request.
pub fn receive_text(message: TransferMessage) -> (answer: Result<
    (TextReceived, Acknowledgement),
    HttpStatus,
>)
    ensures
        match message@.data {
            TransferDataView::Text { content } => {
                &&& answer matches Ok((notice, body))
                &&& notice.sender@ == message@.sender
                &&& notice.content@ == content
                &&& notice.timestamp == message@.timestamp
                &&& body.status@ == "success"@
                &&& body.message@ == "Text received successfully"@
            },
            _ => answer matches Err(HttpStatus::BadRequest),
        },
        answer matches Err(status) ==> status.is_client_error(),
{
    match message.data {
        TransferData::Text { content } => Ok(
            (
                TextReceived { sender: message.sender, content, timestamp: message.timestamp },
                acknowledge("Text received successfully"),
            ),
        ),
        _ => Err(HttpStatus::BadRequest),
    }
}

/// The liveness probe at time `now`: always the status "ok" and the time.
pub fn ping(now: u64) -> (reply: PingReply)
    ensures
        reply.status@ == "ok"@,
        reply.timestamp == now,
{
    PingReply { status: String::from_str("ok"), timestamp: now }
}

} // verus!
