//! The start-up exchange: what the client sends first, what the server
//! answers, and when the connection is ready for callers.

use vstd::prelude::*;
use vstd::string::*;
use crate::errors::Error;
use crate::errors::ErrorView;
use crate::messages::MessageView;
use crate::messages::RequestMessage;
use crate::messages::ResponseMessage;
use crate::numeric::format_integer;
use crate::numeric::integer_text;
use crate::numeric::lemma_integer_text_is_short;
use crate::router::MANAGED_ACCOUNTS;
use crate::router::NEXT_VALID_ID;
use crate::transport::encode_frame;
use crate::transport::frame_of;
use crate::transport::DEFAULT_MAX_FRAME_LENGTH;

verus! {

/// The oldest protocol version that this client speaks.
pub const MIN_SERVER_VERSION: i32 = 100;

/// The newest protocol version that this client speaks.
pub const MAX_SERVER_VERSION: i32 = 200;

/// The kind of the message that starts the API.
pub const START_API: i32 = 71;

/// The version of the message that starts the API.
pub const START_API_VERSION: i32 = 2;

/// The four bytes that open the connection: `API` and a NUL.
pub open spec fn magic() -> Seq<u8> {
    seq![65u8, 80u8, 73u8, 0u8]
}

/// The token that offers a range of versions: `v`, the oldest, two points,
/// the newest.
pub open spec fn version_range_text(min: int, max: int) -> Seq<char> {
    seq!['v'] + integer_text(min) + seq!['.', '.'] + integer_text(max)
}

/// The token that offers a range of versions.
pub fn version_range(min: i32, max: i32) -> (r: String)
    ensures
        r@ == version_range_text(min as int, max as int),
{
    let mut r = String::new();
    r.push('v');
    r.append(format_integer(min as i64).as_str());
    r.push('.');
    r.push('.');
    r.append(format_integer(max as i64).as_str());
    assert(r@ =~= version_range_text(min as int, max as int));
    r
}

/// The bytes that open the connection: the magic, then the offer of versions
/// as a frame of its own.
pub open spec fn opening_of(min: int, max: int) -> Seq<u8> {
    magic() + frame_of(vstd::utf8::encode_utf8(version_range_text(min, max)))
}

/// The offer of versions is short and in the ASCII range: each of its
/// characters is one byte on the wire.
pub proof fn lemma_version_range_is_short(min: int, max: int)
    requires
        i32::MIN <= min <= i32::MAX,
        i32::MIN <= max <= i32::MAX,
    ensures
        vstd::utf8::encode_utf8(version_range_text(min, max)).len() <= 25,
{
    lemma_integer_text_is_short(min);
    lemma_integer_text_is_short(max);
    let text = version_range_text(min, max);
    let a = integer_text(min);
    let b = integer_text(max);
    assert(text.len() == 1 + a.len() + 2 + b.len());
    assert(vstd::utf8::is_ascii_chars(text)) by {
        assert forall|i: int| 0 <= i < text.len() implies '\0' <= #[trigger] text[i]
            <= '\u{7f}' by {
            if i == 0 {
            } else if i < 1 + a.len() {
                assert(text[i] == a[i - 1]);
            } else if i < 3 + a.len() {
            } else {
                assert(text[i] == b[i - 3 - a.len()]);
            }
        }
    }
    vstd::utf8::is_ascii_chars_encode_utf8(text);
}

/// The bytes that the client sends first.
pub fn opening(min: i32, max: i32) -> (bytes: Vec<u8>)
    ensures
        bytes@ == opening_of(min as int, max as int),
{
    let token = version_range(min, max);
    let payload = token.as_str().as_bytes_vec();
    proof {
        lemma_version_range_is_short(min as int, max as int);
    }
    let mut bytes: Vec<u8> = Vec::new();
    bytes.push(65u8);
    bytes.push(80u8);
    bytes.push(73u8);
    bytes.push(0u8);
    assert(bytes@ == magic());
    match encode_frame(&payload, DEFAULT_MAX_FRAME_LENGTH) {
        Ok(frame) => {
            let mut k: usize = 0;
            while k < frame.len()
                invariant
                    k <= frame.len(),
                    bytes@ == magic() + frame@.take(k as int),
                decreases frame.len() - k,
            {
                bytes.push(frame[k]);
                assert(frame@.take(k + 1) == frame@.take(k as int).push(frame@[k as int]));
                k += 1;
            }
            assert(frame@.take(frame.len() as int) == frame@);
        },
        Err(_) => {
            assert(false);
        },
    }
    bytes
}

/// The fields of the message that starts the API: its kind, its version,
/// the client and the optional capabilities.
pub open spec fn start_api_fields(client_id: int, capabilities: Seq<char>) -> Seq<Seq<char>> {
    seq![
        integer_text(START_API as int),
        integer_text(START_API_VERSION as int),
        integer_text(client_id),
        capabilities,
    ]
}

/// The message that starts the API.
pub fn start_api(client_id: i32, capabilities: &str) -> (m: RequestMessage)
    ensures
        m@ == start_api_fields(client_id as int, capabilities@),
{
    let mut m = RequestMessage::new();
    m.push_int(START_API);
    m.push_int(START_API_VERSION);
    m.push_int(client_id);
    m.push_str(capabilities);
    assert(m@ =~= start_api_fields(client_id as int, capabilities@));
    m
}

/// What the server answers to the offer: the version it chose, and its time.
#[derive(Clone, Debug, PartialEq)]
pub struct ServerReply {
    /// The protocol version that the server chose.
    pub server_version: i32,
    /// The time of the server, as it wrote it.
    pub server_time: String,
}

/// The mathematical content of a [`ServerReply`].
pub struct ServerReplyView {
    pub server_version: int,
    pub server_time: Seq<char>,
}

impl View for ServerReply {
    type V = ServerReplyView;

    open spec fn view(&self) -> ServerReplyView {
        ServerReplyView { server_version: self.server_version as int, server_time: self.server_time@ }
    }
}

/// What the answer of the server means: its first field is the version, its
/// second the time. A version below the floor is refused.
pub open spec fn server_reply_of(m: MessageView, floor: int) -> Result<ServerReplyView, ErrorView> {
    match m.read_int() {
        Err(e) => Err(e),
        Ok(version) => match m.skip().read_string() {
            Err(e) => Err(e),
            Ok(time) => if version < floor {
                Err(ErrorView::ServerVersionUnsupported(floor, version))
            } else {
                Ok(ServerReplyView { server_version: version, server_time: time })
            },
        },
    }
}

/// The reader after the answer of the server was read: behind the version
/// and, where the version could be read, behind the time.
pub open spec fn after_server_reply(m: MessageView) -> MessageView {
    match m.read_int() {
        Ok(_) => m.skip().skip(),
        Err(_) => m.skip(),
    }
}

/// Reads the answer of the server to the offer of versions.
pub fn decode_server_reply(message: &mut ResponseMessage, floor: i32) -> (r: Result<
    ServerReply,
    Error,
>)
    ensures
        final(message)@ == after_server_reply(old(message)@),
        match r {
            Ok(reply) => server_reply_of(old(message)@, floor as int) == Ok::<
                ServerReplyView,
                ErrorView,
            >(reply@),
            Err(e) => server_reply_of(old(message)@, floor as int) == Err::<
                ServerReplyView,
                ErrorView,
            >(e@),
        },
{
    let server_version = message.next_int()?;
    let server_time = message.next_string()?;
    if server_version < floor {
        return Err(Error::ServerVersionUnsupported(floor, server_version));
    }
    Ok(ServerReply { server_version, server_time })
}

/// What the start-up has seen so far of the two messages that the server
/// sends by itself: the managed accounts and the next valid order
/// identifier.
#[derive(Clone, Debug, PartialEq)]
pub struct StartUp {
    /// The managed accounts, once they have come.
    pub managed_accounts: Option<String>,
    /// The next valid order identifier, once it has come.
    pub next_valid_id: Option<i32>,
}

/// The mathematical content of a [`StartUp`].
pub struct StartUpView {
    pub managed_accounts: Option<Seq<char>>,
    pub next_valid_id: Option<int>,
}

impl View for StartUp {
    type V = StartUpView;

    open spec fn view(&self) -> StartUpView {
        StartUpView {
            managed_accounts: match self.managed_accounts {
                Some(accounts) => Some(accounts@),
                None => None,
            },
            next_valid_id: match self.next_valid_id {
                Some(id) => Some(id as int),
                None => None,
            },
        }
    }
}

impl StartUpView {
    /// Both messages have come.
    pub open spec fn complete(self) -> bool {
        self.managed_accounts is Some && self.next_valid_id is Some
    }

    /// The start-up after one more message of the server. Both messages
    /// carry their kind, their version and one value; any other message, and
    /// one that cannot be read, leaves the start-up as it is.
    pub open spec fn after(self, m: MessageView) -> StartUpView {
        let value = MessageView { position: 2, ..m };
        match (MessageView { position: 0, ..m }).read_int() {
            Ok(kind) => if kind == MANAGED_ACCOUNTS {
                match value.read_string() {
                    Ok(accounts) => StartUpView { managed_accounts: Some(accounts), ..self },
                    Err(_) => self,
                }
            } else if kind == NEXT_VALID_ID {
                match value.read_int() {
                    Ok(id) => StartUpView { next_valid_id: Some(id), ..self },
                    Err(_) => self,
                }
            } else {
                self
            },
            Err(_) => self,
        }
    }
}

impl StartUp {
    /// A start-up that has seen nothing yet.
    pub fn new() -> (r: StartUp)
        ensures
            r@.managed_accounts is None,
            r@.next_valid_id is None,
    {
        StartUp { managed_accounts: None, next_valid_id: None }
    }

    /// Takes note of a message of the server.
    pub fn observe(self, message: &ResponseMessage) -> (r: StartUp)
        ensures
            r@ == self@.after(message@),
    {
        match message.peek_int(0) {
            Ok(kind) => {
                if kind == MANAGED_ACCOUNTS {
                    match message.peek_string(2) {
                        Some(accounts) => StartUp {
                            managed_accounts: Some(accounts),
                            next_valid_id: self.next_valid_id,
                        },
                        None => self,
                    }
                } else if kind == NEXT_VALID_ID {
                    match message.peek_int(2) {
                        Ok(id) => StartUp {
                            managed_accounts: self.managed_accounts,
                            next_valid_id: Some(id),
                        },
                        Err(_) => self,
                    }
                } else {
                    self
                }
            },
            Err(_) => self,
        }
    }

    /// Whether both messages have come.
    pub fn is_complete(&self) -> (r: bool)
        ensures
            r == self@.complete(),
    {
        self.managed_accounts.is_some() && self.next_valid_id.is_some()
    }

    /// Ends the start-up when the caller's patience is over or both
    /// messages have come: the accounts and the seed of the order
    /// identifiers, or the timeout where one of them is missing.
    pub fn finish(self) -> (r: Result<(String, i32), Error>)
        ensures
            match r {
                Ok((accounts, id)) => self@.managed_accounts == Some(accounts@)
                    && self@.next_valid_id == Some(id as int),
                Err(e) => !self@.complete() && e@ == ErrorView::HandshakeTimeout,
            },
    {
        match (self.managed_accounts, self.next_valid_id) {
            (Some(accounts), Some(id)) => Ok((accounts, id)),
            _ => Err(Error::HandshakeTimeout),
        }
    }
}

} // verus!
