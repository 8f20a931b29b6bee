//! The Interledger Dynamic Configuration Protocol.
//!
//! A node asks its peer for the address and the asset that the peer has
//! assigned to it. The request is a Prepare for nothing, sent to a reserved
//! address. The response is the data of the Fulfill that comes back.

use crate::clock::{read_clock, read_from_clock};
use crate::errors::ParseError;
use crate::external::{as_slice, octets};
use crate::oer::{
    is_length_prefix, law_cut_string_ends_unexpectedly, law_every_length_can_be_written,
    law_read_string_was_written, law_written_string_is_read_back, leading_var_octet_string,
    read_octet, read_var_octet_string, shortest_length_prefix,
};
use crate::packet::{Fulfill, Packet, Prepare, Timestamp, NANOS_PER_SECOND};
use bytes::Bytes;
use vstd::prelude::*;
use vstd::utf8::{
    decode_utf8, decode_utf8_encode_utf8, encode_utf8, encode_utf8_decode_utf8,
    encode_utf8_valid_utf8, valid_utf8,
};

verus! {

/// The address that requests for configuration are sent to.
pub const ILDCP_DESTINATION: &'static str = "peer.config";

/// How long a request between peers is good for.
pub const PEER_PROTOCOL_EXPIRY_SECONDS: i64 = 60;

/// The execution condition of every request between peers: the SHA-256 hash of
/// 32 zero bytes.
pub const PEER_PROTOCOL_CONDITION: [u8; 32] = [
    102, 104, 122, 173, 248, 98, 189, 119, 108, 143, 193, 139, 142, 159, 142, 32, 8, 151, 20, 133,
    110, 226, 51, 179, 144, 42, 89, 29, 13, 95, 41, 37,
];

/// The fulfillment of every request between peers.
pub const PEER_PROTOCOL_FULFILLMENT: [u8; 32] = [
    0, 0, 0, 0, 0, 0, 0, 0, 0, 0, 0, 0, 0, 0, 0, 0, 0, 0, 0, 0,
    0, 0, 0, 0, 0, 0, 0, 0, 0, 0, 0, 0,
];

/// A request for the configuration of this node.
#[derive(Debug)]
pub struct IldcpRequest {}

/// Whether the packet is the request for configuration made at the instant
/// `now`.
pub open spec fn is_config_request(prepare: Prepare, now: Timestamp) -> bool {
    &&& prepare.destination@ == ILDCP_DESTINATION@
    &&& prepare.amount == 0
    &&& octets(prepare.execution_condition) == PEER_PROTOCOL_CONDITION@
    &&& prepare.expires_at.well_formed()
    &&& prepare.expires_at@ == now@ + PEER_PROTOCOL_EXPIRY_SECONDS * NANOS_PER_SECOND
    &&& octets(prepare.data) == Seq::<u8>::empty()
}

impl IldcpRequest {
    /// The request. There is only one.
    pub fn new() -> (request: Self)
        ensures
            request == (IldcpRequest {  }),
    {
        IldcpRequest {  }
    }

    /// The packet that carries the request, to be sent at the instant `now`.
    pub fn to_prepare_at(&self, now: Timestamp) -> (prepare: Prepare)
        requires
            now.well_formed(),
            now.secs + PEER_PROTOCOL_EXPIRY_SECONDS <= i64::MAX,
        ensures
            is_config_request(prepare, now),
            prepare.destination.text@ == "peer.config"@,
            prepare.amount == 0,
            octets(prepare.execution_condition) == PEER_PROTOCOL_CONDITION@,
            prepare.expires_at.secs == now.secs + 60,
            prepare.expires_at.nanos == now.nanos,
            octets(prepare.data).len() == 0,
    {
        Prepare::new(
            ILDCP_DESTINATION,
            0,
            PEER_PROTOCOL_CONDITION.as_slice(),
            now.plus_seconds(PEER_PROTOCOL_EXPIRY_SECONDS),
            Bytes::new(),
        )
    }

    /// The packet that carries the request, to be sent now. Its expiry counts
    /// from a reading of the system clock.
    pub fn to_prepare(&self) -> (prepare: Prepare)
        ensures
            exists|now: Timestamp|
                {
                    &&& #[trigger] read_from_clock(now)
                    &&& now.is_clock_reading()
                    &&& is_config_request(prepare, now)
                    &&& prepare.expires_at.secs == now.secs + 60
                    &&& prepare.expires_at.nanos == now.nanos
                },
            prepare.destination.text@ == "peer.config"@,
            prepare.amount == 0,
            octets(prepare.execution_condition) == PEER_PROTOCOL_CONDITION@,
            octets(prepare.data).len() == 0,
    {
        let now = read_clock();
        self.to_prepare_at(now)
    }
}

/// What a peer has assigned to this node.
#[derive(Debug)]
pub struct IldcpResponse {
    /// The ILP address of this node.
    pub client_address: String,
    /// The number of decimal places of an amount.
    pub asset_scale: u8,
    /// The asset that amounts are in.
    pub asset_code: String,
}

/// What a response says.
pub struct Configuration {
    /// The ILP address of the node.
    pub client_address: Seq<char>,
    /// The number of decimal places of an amount.
    pub asset_scale: u8,
    /// The asset that amounts are in.
    pub asset_code: Seq<char>,
}

impl View for IldcpResponse {
    type V = Configuration;

    open spec fn view(&self) -> Configuration {
        Configuration {
            client_address: self.client_address@,
            asset_scale: self.asset_scale,
            asset_code: self.asset_code@,
        }
    }
}

/// The text that the bytes begin with, and the bytes that follow it.
pub open spec fn leading_text(bytes: Seq<u8>) -> Result<(Seq<char>, Seq<u8>), ParseError> {
    match leading_var_octet_string(bytes) {
        Err(error) => Err(error),
        Ok((content, following)) => if valid_utf8(content) {
            Ok((decode_utf8(content), following))
        } else {
            Err(ParseError::InvalidUtf8)
        },
    }
}

/// The configuration that the bytes spell: the address, the scale, the code.
/// Whatever follows the code is ignored.
pub open spec fn parse_configuration(bytes: Seq<u8>) -> Result<Configuration, ParseError> {
    match leading_text(bytes) {
        Err(error) => Err(error),
        Ok((client_address, after_address)) => if after_address.len() == 0 {
            Err(ParseError::UnexpectedEnd)
        } else {
            match leading_text(after_address.skip(1)) {
                Err(error) => Err(error),
                Ok((asset_code, _)) => Ok(
                    Configuration { client_address, asset_scale: after_address[0], asset_code },
                ),
            }
        },
    }
}

/// Takes a text off the front of `reader`. On failure nothing is said of
/// `reader`.
fn read_text(reader: &mut &[u8]) -> (result: Result<String, ParseError>)
    ensures
        match leading_text((*old(reader))@) {
            Ok((content, following)) => {
                &&& result matches Ok(text) && text@ == content
                &&& (*final(reader))@ == following
            },
            Err(error) => result == Err::<String, ParseError>(error),
        },
{
    match read_var_octet_string(reader) {
        Ok(content) => match String::from_utf8(content) {
            Ok(text) => Ok(text),
            Err(_) => Err(ParseError::InvalidUtf8),
        },
        Err(error) => Err(error),
    }
}

impl IldcpResponse {
    /// Reads the response out of the data of a packet.
    pub fn from_fulfill(fulfill: Fulfill) -> (result: Result<Self, ParseError>)
        ensures
            match parse_configuration(octets(fulfill.data)) {
                Ok(configuration) => result matches Ok(response) && response@ == configuration,
                Err(error) => result == Err::<Self, ParseError>(error),
            },
            match (result, parse_configuration(octets(fulfill.data))) {
                (Ok(response), Ok(configuration)) => {
                    &&& response.client_address@ == configuration.client_address
                    &&& response.asset_scale == configuration.asset_scale
                    &&& response.asset_code@ == configuration.asset_code
                },
                (Err(left), Err(right)) => left == right,
                _ => false,
            },
    {
        let mut reader: &[u8] = as_slice(&fulfill.data);
        let client_address = match read_text(&mut reader) {
            Ok(text) => text,
            Err(error) => return Err(error),
        };
        let asset_scale: u8 = match read_octet(&mut reader) {
            Ok(byte) => byte,
            Err(error) => return Err(error),
        };
        let asset_code = match read_text(&mut reader) {
            Ok(text) => text,
            Err(error) => return Err(error),
        };
        Ok(IldcpResponse { client_address, asset_scale, asset_code })
    }
}

/// The number that the request for configuration is sent under.
pub const CONFIG_REQUEST_ID: u32 = 0;

/// How far the exchange over a plugin has come.
pub enum ConfigState {
    /// The request is on its way out.
    Sending,
    /// The request is out, and the next packet is awaited.
    Receiving,
    /// The exchange is over.
    Finished,
}

/// What the plugin has done.
pub enum ConfigEvent {
    /// The request went out.
    Sent,
    /// The request could not be sent.
    SendFailed,
    /// The next packet came in, with its number, or there is no next packet.
    Received(Option<(u32, Packet)>),
    /// The plugin could not receive.
    ReceiveFailed,
}

/// What is to be done with the plugin.
pub enum ConfigAction {
    /// Send the packet under the number.
    Send {
        /// The number to send under.
        request_id: u32,
        /// The packet to send.
        packet: Packet,
    },
    /// Wait for the next packet.
    Receive,
    /// Return the response, and the plugin with it.
    Succeed(IldcpResponse),
    /// Return an error, and the plugin with it if it can still be used.
    Fail {
        /// Whether the plugin can still be used.
        plugin_usable: bool,
    },
}

/// The configuration that the packet brings, if it brings one. Any number will
/// do, and only a Fulfill can bring one.
pub open spec fn received_configuration(next: Option<(u32, Packet)>) -> Option<Configuration> {
    match next {
        Some((_, Packet::Fulfill(fulfill))) => match parse_configuration(octets(fulfill.data)) {
            Ok(configuration) => Some(configuration),
            Err(_) => None,
        },
        _ => None,
    }
}

impl ConfigState {
    /// Whether the event can come about in this state.
    pub open spec fn expects(self, event: ConfigEvent) -> bool {
        match self {
            ConfigState::Sending => event is Sent || event is SendFailed,
            ConfigState::Receiving => event is Received || event is ReceiveFailed,
            ConfigState::Finished => false,
        }
    }

    /// Whether the state and the action are what follows the event.
    pub open spec fn leads_to(
        self,
        event: ConfigEvent,
        next: ConfigState,
        action: ConfigAction,
    ) -> bool {
        match event {
            ConfigEvent::Sent => next is Receiving && action is Receive,
            ConfigEvent::SendFailed => next is Finished && action == (ConfigAction::Fail {
                plugin_usable: false,
            }),
            ConfigEvent::Received(packet) => next is Finished && match received_configuration(
                packet,
            ) {
                Some(configuration) => {
                    action matches ConfigAction::Succeed(response) && response@ == configuration
                },
                None => action == (ConfigAction::Fail { plugin_usable: true }),
            },
            ConfigEvent::ReceiveFailed => next is Finished && action == (ConfigAction::Fail {
                plugin_usable: true,
            }),
        }
    }

    /// The number of events that can still come about.
    pub open spec fn events_left(self) -> nat {
        match self {
            ConfigState::Sending => 2,
            ConfigState::Receiving => 1,
            ConfigState::Finished => 0,
        }
    }

    /// Begins an exchange, by sending the request for configuration.
    pub fn begin() -> (started: (ConfigState, ConfigAction))
        ensures
            started.0 is Sending,
            ({
                &&& started.1 matches ConfigAction::Send { request_id, packet }
                &&& request_id == CONFIG_REQUEST_ID
                &&& request_id == 0
                &&& packet matches Packet::Prepare(prepare)
                &&& prepare.destination.text@ == "peer.config"@
                &&& prepare.amount == 0
                &&& octets(prepare.execution_condition) == PEER_PROTOCOL_CONDITION@
                &&& octets(prepare.data).len() == 0
                &&& exists|now: Timestamp|
                    {
                        &&& #[trigger] read_from_clock(now)
                        &&& now.is_clock_reading()
                        &&& is_config_request(prepare, now)
                        &&& prepare.expires_at.secs == now.secs + 60
                        &&& prepare.expires_at.nanos == now.nanos
                    }
            }),
    {
        let prepare = IldcpRequest::new().to_prepare();
        (
            ConfigState::Sending,
            ConfigAction::Send { request_id: CONFIG_REQUEST_ID, packet: Packet::Prepare(prepare) },
        )
    }

    /// Goes on with an exchange after an event.
    pub fn step(self, event: ConfigEvent) -> (followed: (ConfigState, ConfigAction))
        requires
            self.expects(event),
        ensures
            self.leads_to(event, followed.0, followed.1),
            match event {
                ConfigEvent::Sent => followed.0 is Receiving && followed.1 is Receive,
                ConfigEvent::SendFailed => {
                    &&& followed.0 is Finished
                    &&& followed.1 matches ConfigAction::Fail { plugin_usable }
                    &&& !plugin_usable
                },
                ConfigEvent::ReceiveFailed => {
                    &&& followed.0 is Finished
                    &&& followed.1 matches ConfigAction::Fail { plugin_usable }
                    &&& plugin_usable
                },
                ConfigEvent::Received(Some((_, Packet::Fulfill(fulfill)))) => {
                    &&& followed.0 is Finished
                    &&& match (followed.1, parse_configuration(octets(fulfill.data))) {
                        (ConfigAction::Succeed(response), Ok(configuration)) => {
                            &&& response.client_address@ == configuration.client_address
                            &&& response.asset_scale == configuration.asset_scale
                            &&& response.asset_code@ == configuration.asset_code
                        },
                        (ConfigAction::Fail { plugin_usable }, Err(_)) => plugin_usable,
                        _ => false,
                    }
                },
                ConfigEvent::Received(_) => {
                    &&& followed.0 is Finished
                    &&& followed.1 matches ConfigAction::Fail { plugin_usable }
                    &&& plugin_usable
                },
            },
    {
        match event {
            ConfigEvent::Sent => (ConfigState::Receiving, ConfigAction::Receive),
            ConfigEvent::SendFailed => (
                ConfigState::Finished,
                ConfigAction::Fail { plugin_usable: false },
            ),
            ConfigEvent::Received(Some((_, Packet::Fulfill(fulfill)))) => {
                match IldcpResponse::from_fulfill(fulfill) {
                    Ok(response) => (ConfigState::Finished, ConfigAction::Succeed(response)),
                    Err(_) => (ConfigState::Finished, ConfigAction::Fail { plugin_usable: true }),
                }
            },
            ConfigEvent::Received(_) | ConfigEvent::ReceiveFailed => (
                ConfigState::Finished,
                ConfigAction::Fail { plugin_usable: true },
            ),
        }
    }
}

/// Whether the bytes are the configuration spelled out, with the given lengths
/// and something behind it.
pub open spec fn spells_configuration(
    bytes: Seq<u8>,
    configuration: Configuration,
    address_length: Seq<u8>,
    code_length: Seq<u8>,
    following: Seq<u8>,
) -> bool {
    let address = encode_utf8(configuration.client_address);
    let code = encode_utf8(configuration.asset_code);
    &&& is_length_prefix(address_length, address.len())
    &&& is_length_prefix(code_length, code.len())
    &&& bytes == address_length + address + seq![configuration.asset_scale] + code_length + code
        + following
}

/// The bytes of a configuration, each length written the shortest way.
pub open spec fn spelled_configuration(configuration: Configuration) -> Seq<u8> {
    let address = encode_utf8(configuration.client_address);
    let code = encode_utf8(configuration.asset_code);
    shortest_length_prefix(address.len()) + address + seq![configuration.asset_scale]
        + shortest_length_prefix(code.len()) + code
}

/// Text is read back from its encoding, whichever way its length is written,
/// and what follows it is left.
pub proof fn law_written_text_is_read_back(length: Seq<u8>, text: Seq<char>, following: Seq<u8>)
    requires
        is_length_prefix(length, encode_utf8(text).len()),
    ensures
        leading_text(length + encode_utf8(text) + following) == Ok::<_, ParseError>(
            (text, following),
        ),
{
    encode_utf8_valid_utf8(text);
    encode_utf8_decode_utf8(text);
    law_written_string_is_read_back(length, encode_utf8(text), following);
}

/// Bytes that a text is read from are a length, the encoding of the text and what
/// is left.
pub proof fn law_read_text_was_written(bytes: Seq<u8>)
    requires
        leading_text(bytes) is Ok,
    ensures
        ({
            let (text, following) = leading_text(bytes)->Ok_0;
            exists|length: Seq<u8>| #[trigger]
                is_length_prefix(length, encode_utf8(text).len()) && bytes == length + encode_utf8(
                    text,
                ) + following
        }),
{
    let (content, following) = leading_var_octet_string(bytes)->Ok_0;
    decode_utf8_encode_utf8(content);
    law_read_string_was_written(bytes);
    let length = choose|prefix: Seq<u8>| #[trigger]
        is_length_prefix(prefix, content.len()) && bytes == prefix + content + following;
    assert(encode_utf8(leading_text(bytes)->Ok_0.0) == content);
    assert(is_length_prefix(length, encode_utf8(leading_text(bytes)->Ok_0.0).len()));
    assert(bytes == length + encode_utf8(leading_text(bytes)->Ok_0.0) + following);
}

/// A text that is cut short ends unexpectedly.
pub proof fn law_cut_text_ends_unexpectedly(length: Seq<u8>, text: Seq<char>, cut: int)
    requires
        is_length_prefix(length, encode_utf8(text).len()),
        0 <= cut < length.len() + encode_utf8(text).len(),
    ensures
        leading_text((length + encode_utf8(text)).take(cut)) == Err::<
            (Seq<char>, Seq<u8>),
            ParseError,
        >(ParseError::UnexpectedEnd),
{
    law_cut_string_ends_unexpectedly(length, encode_utf8(text), cut);
}

/// A string that does not encode a text is not read as one.
pub proof fn law_string_that_is_no_text_is_rejected(
    length: Seq<u8>,
    content: Seq<u8>,
    following: Seq<u8>,
)
    requires
        is_length_prefix(length, content.len()),
        !valid_utf8(content),
    ensures
        leading_text(length + content + following) == Err::<(Seq<char>, Seq<u8>), ParseError>(
            ParseError::InvalidUtf8,
        ),
{
    law_written_string_is_read_back(length, content, following);
}

/// What a spelling of a configuration is: the length of the address, the
/// address, the scale, the length of the code, the code, and something behind.
pub proof fn law_spelling_has_six_parts(
    bytes: Seq<u8>,
    configuration: Configuration,
    address_length: Seq<u8>,
    code_length: Seq<u8>,
    following: Seq<u8>,
)
    ensures
        spells_configuration(bytes, configuration, address_length, code_length, following) <==> {
            &&& is_length_prefix(address_length, encode_utf8(configuration.client_address).len())
            &&& is_length_prefix(code_length, encode_utf8(configuration.asset_code).len())
            &&& bytes == address_length + encode_utf8(configuration.client_address)
                + seq![configuration.asset_scale] + code_length + encode_utf8(
                configuration.asset_code,
            ) + following
        },
{
}

/// The address is read first, and decides the error if it cannot be read.
pub proof fn law_unreadable_address_decides(bytes: Seq<u8>)
    requires
        leading_text(bytes) is Err,
    ensures
        parse_configuration(bytes) == Err::<Configuration, ParseError>(leading_text(bytes)->Err_0),
{
}

/// Behind the address the configuration has one byte for the scale, and whatever
/// follows that is read as the code, which decides the error if it cannot be
/// read.
pub proof fn law_code_is_read_behind_address_and_scale(
    address_length: Seq<u8>,
    address: Seq<char>,
    scale: u8,
    behind_scale: Seq<u8>,
)
    requires
        is_length_prefix(address_length, encode_utf8(address).len()),
    ensures
        parse_configuration(address_length + encode_utf8(address)) == Err::<
            Configuration,
            ParseError,
        >(ParseError::UnexpectedEnd),
        ({
            let bytes = address_length + encode_utf8(address) + seq![scale] + behind_scale;
            match (parse_configuration(bytes), leading_text(behind_scale)) {
                (Ok(configuration), Ok((code, _))) => {
                    &&& configuration.client_address == address
                    &&& configuration.asset_scale == scale
                    &&& configuration.asset_code == code
                },
                (Err(left), Err(right)) => left == right,
                _ => false,
            }
        }),
{
    let head = address_length + encode_utf8(address);
    law_written_text_is_read_back(address_length, address, Seq::empty());
    assert(head + Seq::<u8>::empty() == head);
    law_written_text_is_read_back(address_length, address, seq![scale] + behind_scale);
    assert(head + (seq![scale] + behind_scale) == head + seq![scale] + behind_scale);
    assert((seq![scale] + behind_scale).skip(1) == behind_scale);
}

/// A configuration that a peer has spelled out is read back as it was, whatever
/// the peer adds behind it, whichever way the lengths are written.
pub proof fn law_written_configuration_is_read_back(
    bytes: Seq<u8>,
    configuration: Configuration,
    address_length: Seq<u8>,
    code_length: Seq<u8>,
    following: Seq<u8>,
)
    requires
        spells_configuration(bytes, configuration, address_length, code_length, following),
    ensures
        parse_configuration(bytes) == Ok::<_, ParseError>(configuration),
{
    let behind_scale = code_length + encode_utf8(configuration.asset_code) + following;
    law_code_is_read_behind_address_and_scale(
        address_length,
        configuration.client_address,
        configuration.asset_scale,
        behind_scale,
    );
    law_written_text_is_read_back(code_length, configuration.asset_code, following);
    assert(bytes == address_length + encode_utf8(configuration.client_address)
        + seq![configuration.asset_scale] + behind_scale);
}

/// Bytes that a configuration is read from are that configuration spelled out,
/// with something behind it.
pub proof fn law_read_configuration_was_written(bytes: Seq<u8>)
    requires
        parse_configuration(bytes) is Ok,
    ensures
        exists|address_length: Seq<u8>, code_length: Seq<u8>, following: Seq<u8>| #[trigger]
            spells_configuration(
                bytes,
                parse_configuration(bytes)->Ok_0,
                address_length,
                code_length,
                following,
            ),
{
    let configuration = parse_configuration(bytes)->Ok_0;
    let (address, after_address) = leading_text(bytes)->Ok_0;
    let (code, following) = leading_text(after_address.skip(1))->Ok_0;
    law_read_text_was_written(bytes);
    law_read_text_was_written(after_address.skip(1));
    let address_length = choose|length: Seq<u8>| #[trigger]
        is_length_prefix(length, encode_utf8(address).len()) && bytes == length + encode_utf8(
            address,
        ) + after_address;
    let code_length = choose|length: Seq<u8>| #[trigger]
        is_length_prefix(length, encode_utf8(code).len()) && after_address.skip(1) == length
            + encode_utf8(code) + following;
    lemma_parts_join(
        address_length + encode_utf8(address),
        after_address,
        code_length,
        encode_utf8(code),
        following,
    );
    assert(spells_configuration(bytes, configuration, address_length, code_length, following));
}

/// The first byte of the middle and the parts of its rest can be joined one by
/// one.
proof fn lemma_parts_join(
    head: Seq<u8>,
    middle: Seq<u8>,
    left: Seq<u8>,
    right: Seq<u8>,
    following: Seq<u8>,
)
    requires
        middle.len() > 0,
        middle.skip(1) == left + right + following,
    ensures
        head + middle == head + seq![middle[0]] + left + right + following,
{
    assert(middle == seq![middle[0]] + middle.skip(1));
    assert(head + (seq![middle[0]] + (left + right + following)) == head + seq![middle[0]] + left
        + right + following);
}

/// A configuration that is cut short anywhere ends unexpectedly.
pub proof fn law_cut_configuration_ends_unexpectedly(
    configuration: Configuration,
    address_length: Seq<u8>,
    code_length: Seq<u8>,
    cut: int,
)
    requires
        is_length_prefix(address_length, encode_utf8(configuration.client_address).len()),
        is_length_prefix(code_length, encode_utf8(configuration.asset_code).len()),
        0 <= cut < address_length.len() + encode_utf8(configuration.client_address).len() + 1
            + code_length.len() + encode_utf8(configuration.asset_code).len(),
    ensures
        parse_configuration(
            (address_length + encode_utf8(configuration.client_address)
                + seq![configuration.asset_scale] + code_length + encode_utf8(
                configuration.asset_code,
            )).take(cut),
        ) == Err::<Configuration, ParseError>(ParseError::UnexpectedEnd),
{
    let head = address_length + encode_utf8(configuration.client_address);
    let tail = code_length + encode_utf8(configuration.asset_code);
    let scale = seq![configuration.asset_scale];
    let bytes = head + scale + code_length + encode_utf8(configuration.asset_code);
    assert(bytes == head + scale + tail);
    if cut < head.len() {
        assert(bytes.take(cut) == head.take(cut));
        law_cut_text_ends_unexpectedly(address_length, configuration.client_address, cut);
    } else {
        let behind = if cut == head.len() {
            Seq::<u8>::empty()
        } else {
            tail.take(cut - head.len() - 1)
        };
        law_code_is_read_behind_address_and_scale(
            address_length,
            configuration.client_address,
            configuration.asset_scale,
            behind,
        );
        if cut == head.len() {
            assert(bytes.take(cut) == head);
        } else {
            assert(bytes.take(cut) == head + scale + behind);
            law_cut_text_ends_unexpectedly(
                code_length,
                configuration.asset_code,
                cut - head.len() - 1,
            );
        }
    }
}

/// Every configuration can be spelled out and read back, as long as eight bytes
/// can give the lengths of its address and its code.
pub proof fn law_spelled_configuration_is_read_back(configuration: Configuration)
    requires
        encode_utf8(configuration.client_address).len() <= u64::MAX,
        encode_utf8(configuration.asset_code).len() <= u64::MAX,
    ensures
        parse_configuration(spelled_configuration(configuration)) == Ok::<_, ParseError>(
            configuration,
        ),
{
    let address_len = encode_utf8(configuration.client_address).len();
    let code_len = encode_utf8(configuration.asset_code).len();
    law_every_length_can_be_written(address_len);
    law_every_length_can_be_written(code_len);
    let bytes = spelled_configuration(configuration);
    assert(bytes == bytes + Seq::<u8>::empty());
    law_written_configuration_is_read_back(
        bytes,
        configuration,
        shortest_length_prefix(address_len),
        shortest_length_prefix(code_len),
        Seq::empty(),
    );
}

/// The request for configuration made at an instant goes to `peer.config`, asks
/// for nothing, carries nothing, and is good for exactly one minute.
pub proof fn law_request_is_good_for_a_minute(prepare: Prepare, now: Timestamp)
    requires
        is_config_request(prepare, now),
    ensures
        prepare.destination.text@ == "peer.config"@,
        prepare.amount == 0,
        octets(prepare.execution_condition) == PEER_PROTOCOL_CONDITION@,
        octets(prepare.data).len() == 0,
        (prepare.expires_at.secs * 1_000_000_000 + prepare.expires_at.nanos) - (now.secs
            * 1_000_000_000 + now.nanos) == 60 * 1_000_000_000,
{
}

/// Requests made at two instants expire as far apart as they were made.
pub proof fn law_requests_expire_as_they_were_made(
    earlier: Prepare,
    earlier_now: Timestamp,
    later: Prepare,
    later_now: Timestamp,
)
    requires
        is_config_request(earlier, earlier_now),
        is_config_request(later, later_now),
    ensures
        later.expires_at@ - earlier.expires_at@ == later_now@ - earlier_now@,
        earlier_now.nanos < 1_000_000_000 && later_now.nanos < 1_000_000_000 && earlier.expires_at
            == later.expires_at ==> earlier_now == later_now,
{
}

/// While the request is sent it can go out or fail to, while a packet is awaited
/// one can come in, fail to, or be missing, and then nothing can come about.
pub proof fn law_events_by_state(state: ConfigState, event: ConfigEvent)
    ensures
        state.expects(event) <==> match (state, event) {
            (ConfigState::Sending, ConfigEvent::Sent) => true,
            (ConfigState::Sending, ConfigEvent::SendFailed) => true,
            (ConfigState::Receiving, ConfigEvent::Received(_)) => true,
            (ConfigState::Receiving, ConfigEvent::ReceiveFailed) => true,
            _ => false,
        },
        state.events_left() == (match state {
            ConfigState::Sending => 2nat,
            ConfigState::Receiving => 1nat,
            ConfigState::Finished => 0nat,
        }),
{
}

/// What a response says is its three fields.
pub proof fn law_response_says_its_fields(response: IldcpResponse)
    ensures
        response@.client_address == response.client_address@,
        response@.asset_scale == response.asset_scale,
        response@.asset_code == response.asset_code@,
{
}

/// An exchange that fails gives the plugin back, unless the request could not
/// be sent. Then the plugin can no longer be used.
pub proof fn law_failure_keeps_usable_plugin(
    state: ConfigState,
    event: ConfigEvent,
    next: ConfigState,
    action: ConfigAction,
)
    requires
        state.expects(event),
        state.leads_to(event, next, action),
        action is Fail,
    ensures
        action->plugin_usable <==> !(event is SendFailed),
        action->plugin_usable <==> state is Receiving,
{
}

/// An exchange succeeds exactly when a Fulfill comes in whose data spells a
/// configuration, and it is that configuration which is returned.
pub proof fn law_success_is_a_readable_fulfill(
    state: ConfigState,
    event: ConfigEvent,
    next: ConfigState,
    action: ConfigAction,
)
    requires
        state.expects(event),
        state.leads_to(event, next, action),
    ensures
        action is Succeed <==> (event matches ConfigEvent::Received(
            Some((_, Packet::Fulfill(fulfill))),
        ) && parse_configuration(octets(fulfill.data)) is Ok),
        action matches ConfigAction::Succeed(response) ==> (event matches ConfigEvent::Received(
            Some((_, Packet::Fulfill(fulfill))),
        ) && parse_configuration(octets(fulfill.data)) == Ok::<_, ParseError>(response@)),
{
}

/// Every event brings an exchange nearer its end. After the one request that
/// begins it nothing more is sent, and the exchange is over exactly when it has
/// succeeded or failed.
pub proof fn law_exchange_ends(
    state: ConfigState,
    event: ConfigEvent,
    next: ConfigState,
    action: ConfigAction,
)
    requires
        state.expects(event),
        state.leads_to(event, next, action),
    ensures
        next.events_left() < state.events_left(),
        !(action is Send),
        next is Finished <==> action is Succeed || action is Fail,
{
}

} // verus!
