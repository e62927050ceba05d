//! The message dispatcher: from a decrypted wire message to a report.
//!
//! A wire message is a two-byte big-endian type followed by the payload of
//! that type. Type 16, `init`, is decoded; every other type is reported
//! as unrecognized. Nothing here is fatal to a connection.

use vstd::prelude::*;
use vstd::string::StringExecFns;
use lightning::ln::msgs::Init;
use lightning::util::ser::LengthReadable;
use crate::text::bool_text;
use crate::text::decimal;
use crate::text::decimal_string;

verus! {

/// The type of the `init` message.
pub const INIT_TYPE: u16 = 16;

/// What decoding `payload` as an `init` message gives: the feature flags,
/// least significant byte first, or the text of the decode error.
pub uninterp spec fn init_read(payload: Seq<u8>) -> Result<Seq<u8>, Seq<char>>;

/// A decoded value or an error text, as a mathematical value.
pub open spec fn decoded_view(decoded: Result<Vec<u8>, String>) -> Result<Seq<u8>, Seq<char>> {
    match decoded {
        Ok(features) => Ok(features@),
        Err(reason) => Err(reason@),
    }
}

/// Calls `lightning::ln::msgs::Init::read_from_fixed_length_buffer` on
/// the payload, then `lightning::types::features::Features::le_flags` on
/// the features of the message, or formats the decode error with its
/// `Debug` form. Believed: the outcome depends on the payload alone.
#[verifier::external_body]
pub(crate) fn read_init_features(payload: &[u8]) -> (decoded: Result<Vec<u8>, String>)
    ensures
        decoded_view(decoded) == init_read(payload@),
{
    let mut reader = payload;
    match Init::read_from_fixed_length_buffer(&mut reader) {
        Ok(message) => Ok(message.features.le_flags().to_vec()),
        Err(error) => Err(format!("{:?}", error)),
    }
}

/// The message types that the dispatcher has a decoder for.
#[derive(Clone, Copy, Debug, PartialEq, Eq, Structural)]
pub enum MessageKind {
    Init,
}

/// The decoder that a type identifier maps to, if it maps to one.
pub open spec fn kind_of(type_id: u16) -> Option<MessageKind> {
    if type_id == INIT_TYPE {
        Some(MessageKind::Init)
    } else {
        None
    }
}

/// The five feature flags that an `init` report shows.
#[derive(Clone, Copy, Debug, PartialEq, Eq, Structural)]
pub struct InitSummary {
    pub supports_data_loss_protect: bool,
    pub requires_data_loss_protect: bool,
    pub initial_routing_sync: bool,
    pub supports_upfront_shutdown_script: bool,
    pub requires_upfront_shutdown_script: bool,
}

/// The byte that holds feature bits 0 to 7: the first of the flags, or
/// zero when there are none.
pub open spec fn low_flags(features: Seq<u8>) -> u8 {
    if features.len() > 0 {
        features[0]
    } else {
        0
    }
}

/// The flags that a feature vector stands for. A feature with a pair of
/// bits is supported when either bit is set and required when the even
/// bit is set: bits 0 and 1 for data-loss-protect, 4 and 5 for
/// upfront-shutdown-script. Initial-routing-sync has no even bit: bit 3
/// alone carries it. Bits 2, 6 and 7 change none of the five.
pub open spec fn summary_of(features: Seq<u8>) -> InitSummary {
    let low = low_flags(features);
    InitSummary {
        supports_data_loss_protect: low & 0x03 != 0,
        requires_data_loss_protect: low & 0x01 != 0,
        initial_routing_sync: low & 0x08 != 0,
        supports_upfront_shutdown_script: low & 0x30 != 0,
        requires_upfront_shutdown_script: low & 0x10 != 0,
    }
}

/// What the dispatcher found in a message, as a mathematical value.
pub enum ReportModel {
    Init { summary: InitSummary },
    MalformedInit { reason: Seq<char> },
    Unrecognized { type_id: u16 },
    UnrecognizedRequired { type_id: u16 },
    Truncated,
}

/// What the dispatcher found in a message.
#[derive(Clone, Debug, PartialEq, Eq)]
pub enum Report {
    /// An `init` message and its flags.
    Init { summary: InitSummary },
    /// An `init` message whose payload does not decode, with the reason.
    MalformedInit { reason: String },
    /// An unknown odd type, which a receiver ignores.
    Unrecognized { type_id: u16 },
    /// An unknown even type, which a receiver must not see: the peer
    /// violated the protocol.
    UnrecognizedRequired { type_id: u16 },
    /// A message too short to hold its type.
    Truncated,
}

impl View for Report {
    type V = ReportModel;

    open spec fn view(&self) -> ReportModel {
        match self {
            Report::Init { summary } => ReportModel::Init { summary: *summary },
            Report::MalformedInit { reason } => ReportModel::MalformedInit { reason: reason@ },
            Report::Unrecognized { type_id } => ReportModel::Unrecognized { type_id: *type_id },
            Report::UnrecognizedRequired { type_id } => ReportModel::UnrecognizedRequired {
                type_id: *type_id,
            },
            Report::Truncated => ReportModel::Truncated,
        }
    }
}

/// The report for a decoded `init` payload.
pub open spec fn init_report(decoded: Result<Seq<u8>, Seq<char>>) -> ReportModel {
    match decoded {
        Ok(features) => ReportModel::Init { summary: summary_of(features) },
        Err(reason) => ReportModel::MalformedInit { reason },
    }
}

/// The type that a message of at least two bytes starts with.
pub open spec fn message_type(message: Seq<u8>) -> u16 {
    (message[0] * 256 + message[1]) as u16
}

/// The report for a payload of a kind that has a decoder.
pub open spec fn decoded_report(kind: MessageKind, payload: Seq<u8>) -> ReportModel {
    match kind {
        MessageKind::Init => init_report(init_read(payload)),
    }
}

/// The report for a whole wire message: what its decoder finds in the
/// payload, or that the type is unknown, told apart by whether the type
/// is odd or even.
pub open spec fn report_for(message: Seq<u8>) -> ReportModel {
    if message.len() < 2 {
        ReportModel::Truncated
    } else {
        let type_id = message_type(message);
        match kind_of(type_id) {
            Some(kind) => decoded_report(kind, message.subrange(2, message.len() as int)),
            None => if type_id % 2 == 1 {
                ReportModel::Unrecognized { type_id }
            } else {
                ReportModel::UnrecognizedRequired { type_id }
            },
        }
    }
}

/// One line of an `init` report: the flag's name and its value.
pub open spec fn flag_line(name: Seq<char>, flag: bool) -> Seq<char> {
    "\n  "@ + name + ": "@ + if flag {
        "true"@
    } else {
        "false"@
    }
}

/// The text of an `init` report.
pub open spec fn init_text(summary: InitSummary) -> Seq<char> {
    "\ninit:"@ + flag_line("supports_data_loss_protect"@, summary.supports_data_loss_protect)
        + flag_line("requires_data_loss_protect"@, summary.requires_data_loss_protect)
        + flag_line("initial_routing_sync"@, summary.initial_routing_sync) + flag_line(
        "supports_upfront_shutdown_script"@,
        summary.supports_upfront_shutdown_script,
    ) + flag_line("requires_upfront_shutdown_script"@, summary.requires_upfront_shutdown_script)
}

/// The text of a report.
pub open spec fn report_text(report: ReportModel) -> Seq<char> {
    match report {
        ReportModel::Init { summary } => init_text(summary),
        ReportModel::MalformedInit { reason } => "bolti could not deserialize init: reason="@
            + reason,
        ReportModel::Unrecognized { type_id } => "unrecognized type="@ + decimal(type_id as nat),
        ReportModel::UnrecognizedRequired { type_id } => "unrecognized even type="@ + decimal(
            type_id as nat,
        ),
        ReportModel::Truncated => "message shorter than its type"@,
    }
}

impl InitSummary {
    /// Reads the five flags off a feature vector, least significant byte
    /// first.
    pub fn from_features(features: &[u8]) -> (summary: InitSummary)
        ensures
            summary == summary_of(features@),
    {
        let low: u8 = if features.len() > 0 {
            features[0]
        } else {
            0
        };
        InitSummary {
            supports_data_loss_protect: low & 0x03 != 0,
            requires_data_loss_protect: low & 0x01 != 0,
            initial_routing_sync: low & 0x08 != 0,
            supports_upfront_shutdown_script: low & 0x30 != 0,
            requires_upfront_shutdown_script: low & 0x10 != 0,
        }
    }

    /// The report text: one line for each flag, with `true` or `false`.
    pub fn render(&self) -> (text: String)
        ensures
            text@ == init_text(*self),
    {
        let mut text = String::from_str("\ninit:");
        append_flag(&mut text, "supports_data_loss_protect", self.supports_data_loss_protect);
        append_flag(&mut text, "requires_data_loss_protect", self.requires_data_loss_protect);
        append_flag(&mut text, "initial_routing_sync", self.initial_routing_sync);
        append_flag(
            &mut text,
            "supports_upfront_shutdown_script",
            self.supports_upfront_shutdown_script,
        );
        append_flag(
            &mut text,
            "requires_upfront_shutdown_script",
            self.requires_upfront_shutdown_script,
        );
        text
    }
}

fn append_flag(text: &mut String, name: &str, flag: bool)
    ensures
        final(text)@ == old(text)@ + flag_line(name@, flag),
{
    text.append("\n  ");
    text.append(name);
    text.append(": ");
    text.append(bool_text(flag));
    assert(text@ =~= old(text)@ + flag_line(name@, flag));
}

impl Report {
    /// The text of the report, as it is logged.
    pub fn render(&self) -> (text: String)
        ensures
            text@ == report_text(self@),
    {
        match self {
            Report::Init { summary } => summary.render(),
            Report::MalformedInit { reason } => {
                let mut text = String::from_str("bolti could not deserialize init: reason=");
                text.append(reason.as_str());
                text
            },
            Report::Unrecognized { type_id } => {
                let mut text = String::from_str("unrecognized type=");
                text.append(decimal_string(*type_id).as_str());
                text
            },
            Report::UnrecognizedRequired { type_id } => {
                let mut text = String::from_str("unrecognized even type=");
                text.append(decimal_string(*type_id).as_str());
                text
            },
            Report::Truncated => String::from_str("message shorter than its type"),
        }
    }

    /// Whether the message is one that the peer should not have sent: an
    /// unknown even type.
    pub fn is_violation(&self) -> (violation: bool)
        ensures
            violation == (self@ is UnrecognizedRequired),
    {
        match self {
            Report::UnrecognizedRequired { .. } => true,
            _ => false,
        }
    }
}

/// The report for an `init` payload that was decoded to its feature
/// flags, or that failed to decode for the given reason.
pub fn report_init(decoded: Result<Vec<u8>, String>) -> (report: Report)
    ensures
        report@ == init_report(decoded_view(decoded)),
{
    match decoded {
        Ok(features) => Report::Init { summary: InitSummary::from_features(features.as_slice()) },
        Err(reason) => Report::MalformedInit { reason },
    }
}

/// Looks up the decoder for a type identifier.
pub fn lookup(type_id: u16) -> (kind: Option<MessageKind>)
    ensures
        kind == kind_of(type_id),
{
    if type_id == INIT_TYPE {
        Some(MessageKind::Init)
    } else {
        None
    }
}

/// Decodes a payload with the decoder of its kind.
pub fn decode(kind: MessageKind, payload: &[u8]) -> (report: Report)
    ensures
        report@ == decoded_report(kind, payload@),
{
    match kind {
        MessageKind::Init => report_init(read_init_features(payload)),
    }
}

/// Decodes the payload of an `init` message and renders the report.
pub fn init(bytes: &[u8]) -> (text: String)
    ensures
        text@ == report_text(init_report(init_read(bytes@))),
{
    decode(MessageKind::Init, bytes).render()
}

/// Maps a wire message to its report by the type it starts with.
pub fn dispatch(message: &[u8]) -> (report: Report)
    ensures
        report@ == report_for(message@),
{
    if message.len() < 2 {
        return Report::Truncated;
    }
    let high: u16 = message[0] as u16;
    let low: u16 = message[1] as u16;
    let type_id: u16 = high * 256 + low;
    match lookup(type_id) {
        Some(kind) => decode(kind, vstd::slice::slice_subrange(message, 2, message.len())),
        None => if type_id % 2 == 1 {
            Report::Unrecognized { type_id }
        } else {
            Report::UnrecognizedRequired { type_id }
        },
    }
}

} // verus!
