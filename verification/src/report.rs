//! Putting a report together: the identifier it goes by, who sends it,
//! and the credential it is sent under.

use crate::body::Body;
use crate::configuration::Configuration;
use crate::payload::{Data, DataBuilder, Item, Message};
use crate::types::{Level, Notifier};
use serde_json::Value;
use std::collections::HashMap;
use vstd::arithmetic::power::pow;
use vstd::prelude::*;

verus! {

/// Version of this library, as reports state it.
pub const VERSION: &'static str = "0.1.0";

/// Name under which this library sends reports.
pub const NOTIFIER_NAME: &'static str = "rollbar-rust";

/// The hexadecimal digit at place `place` of a 128-bit number, counted
/// from the most significant of its 32 digits.
pub open spec fn hex_digit(bits: u128, place: int) -> char {
    "0123456789abcdef"@[(bits as int / pow(16, (31 - place) as nat)) % 16]
}

/// The text of a 128-bit identifier: its 32 lower-case hexadecimal digits
/// in groups of 8, 4, 4, 4 and 12, with a hyphen between groups.
pub open spec fn hyphenated(bits: u128) -> Seq<char> {
    Seq::new(
        36,
        |i: int|
            if i == 8 || i == 13 || i == 18 || i == 23 {
                '-'
            } else if i < 8 {
                hex_digit(bits, i)
            } else if i < 13 {
                hex_digit(bits, i - 1)
            } else if i < 18 {
                hex_digit(bits, i - 2)
            } else if i < 23 {
                hex_digit(bits, i - 3)
            } else {
                hex_digit(bits, i - 4)
            },
    )
}

/// Whether a 128-bit number carries the marks of a random identifier:
/// version 4 in its 13th hexadecimal digit and the standard variant in the
/// two highest bits of its 17th.
pub open spec fn is_random_form(bits: u128) -> bool {
    bits & 0x0000_0000_0000_f000_c000_0000_0000_0000u128
        == 0x0000_0000_0000_4000_8000_0000_0000_0000u128
}

/// Draws a random identifier with `uuid::Uuid::new_v4` and hands out its
/// 128 bits. Which bits come is up to chance; all that holds of every
/// draw is that version and variant are set as for a random identifier.
#[verifier::external_body]
fn draw_bits() -> (bits: u128)
    ensures
        is_random_form(bits),
{
    uuid::Uuid::new_v4().as_u128()
}

/// Writes an identifier out with `uuid::Uuid::hyphenated`: 32 lower-case
/// hexadecimal digits, most significant first, with hyphens after the
/// 8th, 12th, 16th and 20th.
#[verifier::external_body]
fn write_hyphenated(bits: u128) -> (text: String)
    ensures
        text@ == hyphenated(bits),
{
    uuid::Uuid::from_u128(bits).hyphenated().to_string()
}

/// The identifier of a report.
#[derive(Clone, Copy, Debug, PartialEq, Eq, Structural)]
pub struct Uuid {
    bits: u128,
}

impl View for Uuid {
    type V = u128;

    closed spec fn view(&self) -> u128 {
        self.bits
    }
}

impl Default for Uuid {
    /// The identifier whose bits are all zero.
    fn default() -> (id: Uuid)
        ensures
            id@ == 0,
    {
        Uuid { bits: 0 }
    }
}

impl Uuid {
    /// A fresh random identifier.
    pub fn new() -> (id: Self)
        ensures
            is_random_form(id@),
    {
        Uuid { bits: draw_bits() }
    }

    /// The identifier as text, 36 characters long.
    pub fn to_string(&self) -> (text: String)
        ensures
            text@ == hyphenated(self@),
            text@.len() == 36,
    {
        write_hyphenated(self.bits)
    }
}

/// The notifier that reports of this library name.
pub fn notifier() -> (notifier: Notifier)
    ensures
        notifier.name matches Some(name) && name@ == NOTIFIER_NAME@,
        notifier.version matches Some(version) && version@ == VERSION@,
{
    Notifier::builder().name(NOTIFIER_NAME).version(VERSION).build()
}

/// Finishes what a caller has said about a report: names this library as
/// the notifier, states the platform, and gives the report its identifier.
/// Everything else stays as the caller built it.
pub fn finish_data(builder: DataBuilder, platform: &str, id: Uuid) -> (data: Data)
    ensures
        data.notifier matches Some(n) && (n.name matches Some(name) && name@ == NOTIFIER_NAME@)
            && (n.version matches Some(version) && version@ == VERSION@),
        data.platform matches Some(text) && text@ == platform@,
        data.uuid matches Some(text) && text@ == hyphenated(id@),
        data.body == builder.node().body,
        data.environment == builder.node().environment,
        data.level == builder.node().level,
        data.timestamp == builder.node().timestamp,
        data.code_version == builder.node().code_version,
        data.language == builder.node().language,
        data.framework == builder.node().framework,
        data.context == builder.node().context,
        data.client == builder.node().client,
        data.request == builder.node().request,
        data.server == builder.node().server,
        data.custom == builder.node().custom,
        data.person == builder.node().person,
        data.fingerprint == builder.node().fingerprint,
        data.title == builder.node().title,
{
    let text = id.to_string();
    builder.notifier(notifier()).platform(platform).uuid(text.as_str()).build()
}

/// The item that sends `data` under the configured access token, or
/// nothing if no token is configured.
pub fn item_for(configuration: &Configuration, data: Data) -> (item: Option<Item>)
    ensures
        item is None <==> configuration.access_token is None,
        item matches Some(i) ==> i.access_token@ == configuration.access_token->0@ && i.data == data,
{
    match &configuration.access_token {
        None => None,
        Some(token) => Some(Item::builder().access_token(token.as_str()).data(data).build()),
    }
}

/// The item that reports a message of the given level, with whatever
/// else the caller wants said along with it, under the configured access
/// token; or nothing if no token is configured.
pub fn log_item(
    configuration: &Configuration,
    level: Level,
    message: &str,
    extra: HashMap<String, Value>,
) -> (item: Option<Item>)
    ensures
        item is None <==> configuration.access_token is None,
        item matches Some(i) ==> {
            &&& i.access_token@ == configuration.access_token->0@
            &&& i.data.level == Some(level)
            &&& i.data.body matches Body::MessageBody { telemetry, message: said }
            &&& telemetry is None
            &&& said.body@ == message@
            &&& said.extra == extra
            &&& i.data.environment is None
            &&& i.data.timestamp is None
            &&& i.data.code_version is None
            &&& i.data.platform is None
            &&& i.data.language is None
            &&& i.data.framework is None
            &&& i.data.context is None
            &&& i.data.client is None
            &&& i.data.request is None
            &&& i.data.server is None
            &&& i.data.custom is None
            &&& i.data.person is None
            &&& i.data.fingerprint is None
            &&& i.data.title is None
            &&& i.data.uuid is None
            &&& i.data.notifier is None
        },
{
    let said = Message::builder().body(message).extra(extra).build();
    let body = Body::builder().message(said).build();
    let mut data = Data::default();
    data.level = Some(level);
    data.body = body;
    item_for(configuration, data)
}

} // verus!
