//! The optional outbound message bus: error taxonomy, message shapes, the
//! transport contract, and scheme detection for bus connection strings.
//!
//! Bus failures are non-fatal to trigger processing: they are values to be
//! logged, never reasons to abort a handler's result.

use vstd::prelude::*;
use crate::block::BlockPtr;
use crate::block::EntityModification;
use crate::text::concat_strs;

verus! {

/// What the capability table may report when publishing to the bus.
#[derive(Debug)]
pub enum BusError {
    /// The transport could not be brought up.
    InitializationError,
    /// Sending a mapping event failed; carries the cause.
    SendMappingError(String),
    /// Sending an entity-modification batch failed; carries the cause.
    SendModificationError(String),
    /// Sending a plaintext payload failed; carries the cause.
    SendPlainTextError(String),
    /// The message did not have the expected shape.
    BadMessage,
    /// No routing definition is configured for this message kind.
    NoRoutingDefinition,
}

/// The Debug rendering of a string: what `{:?}` writes — the text between
/// double quotes, each character escaped as Rust's Debug escapes it.
pub uninterp spec fn debug_quoted(s: Seq<char>) -> Seq<char>;

/// Relies on std's `format!` with `{:?}` on a string slice: the result is
/// the input quoted and Debug-escaped, and depends on its characters alone.
#[verifier::external_body]
fn debug_quote(s: &str) -> (r: String)
    ensures
        r@ == debug_quoted(s@),
        r@.len() >= 2,
        r@[0] == '"' && r@[r@.len() as int - 1] == '"',
{
    format!("{:?}", s)
}

impl BusError {
    /// The human-readable description of this error. The failed mapping
    /// send renders its cause in Debug form — quoted — where its two
    /// sibling sends render theirs plainly.
    pub open spec fn message_spec(self) -> Seq<char> {
        match self {
            BusError::SendMappingError(e) => "BusError: sending mapping failed => "@
                + debug_quoted(e@),
            BusError::SendModificationError(e) => "BusError: sending modifications failed => "@
                + e@,
            BusError::SendPlainTextError(e) => "BusError: sending plaintext failed => "@ + e@,
            BusError::InitializationError => "BusError: initialization failed"@,
            BusError::BadMessage => "BusError: bad format message"@,
            BusError::NoRoutingDefinition => "BusError: no routing definition for this"@,
        }
    }

    /// Renders the error for logs.
    pub fn message(&self) -> (r: String)
        ensures
            r@ == self.message_spec(),
    {
        match self {
            BusError::SendMappingError(e) => concat_strs(
                "BusError: sending mapping failed => ",
                debug_quote(e.as_str()).as_str(),
            ),
            BusError::SendModificationError(e) => concat_strs(
                "BusError: sending modifications failed => ",
                e.as_str(),
            ),
            BusError::SendPlainTextError(e) => concat_strs(
                "BusError: sending plaintext failed => ",
                e.as_str(),
            ),
            BusError::InitializationError => "BusError: initialization failed".to_owned(),
            BusError::BadMessage => "BusError: bad format message".to_owned(),
            BusError::NoRoutingDefinition => "BusError: no routing definition for this".to_owned(),
        }
    }
}

/// An outbound notification the capability table may emit, always paired
/// with the deployment's manifest `(index, name)` list.
#[derive(Debug)]
pub enum BusMessage {
    /// A trigger occurrence.
    TriggerOccurrence { manifest_idx_and_names: Vec<(u32, String)> },
    /// A batch of entity modifications observed at a block.
    EntityModifications {
        block_ptr: BlockPtr,
        modifications: Vec<EntityModification>,
        manifest_idx_and_names: Vec<(u32, String)>,
    },
}

/// The transport a message bus must provide. Implemented outside this crate
/// per broker protocol; both sends are fire-and-forget from the host's
/// perspective and their failures are values of [`BusError`].
pub trait Bus {
    /// Connects to the broker behind the given connection string.
    fn new(connection_uri: String) -> Self where Self: core::marker::Sized;

    /// Publishes a trigger occurrence.
    fn send_trigger_data(&self) -> Result<(), BusError>;

    /// Publishes a batch of entity modifications.
    fn send_modification_data(
        &self,
        block_ptr: BlockPtr,
        mods: Vec<EntityModification>,
        manifest_idx_and_names: Vec<(u32, String)>,
    ) -> Result<(), BusError>;
}

/// A bus scheme this node knows how to start.
#[derive(Clone, Copy, PartialEq, Eq, Structural, Debug)]
pub enum BusScheme {
    RabbitMQ,
}

/// The leading run of word characters of the string, if the string begins
/// with one: what the pattern `^\w+` matches.
pub uninterp spec fn word_prefix_find(s: Seq<char>) -> Option<Seq<char>>;

/// Relies on regex::Regex::new and regex::Regex::find: the pattern `^\w+`
/// matches at most once, at the very start of the haystack, and then covers
/// the longest nonempty run of word characters standing there.
#[verifier::external_body]
fn find_word_prefix(s: &str) -> (r: Option<String>)
    ensures
        (r is Some <==> word_prefix_find(s@) is Some),
        (r matches Some(p) ==> word_prefix_find(s@) == Some(p@)),
        (r matches Some(p) ==> 0 < p@.len() <= s@.len() && p@ == s@.subrange(0, p@.len() as int)),
        (s@.len() == 0 ==> r is None),
{
    match regex::Regex::new(r"^\w+") {
        Ok(re) => re.find(s).map(|m| m.as_str().to_string()),
        Err(_) => None,
    }
}

/// Decides the scheme from the leading word of a connection string: only
/// the prefix `amqp` selects a scheme, and it selects RabbitMQ.
pub fn scheme_for_prefix(prefix: &Option<String>) -> (r: Option<BusScheme>)
    ensures
        (r is Some <==> (prefix matches Some(p) && p@ == "amqp"@)),
        (r matches Some(s) ==> s is RabbitMQ),
{
    match prefix {
        Some(p) => {
            let amqp: String = "amqp".to_owned();
            if p.eq(&amqp) {
                Some(BusScheme::RabbitMQ)
            } else {
                None
            }
        },
        None => None,
    }
}

/// Chooses which bus transport, if any, a node should start.
pub struct BusInitializer;

impl BusInitializer {
    /// Starts a bus exactly when the connection string names a scheme this
    /// node knows, connecting the transport `B` to that string; no bus at
    /// work otherwise. The absent bus is a valid, silently degraded mode.
    pub fn new<B: Bus>(uri: Option<String>) -> (r: Option<B>)
        ensures
            (r is Some <==> (uri matches Some(u) && word_prefix_find(u@) == Some("amqp"@))),
    {
        match BusInitializer::get_bus_scheme(&uri) {
            Some(BusScheme::RabbitMQ) => match uri {
                Some(u) => Some(B::new(u)),
                None => vstd::pervasive::unreached(),
            },
            None => None,
        }
    }

    /// The scheme named by the connection string: `Some(RabbitMQ)` exactly
    /// when the string's leading word run is `amqp` (as in `amqp://...`),
    /// `None` for an absent string or any other scheme.
    pub fn get_bus_scheme(uri: &Option<String>) -> (r: Option<BusScheme>)
        ensures
            (r is Some <==> (uri matches Some(u) && word_prefix_find(u@) == Some("amqp"@))),
            (r matches Some(s) ==> s is RabbitMQ),
    {
        match uri {
            Some(u) => {
                let prefix = find_word_prefix(u.as_str());
                scheme_for_prefix(&prefix)
            },
            None => None,
        }
    }
}

} // verus!
