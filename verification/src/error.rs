//! The closed set of failure kinds and their two textual projections.

use vstd::prelude::*;
use vstd::string::StringExecFns;

verus! {

/// The textual remains of a foreign failure: the cause's rendered message and
/// the cause's own short description, both captured at the moment the failure
/// crosses into this taxonomy. Only these two strings are retained; the
/// foreign value itself is not.
#[derive(Debug)]
pub struct Cause {
    pub message: String,
    pub description: String,
}

/// Every distinguishable failure the daemon's certificate, access-control,
/// validation and messaging paths can report. The set is closed: rendering
/// matches on it exhaustively, so a new variant is a compile-time obligation
/// to extend both projections.
#[derive(Debug)]
pub enum Error {
    /// A certificate name was already registered.
    CertNameCollision,
    /// A failure reported by the CZMQ transport binding.
    Czmq(Cause),
    /// The caller may not use this endpoint.
    Forbidden,
    /// An argument failed validation.
    InvalidArg,
    /// The wrong number of arguments was supplied.
    InvalidArgsCount,
    /// A certificate could not be validated.
    InvalidCert,
    /// A message from the certificate feed could not be understood.
    InvalidCertFeed,
    /// A certificate's metadata could not be validated.
    InvalidCertMeta,
    /// A certificate path was not usable.
    InvalidCertPath,
    /// An endpoint specification was not usable.
    InvalidEndpoint,
    /// A ZAP request did not follow the protocol.
    InvalidZapRequest,
    /// A failure reported by file or stream I/O.
    Io(Cause),
    /// Logger initialisation failed.
    LogInit(Cause),
    /// The daemon's configuration could not be opened.
    MissingConf,
    /// A socket poll ran out of time.
    PollerTimeout,
    /// A failure reported by JSON (de)serialisation.
    SerdeJson(Cause),
    /// A ZAP request carried an unsupported protocol version.
    ZapVersion,
    /// A failure reported by the daemon framework.
    ZDaemon(Cause),
    /// Z85 encoding of key material failed; only the rendered text of the
    /// encode failure is retained, a deliberately lossy capture.
    ZmqEncode(String),
}

/// The result of every fallible operation in the daemon's certificate, ZAP,
/// transport and configuration paths: a success value or one failure from
/// the taxonomy.
pub type AuthResult<T> = core::result::Result<T, Error>;

/// The user-facing message of each variant: a fixed sentence for a leaf, and
/// for a wrapped cause a fixed category label followed by the cause's own
/// rendered message, so causal detail is never lost.
pub open spec fn spec_message(e: Error) -> Seq<char> {
    match e {
        Error::CertNameCollision => "Certificate name already exists"@,
        Error::Czmq(c) => "CZMQ error: "@ + c.message@,
        Error::Forbidden => "Access to this endpoint is forbidden"@,
        Error::InvalidArg => "Invalid argument provided"@,
        Error::InvalidArgsCount => "Invalid number of args provided"@,
        Error::InvalidCert => "Invalid certificate"@,
        Error::InvalidCertFeed => "Invalid message from certificate feed"@,
        Error::InvalidCertMeta => "Invalid certificate metadata"@,
        Error::InvalidCertPath => "Invalid certificate path"@,
        Error::InvalidEndpoint => "Invalid endpoint"@,
        Error::InvalidZapRequest => "Invalid ZAP request"@,
        Error::Io(c) => "IO error: "@ + c.message@,
        Error::LogInit(c) => "Log init error: "@ + c.message@,
        Error::MissingConf => "Cannot open Auth config"@,
        Error::PollerTimeout => "Timeout while polling sockets"@,
        Error::SerdeJson(c) => "Serde JSON error: "@ + c.message@,
        Error::ZapVersion => "ZAP version is invalid"@,
        Error::ZDaemon(c) => "ZDaemon error: "@ + c.message@,
        Error::ZmqEncode(s) => "Could not encode Z85 string: "@ + s@,
    }
}

/// The short categorical description of each variant: a fixed noun phrase for
/// a leaf, the wrapped cause's own description for a wrapped cause, and a
/// fixed phrase for `ZmqEncode`, whose structured cause is not retained.
pub open spec fn spec_description(e: Error) -> Seq<char> {
    match e {
        Error::CertNameCollision => "Certificate name already exists"@,
        Error::Czmq(c) => c.description@,
        Error::Forbidden => "Access to this endpoint is forbidden"@,
        Error::InvalidArg => "Invalid argument provided"@,
        Error::InvalidArgsCount => "Invalid number of args provided"@,
        Error::InvalidCert => "Invalid certificate"@,
        Error::InvalidCertFeed => "Invalid message from certificate feed"@,
        Error::InvalidCertMeta => "Invalid certificate metadata"@,
        Error::InvalidCertPath => "Invalid certificate path"@,
        Error::InvalidEndpoint => "Invalid endpoint"@,
        Error::InvalidZapRequest => "Invalid ZAP request"@,
        Error::Io(c) => c.description@,
        Error::LogInit(c) => c.description@,
        Error::MissingConf => "Cannot open config"@,
        Error::PollerTimeout => "Timeout while polling sockets"@,
        Error::SerdeJson(c) => c.description@,
        Error::ZapVersion => "ZAP version is invalid"@,
        Error::ZDaemon(c) => c.description@,
        Error::ZmqEncode(_) => "Could not encode Z85 string"@,
    }
}

/// Whether a wrapped cause carries a non-empty description of its own.
/// Variants without a wrapped cause carry fixed text and satisfy this
/// trivially; the lifts fill the description from the foreign error's own
/// description function, which is outside this crate's control.
pub open spec fn cause_described(e: Error) -> bool {
    match e {
        Error::Czmq(c) => c.description@.len() > 0,
        Error::Io(c) => c.description@.len() > 0,
        Error::LogInit(c) => c.description@.len() > 0,
        Error::SerdeJson(c) => c.description@.len() > 0,
        Error::ZDaemon(c) => c.description@.len() > 0,
        _ => true,
    }
}

/// Law: both projections are total and non-empty for every variant, as long
/// as a wrapped cause's own description is non-empty (a cause's rendered
/// message may be empty: the fixed category label keeps the message
/// non-empty regardless).
pub proof fn lemma_rendering_nonempty(e: Error)
    requires
        cause_described(e),
    ensures
        spec_message(e).len() > 0,
        spec_description(e).len() > 0,
{
    reveal_strlit("Certificate name already exists");
    reveal_strlit("CZMQ error: ");
    reveal_strlit("Access to this endpoint is forbidden");
    reveal_strlit("Invalid argument provided");
    reveal_strlit("Invalid number of args provided");
    reveal_strlit("Invalid certificate");
    reveal_strlit("Invalid message from certificate feed");
    reveal_strlit("Invalid certificate metadata");
    reveal_strlit("Invalid certificate path");
    reveal_strlit("Invalid endpoint");
    reveal_strlit("Invalid ZAP request");
    reveal_strlit("IO error: ");
    reveal_strlit("Log init error: ");
    reveal_strlit("Cannot open Auth config");
    reveal_strlit("Cannot open config");
    reveal_strlit("Timeout while polling sockets");
    reveal_strlit("Serde JSON error: ");
    reveal_strlit("ZAP version is invalid");
    reveal_strlit("ZDaemon error: ");
    reveal_strlit("Could not encode Z85 string: ");
    reveal_strlit("Could not encode Z85 string");
}

/// The given sequence is a suffix of any concatenation that puts it last.
proof fn lemma_concat_suffix(prefix: Seq<char>, tail: Seq<char>)
    ensures
        tail.is_suffix_of(prefix + tail),
{
    let whole = prefix + tail;
    assert(tail =~= whole.subrange(prefix.len() as int, whole.len() as int));
}

/// Law: lifting keeps the causal text. The message of every wrapped-cause
/// variant ends with the cause's own rendered message, whatever that text
/// is, and the lossy `ZmqEncode` capture likewise ends with the rendered
/// text of the encode failure.
pub proof fn lemma_message_keeps_cause(c: Cause, s: String)
    ensures
        c.message@.is_suffix_of(spec_message(Error::Czmq(c))),
        c.message@.is_suffix_of(spec_message(Error::Io(c))),
        c.message@.is_suffix_of(spec_message(Error::LogInit(c))),
        c.message@.is_suffix_of(spec_message(Error::SerdeJson(c))),
        c.message@.is_suffix_of(spec_message(Error::ZDaemon(c))),
        s@.is_suffix_of(spec_message(Error::ZmqEncode(s))),
{
    lemma_concat_suffix("CZMQ error: "@, c.message@);
    lemma_concat_suffix("IO error: "@, c.message@);
    lemma_concat_suffix("Log init error: "@, c.message@);
    lemma_concat_suffix("Serde JSON error: "@, c.message@);
    lemma_concat_suffix("ZDaemon error: "@, c.message@);
    lemma_concat_suffix("Could not encode Z85 string: "@, s@);
}

/// Law: the description of `ZmqEncode` is one fixed phrase, whatever the
/// retained payload text is, because no structured cause survives the lift.
pub proof fn lemma_zmq_encode_description_fixed(s: String)
    ensures
        spec_description(Error::ZmqEncode(s)) == "Could not encode Z85 string"@,
{
}

impl Error {
    /// The user-facing message, a total function of the value alone: the
    /// result is exactly [`spec_message`], so rendering the same value twice
    /// yields identical text.
    pub fn message(&self) -> (r: String)
        ensures
            r@ == spec_message(*self),
    {
        match self {
            Error::CertNameCollision => "Certificate name already exists".to_owned(),
            Error::Czmq(c) => "CZMQ error: ".to_owned().concat(c.message.as_str()),
            Error::Forbidden => "Access to this endpoint is forbidden".to_owned(),
            Error::InvalidArg => "Invalid argument provided".to_owned(),
            Error::InvalidArgsCount => "Invalid number of args provided".to_owned(),
            Error::InvalidCert => "Invalid certificate".to_owned(),
            Error::InvalidCertFeed => "Invalid message from certificate feed".to_owned(),
            Error::InvalidCertMeta => "Invalid certificate metadata".to_owned(),
            Error::InvalidCertPath => "Invalid certificate path".to_owned(),
            Error::InvalidEndpoint => "Invalid endpoint".to_owned(),
            Error::InvalidZapRequest => "Invalid ZAP request".to_owned(),
            Error::Io(c) => "IO error: ".to_owned().concat(c.message.as_str()),
            Error::LogInit(c) => "Log init error: ".to_owned().concat(c.message.as_str()),
            Error::MissingConf => "Cannot open Auth config".to_owned(),
            Error::PollerTimeout => "Timeout while polling sockets".to_owned(),
            Error::SerdeJson(c) => "Serde JSON error: ".to_owned().concat(c.message.as_str()),
            Error::ZapVersion => "ZAP version is invalid".to_owned(),
            Error::ZDaemon(c) => "ZDaemon error: ".to_owned().concat(c.message.as_str()),
            Error::ZmqEncode(s) => "Could not encode Z85 string: ".to_owned().concat(s.as_str()),
        }
    }

    /// The short categorical description, a total function of the value
    /// alone: the result is exactly [`spec_description`].
    pub fn description(&self) -> (r: String)
        ensures
            r@ == spec_description(*self),
    {
        match self {
            Error::CertNameCollision => "Certificate name already exists".to_owned(),
            Error::Czmq(c) => c.description.clone(),
            Error::Forbidden => "Access to this endpoint is forbidden".to_owned(),
            Error::InvalidArg => "Invalid argument provided".to_owned(),
            Error::InvalidArgsCount => "Invalid number of args provided".to_owned(),
            Error::InvalidCert => "Invalid certificate".to_owned(),
            Error::InvalidCertFeed => "Invalid message from certificate feed".to_owned(),
            Error::InvalidCertMeta => "Invalid certificate metadata".to_owned(),
            Error::InvalidCertPath => "Invalid certificate path".to_owned(),
            Error::InvalidEndpoint => "Invalid endpoint".to_owned(),
            Error::InvalidZapRequest => "Invalid ZAP request".to_owned(),
            Error::Io(c) => c.description.clone(),
            Error::LogInit(c) => c.description.clone(),
            Error::MissingConf => "Cannot open config".to_owned(),
            Error::PollerTimeout => "Timeout while polling sockets".to_owned(),
            Error::SerdeJson(c) => c.description.clone(),
            Error::ZapVersion => "ZAP version is invalid".to_owned(),
            Error::ZDaemon(c) => c.description.clone(),
            Error::ZmqEncode(_) => "Could not encode Z85 string".to_owned(),
        }
    }
}

} // verus!
