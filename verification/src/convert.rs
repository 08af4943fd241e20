//! Inbound conversion edges: total lifts from foreign failures into [`Error`].
//!
//! Each linkable foreign type gets a lift that renders the foreign value at
//! the boundary and a verified constructor that wraps the rendered text; the
//! transport and framework bindings, which link system libraries and cannot
//! be dependencies of this crate, keep only the constructor, and their
//! failures arrive as text rendered on the far side of that boundary.

use vstd::prelude::*;
use crate::error::Cause;
use crate::error::Error;
use crate::error::cause_described;

verus! {

/// A lift never fails: whatever text the foreign rendering produced, the
/// result wraps it as an I/O failure.
pub fn lift_io(err: std::io::Error) -> (r: Error)
    ensures
        r is Io,
{
    let message = render_io_message(&err);
    let description = render_io_description(&err);
    lift_io_rendered(message, description)
}

/// Wraps the rendered text of an I/O failure, keeping both strings exactly.
pub fn lift_io_rendered(message: String, description: String) -> (r: Error)
    ensures
        r matches Error::Io(c) && c.message@ == message@ && c.description@ == description@,
{
    Error::Io(Cause { message, description })
}

/// A lift never fails: logger-initialisation failures carry one fixed
/// sentence as their rendered message, and that sentence is what the
/// resulting variant's cause holds; the cause's description is the foreign
/// error's own, which is never empty.
pub fn lift_log_init(err: log::SetLoggerError) -> (r: Error)
    ensures
        r matches Error::LogInit(c) && c.message@
            == "attempted to set a logger after the logging system was already initialized"@,
        cause_described(r),
{
    let message = render_log_init_message(&err);
    let description = render_log_init_description(&err);
    lift_log_init_rendered(message, description)
}

/// Wraps the rendered text of a logger-initialisation failure, keeping both
/// strings exactly.
pub fn lift_log_init_rendered(message: String, description: String) -> (r: Error)
    ensures
        r matches Error::LogInit(c) && c.message@ == message@ && c.description@ == description@,
{
    Error::LogInit(Cause { message, description })
}

/// A lift never fails: whatever text the foreign rendering produced, the
/// result wraps it as a JSON (de)serialisation failure; the cause's
/// description is the foreign error's own, which is never empty.
pub fn lift_serde_json(err: serde_json::Error) -> (r: Error)
    ensures
        r is SerdeJson,
        cause_described(r),
{
    let message = render_serde_json_message(&err);
    let description = render_serde_json_description(&err);
    lift_serde_json_rendered(message, description)
}

/// Wraps the rendered text of a JSON (de)serialisation failure, keeping both
/// strings exactly.
pub fn lift_serde_json_rendered(message: String, description: String) -> (r: Error)
    ensures
        r matches Error::SerdeJson(c) && c.message@ == message@ && c.description@ == description@,
{
    Error::SerdeJson(Cause { message, description })
}

/// Wraps the rendered text of a CZMQ transport failure, keeping both strings
/// exactly. The binding links the system CZMQ library, so its failures cross
/// into this crate as text it already rendered.
pub fn lift_czmq_rendered(message: String, description: String) -> (r: Error)
    ensures
        r matches Error::Czmq(c) && c.message@ == message@ && c.description@ == description@,
{
    Error::Czmq(Cause { message, description })
}

/// Wraps the rendered text of a daemon-framework failure, keeping both
/// strings exactly. The framework's failures likewise cross into this crate
/// as text rendered on its side of the boundary.
pub fn lift_zdaemon_rendered(message: String, description: String) -> (r: Error)
    ensures
        r matches Error::ZDaemon(c) && c.message@ == message@ && c.description@ == description@,
{
    Error::ZDaemon(Cause { message, description })
}

/// Wraps the rendered text of a Z85 encode failure, keeping it exactly: the
/// encode-error value is rendered at the boundary and deliberately not
/// retained.
pub fn lift_zmq_encode_rendered(rendered: String) -> (r: Error)
    ensures
        r matches Error::ZmqEncode(s) && s@ == rendered@,
{
    Error::ZmqEncode(rendered)
}

/// Relies on the `std::fmt::Display` impl of `std::io::Error` for the
/// cause's rendered message.
#[verifier::external_body]
fn render_io_message(err: &std::io::Error) -> (r: String) {
    format!("{}", err)
}

/// Relies on the `std::error::Error::description` method of
/// `std::io::Error` for the cause's own short description. Nothing is
/// promised of the text: a custom payload may describe itself with any
/// string, the empty one included.
#[allow(deprecated)]
#[verifier::external_body]
fn render_io_description(err: &std::io::Error) -> (r: String) {
    std::error::Error::description(err).to_string()
}

/// Relies on the `std::fmt::Display` impl of `log::SetLoggerError`, which
/// writes one fixed sentence.
#[verifier::external_body]
fn render_log_init_message(err: &log::SetLoggerError) -> (r: String)
    ensures
        r@ == "attempted to set a logger after the logging system was already initialized"@,
{
    format!("{}", err)
}

/// Relies on the `std::error::Error::description` method of
/// `log::SetLoggerError`: log's error-trait impl overrides nothing, so the
/// call returns std's default description, a fixed non-empty deprecation
/// notice.
#[allow(deprecated)]
#[verifier::external_body]
fn render_log_init_description(err: &log::SetLoggerError) -> (r: String)
    ensures
        r@.len() > 0,
{
    std::error::Error::description(err).to_string()
}

/// Relies on the `std::fmt::Display` impl of `serde_json::Error` for the
/// cause's rendered message.
#[verifier::external_body]
fn render_serde_json_message(err: &serde_json::Error) -> (r: String) {
    format!("{}", err)
}

/// Relies on the `std::error::Error::description` method of
/// `serde_json::Error`: serde_json's error-trait impl overrides only
/// `source`, so the call returns std's default description, a fixed
/// non-empty deprecation notice.
#[allow(deprecated)]
#[verifier::external_body]
fn render_serde_json_description(err: &serde_json::Error) -> (r: String)
    ensures
        r@.len() > 0,
{
    std::error::Error::description(err).to_string()
}

} // verus!
