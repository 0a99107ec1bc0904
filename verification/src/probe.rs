//! The start-up probe on Linux: one method call over the message bus that
//! asks the accessibility status service whether assistive technology is
//! enabled on this desktop.
//!
//! The caller sends the call that [`status_query`] describes and hands the
//! reply to [`init`], which accepts exactly one shape of answer.

use vstd::prelude::*;

verus! {

/// The message buses of a desktop.
#[derive(Clone, Copy, Debug, PartialEq, Eq, Structural)]
pub enum Bus {
    Session,
    System,
}

/// A method call, ready to be put on the wire.
#[derive(Debug)]
pub struct MethodCall {
    pub bus: Bus,
    pub destination: &'static str,
    pub path: &'static str,
    pub interface: &'static str,
    pub method: &'static str,
    pub arguments: Vec<&'static str>,
    /// How long to wait for the reply, in milliseconds.
    pub timeout_ms: i32,
}

/// The kinds of message that travel over the bus.
#[derive(Clone, Copy, Debug, PartialEq, Eq, Structural)]
pub enum MessageType {
    MethodCall,
    MethodReturn,
    Error,
    Signal,
}

/// One argument of a message, as far as the probe tells arguments apart.
#[derive(Debug)]
pub enum MessageItem {
    Bool(bool),
    /// A variant, which wraps one other item.
    Variant(Box<MessageItem>),
    /// An item of any other type.
    Other,
}

/// What came back for a method call.
#[derive(Debug)]
pub struct Reply {
    pub msg_type: MessageType,
    pub items: Vec<MessageItem>,
}

/// Why a reply to the probe was turned down.
#[derive(Clone, Copy, Debug, PartialEq, Eq, Structural)]
pub enum ProbeError {
    /// The reply is not a method return.
    NotMethodReturn,
    /// The reply does not hold exactly one item.
    WrongItemCount,
    /// The one item is not a variant that wraps a boolean.
    UnexpectedType,
}

/// The boolean that a variant wraps directly, if `item` is such a variant.
pub open spec fn wrapped_bool(item: MessageItem) -> Option<bool> {
    match item {
        MessageItem::Variant(inner) => match *inner {
            MessageItem::Bool(enabled) => Some(enabled),
            _ => None,
        },
        _ => None,
    }
}

/// What the probe makes of a reply. The checks come in a fixed order: the
/// kind of message, then the number of items, then the type of the item.
pub open spec fn probe_result(msg_type: MessageType, items: Seq<MessageItem>) -> Result<
    bool,
    ProbeError,
> {
    if msg_type != MessageType::MethodReturn {
        Err(ProbeError::NotMethodReturn)
    } else if items.len() != 1 {
        Err(ProbeError::WrongItemCount)
    } else {
        match wrapped_bool(items[0]) {
            Some(enabled) => Ok(enabled),
            None => Err(ProbeError::UnexpectedType),
        }
    }
}

/// The call that the probe sends: `Get("org.a11y.Status", "IsEnabled")` on
/// the properties interface of the accessibility bus object, over the session
/// bus, with one second to answer.
pub fn status_query() -> (call: MethodCall)
    ensures
        call.bus == Bus::Session,
        call.destination@ == "org.a11y.Bus"@,
        call.path@ == "/org/a11y/bus"@,
        call.interface@ == "org.freedesktop.DBus.Properties"@,
        call.method@ == "Get"@,
        call.arguments@.len() == 2,
        call.arguments@[0]@ == "org.a11y.Status"@,
        call.arguments@[1]@ == "IsEnabled"@,
        call.timeout_ms == 1000,
{
    let mut arguments: Vec<&'static str> = Vec::new();
    arguments.push("org.a11y.Status");
    arguments.push("IsEnabled");
    MethodCall {
        bus: Bus::Session,
        destination: "org.a11y.Bus",
        path: "/org/a11y/bus",
        interface: "org.freedesktop.DBus.Properties",
        method: "Get",
        arguments,
        timeout_ms: 1000,
    }
}

/// Reads the answer to the start-up probe.
///
/// Returns whether assistive technology is enabled if the reply is a method
/// return with exactly one item, a variant that wraps a boolean. Any other
/// reply is an error, and the caller must not go on as if accessibility were
/// merely switched off.
pub fn init(reply: &Reply) -> (enabled: Result<bool, ProbeError>)
    ensures
        enabled == probe_result(reply.msg_type, reply.items@),
{
    match reply.msg_type {
        MessageType::MethodReturn => {},
        _ => {
            return Err(ProbeError::NotMethodReturn);
        },
    }
    if reply.items.len() != 1 {
        return Err(ProbeError::WrongItemCount);
    }
    match &reply.items[0] {
        MessageItem::Variant(inner) => match &**inner {
            MessageItem::Bool(enabled) => Ok(*enabled),
            _ => Err(ProbeError::UnexpectedType),
        },
        _ => Err(ProbeError::UnexpectedType),
    }
}

} // verus!
