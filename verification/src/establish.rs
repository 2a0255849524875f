//! The connection establisher.
//!
//! Establishing one RFCOMM connection is a fixed sequence: parse the target
//! address, allocate a socket, issue one blocking connect, read the socket's
//! descriptor. The socket work is done by an unverified driver; this module
//! decides the sequence. The driver feeds each outcome back as an
//! [`EstablishEvent`] and performs the [`EstablishAction`] that
//! [`establish_step`] hands out, until the action is [`EstablishAction::Done`]
//! and the state carries the connection record or the error.
//!
//! No retries are decided here, and no two runs share state: every run of
//! the machine is one independent connection attempt.

use crate::address::Address;
use crate::address::address_octets;
use crate::address::valid_address_chars;
use vstd::prelude::*;

verus! {

/// Why an establishment failed.
pub enum ConnectError {
    /// The input did not parse as a Bluetooth hardware address.
    AddressParse,
    /// No RFCOMM socket could be allocated; carries the system's message.
    SocketAllocation { message: String },
    /// The connect to the target failed; carries the system's message.
    SocketConnect { message: String },
}

/// An established connection: the target address exactly as the caller wrote
/// it, and the open socket's OS-level descriptor. The driver that performed
/// the socket work owns the socket itself and hands it to the consumer
/// beside this record.
pub struct BudsConnection {
    /// The address string the establishment was started with.
    pub addr: String,
    /// The connected socket's file descriptor.
    pub fd: i32,
}

/// Where one establishment run stands.
pub enum EstablishState {
    /// Nothing has happened yet.
    Idle,
    /// The address parsed; a socket must be allocated.
    Allocating { addr: Address, input: String },
    /// A socket exists; it must be connected to `addr`.
    Connecting { addr: Address, input: String },
    /// The socket is connected; its descriptor must be read.
    QueryingDescriptor { input: String },
    /// The connection stands.
    Established { conn: BudsConnection },
    /// The establishment failed.
    Failed { error: ConnectError },
}

/// What the driver reports to the machine.
pub enum EstablishEvent {
    /// The caller asked to connect to `input`.
    Start { input: String },
    /// The socket allocation succeeded.
    Allocated,
    /// The socket allocation failed with the system's `message`.
    AllocationFailed { message: String },
    /// The blocking connect succeeded.
    Connected,
    /// The blocking connect failed with the system's `message`.
    ConnectFailed { message: String },
    /// The connected socket's descriptor is `fd`.
    DescriptorIs { fd: i32 },
}

/// What the driver must do next.
pub enum EstablishAction {
    /// Allocate a new RFCOMM socket.
    AllocateSocket,
    /// Issue one blocking connect of the allocated socket to `addr`.
    ConnectSocket { addr: Address },
    /// Read the connected socket's descriptor.
    QueryDescriptor,
    /// Close and drop the allocated socket: the run failed after allocation.
    CloseSocket,
    /// Nothing is left to do: the state carries the record or the error.
    Done,
    /// The event does not belong to the state; nothing changes.
    Ignore,
}

/// The transition relation of the establisher: `r` is the state and action
/// owed to event `e` in state `s`. Each case pins `r` down completely.
pub open spec fn step_rel(
    s: EstablishState,
    e: EstablishEvent,
    r: (EstablishState, EstablishAction),
) -> bool {
    match (s, e) {
        (EstablishState::Idle, EstablishEvent::Start { input }) => if valid_address_chars(
            input@,
        ) {
            &&& r.0 matches EstablishState::Allocating { addr, input: kept } && addr@
                == address_octets(input@) && kept == input
            &&& r.1 == EstablishAction::AllocateSocket
        } else {
            &&& r.0 == (EstablishState::Failed { error: ConnectError::AddressParse })
            &&& r.1 == EstablishAction::Done
        },
        (EstablishState::Allocating { addr, input }, EstablishEvent::Allocated) => {
            &&& r.0 == (EstablishState::Connecting { addr, input })
            &&& r.1 == (EstablishAction::ConnectSocket { addr })
        },
        (
            EstablishState::Allocating { .. },
            EstablishEvent::AllocationFailed { message },
        ) => {
            &&& r.0 == (EstablishState::Failed {
                error: ConnectError::SocketAllocation { message },
            })
            &&& r.1 == EstablishAction::Done
        },
        (EstablishState::Connecting { addr, input }, EstablishEvent::Connected) => {
            &&& r.0 == (EstablishState::QueryingDescriptor { input })
            &&& r.1 == EstablishAction::QueryDescriptor
        },
        (EstablishState::Connecting { .. }, EstablishEvent::ConnectFailed { message }) => {
            &&& r.0 == (EstablishState::Failed { error: ConnectError::SocketConnect { message } })
            &&& r.1 == EstablishAction::CloseSocket
        },
        (
            EstablishState::QueryingDescriptor { input },
            EstablishEvent::DescriptorIs { fd },
        ) => {
            &&& r.0 == (EstablishState::Established {
                conn: BudsConnection { addr: input, fd },
            })
            &&& r.1 == EstablishAction::Done
        },
        _ => {
            &&& r.0 == s
            &&& r.1 == EstablishAction::Ignore
        },
    }
}

/// One step of the establisher: decide, from the state and the driver's
/// report, the next state and the action the driver must perform.
pub fn establish_step(s: EstablishState, e: EstablishEvent) -> (r: (
    EstablishState,
    EstablishAction,
))
    ensures
        step_rel(s, e, r),
{
    match (s, e) {
        (EstablishState::Idle, EstablishEvent::Start { input }) => {
            match Address::parse(input.as_str()) {
                Some(addr) => (
                    EstablishState::Allocating { addr, input },
                    EstablishAction::AllocateSocket,
                ),
                None => (
                    EstablishState::Failed { error: ConnectError::AddressParse },
                    EstablishAction::Done,
                ),
            }
        },
        (EstablishState::Allocating { addr, input }, EstablishEvent::Allocated) => (
            EstablishState::Connecting { addr, input },
            EstablishAction::ConnectSocket { addr },
        ),
        (
            EstablishState::Allocating { addr: _, input: _ },
            EstablishEvent::AllocationFailed { message },
        ) => (
            EstablishState::Failed { error: ConnectError::SocketAllocation { message } },
            EstablishAction::Done,
        ),
        (EstablishState::Connecting { addr: _, input }, EstablishEvent::Connected) => (
            EstablishState::QueryingDescriptor { input },
            EstablishAction::QueryDescriptor,
        ),
        (
            EstablishState::Connecting { addr: _, input: _ },
            EstablishEvent::ConnectFailed { message },
        ) => (
            EstablishState::Failed { error: ConnectError::SocketConnect { message } },
            EstablishAction::CloseSocket,
        ),
        (
            EstablishState::QueryingDescriptor { input },
            EstablishEvent::DescriptorIs { fd },
        ) => (
            EstablishState::Established { conn: BudsConnection { addr: input, fd } },
            EstablishAction::Done,
        ),
        (other, _) => (other, EstablishAction::Ignore),
    }
}

/// Well-formedness of a state: the parsed address a state carries denotes
/// exactly the octets of the input string it carries.
pub open spec fn state_inv(s: EstablishState) -> bool {
    match s {
        EstablishState::Allocating { addr, input } => {
            &&& valid_address_chars(input@)
            &&& addr@ == address_octets(input@)
        },
        EstablishState::Connecting { addr, input } => {
            &&& valid_address_chars(input@)
            &&& addr@ == address_octets(input@)
        },
        _ => true,
    }
}

/// Every step preserves well-formedness: in particular, the address a
/// [`EstablishAction::ConnectSocket`] action carries is always the parse of
/// the run's own input string.
pub proof fn lemma_step_preserves_inv(
    s: EstablishState,
    e: EstablishEvent,
    r: (EstablishState, EstablishAction),
)
    requires
        state_inv(s),
        step_rel(s, e, r),
    ensures
        state_inv(r.0),
{
}

/// A malformed address fails the run at once with the parse error; no
/// socket allocation is ever requested for it.
pub proof fn lemma_malformed_address_never_allocates(
    input: String,
    r: (EstablishState, EstablishAction),
)
    requires
        !valid_address_chars(input@),
        step_rel(EstablishState::Idle, EstablishEvent::Start { input }, r),
    ensures
        r.0 == (EstablishState::Failed { error: ConnectError::AddressParse }),
        r.1 == EstablishAction::Done,
        r.1 != EstablishAction::AllocateSocket,
{
}

/// Socket allocation is requested only for a start whose address parsed.
pub proof fn lemma_allocate_only_for_valid_address(
    s: EstablishState,
    e: EstablishEvent,
    r: (EstablishState, EstablishAction),
)
    requires
        step_rel(s, e, r),
        r.1 == EstablishAction::AllocateSocket,
    ensures
        s is Idle,
        e matches EstablishEvent::Start { input } && valid_address_chars(input@),
{
}

/// A failed connect yields the connect error carrying the system's message
/// unchanged, and the allocated socket is closed, never left open.
pub proof fn lemma_connect_failure_closes_socket(
    addr: Address,
    input: String,
    message: String,
    r: (EstablishState, EstablishAction),
)
    requires
        step_rel(
            EstablishState::Connecting { addr, input },
            EstablishEvent::ConnectFailed { message },
            r,
        ),
    ensures
        r.0 == (EstablishState::Failed { error: ConnectError::SocketConnect { message } }),
        r.1 == EstablishAction::CloseSocket,
{
}

/// A run that reaches the descriptor ends established, and the record
/// carries exactly the run's own input string and the reported descriptor:
/// distinct runs yield records made only of their own inputs and outcomes.
pub proof fn lemma_established_record(
    input: String,
    fd: i32,
    r: (EstablishState, EstablishAction),
)
    requires
        step_rel(
            EstablishState::QueryingDescriptor { input },
            EstablishEvent::DescriptorIs { fd },
            r,
        ),
    ensures
        r.0 == (EstablishState::Established { conn: BudsConnection { addr: input, fd } }),
        r.1 == EstablishAction::Done,
{
}

} // verus!
