//! Command vocabulary and the transfer plan it dispatches to.
//!
//! A run of the tool executes exactly one command: switch one socket on
//! or off, query one socket, or query all four. Dispatch turns the
//! command into a fixed plan of control transfers — one write for a set
//! operation, one read per queried socket, all four in ascending order
//! for a full status sweep. The surrounding program performs each step
//! against the device in plan order.

use vstd::prelude::*;
use crate::codec::{
    valid_socket, spec_address, state_byte, encode_set, from_id_to_device, SocketState,
};
use crate::resolver::{spec_resolve, spec_resolve_arg, Config, ResolveError, Slot, parse_socket_id};
use vstd::slice::slice_subrange;

verus! {

/// Request-type byte of a host-to-device set-state transfer.
pub const SET_REQUEST_TYPE: u8 = 0x21;

/// Request code of a set-state transfer.
pub const SET_REQUEST: u8 = 0x09;

/// Request-type byte of a device-to-host status read.
pub const GET_REQUEST_TYPE: u8 = 0xa1;

/// Request code of a status read.
pub const GET_REQUEST: u8 = 0x01;

/// Base of the wValue field; the device sub-address is added to it.
pub const VALUE_BASE: u16 = 0x0300;

/// One command per invocation, built from resolved input.
#[derive(Clone, Copy, Debug, PartialEq, Eq, Structural)]
pub enum Command {
    Enable(u8),
    Disable(u8),
    StatusOne(u8),
    StatusAll,
}

impl Command {
    /// Every socket index a command carries has been validated.
    pub open spec fn wf(self) -> bool {
        match self {
            Command::Enable(id) => valid_socket(id),
            Command::Disable(id) => valid_socket(id),
            Command::StatusOne(id) => valid_socket(id),
            Command::StatusAll => true,
        }
    }

    /// Runtime form of the well-formedness invariant.
    pub fn is_wf(&self) -> (r: bool)
        ensures
            r == self.wf(),
    {
        match self {
            Command::Enable(id) => 1 <= *id && *id <= 4,
            Command::Disable(id) => 1 <= *id && *id <= 4,
            Command::StatusOne(id) => 1 <= *id && *id <= 4,
            Command::StatusAll => true,
        }
    }
}

/// Why an argument list failed to parse into a command.
#[derive(Clone, Copy, Debug, PartialEq, Eq, Structural)]
pub enum CommandError {
    /// No command word was supplied.
    MissingCommand,
    /// The command word is not one of enable, disable, status.
    UnknownCommand,
    /// The command word is known but its socket token did not resolve.
    Resolve(ResolveError),
}

/// What a non-empty argument list parses to: the first token picks the
/// command, the rest supply its socket token. A set operation requires
/// a token; status without one queries all sockets.
pub open spec fn spec_parse_cmd(table: Seq<Slot>, args: Seq<String>) -> Result<
    Command,
    CommandError,
>
    recommends
        args.len() > 0,
{
    let word = args[0]@;
    let rest = args.skip(1);
    if word == "enable"@ {
        match spec_resolve_arg(table, rest) {
            Ok(id) => Ok(Command::Enable(id)),
            Err(e) => Err(CommandError::Resolve(e)),
        }
    } else if word == "disable"@ {
        match spec_resolve_arg(table, rest) {
            Ok(id) => Ok(Command::Disable(id)),
            Err(e) => Err(CommandError::Resolve(e)),
        }
    } else if word == "status"@ {
        if rest.len() == 0 {
            Ok(Command::StatusAll)
        } else {
            match spec_resolve(table, rest[0]@) {
                Ok(id) => Ok(Command::StatusOne(id)),
                Err(e) => Err(CommandError::Resolve(e)),
            }
        }
    } else {
        Err(CommandError::UnknownCommand)
    }
}

/// Parses the argument list (command word first, program name already
/// stripped) into a command, resolving any socket token against the
/// configured name table.
pub fn parse_cmd(config: &Config, args: &[String]) -> (r: Result<Command, CommandError>)
    ensures
        args@.len() == 0 ==> r == Err::<Command, CommandError>(CommandError::MissingCommand),
        args@.len() > 0 ==> r == spec_parse_cmd(config.sockets@, args@),
        r matches Ok(c) ==> c.wf(),
{
    if args.len() == 0 {
        return Err(CommandError::MissingCommand);
    }
    let rest: &[String] = slice_subrange(args, 1, args.len());
    proof {
        assert(rest@ =~= args@.skip(1));
    }
    let word: &String = &args[0];
    if *word == String::from_str("enable") {
        match parse_socket_id(config, rest) {
            Ok(id) => Ok(Command::Enable(id)),
            Err(e) => Err(CommandError::Resolve(e)),
        }
    } else if *word == String::from_str("disable") {
        match parse_socket_id(config, rest) {
            Ok(id) => Ok(Command::Disable(id)),
            Err(e) => Err(CommandError::Resolve(e)),
        }
    } else if *word == String::from_str("status") {
        if rest.len() == 0 {
            Ok(Command::StatusAll)
        } else {
            match parse_socket_id(config, rest) {
                Ok(id) => Ok(Command::StatusOne(id)),
                Err(e) => Err(CommandError::Resolve(e)),
            }
        }
    } else {
        Err(CommandError::UnknownCommand)
    }
}

/// The fixed fields of one USB control request.
#[derive(Clone, Copy, Debug, PartialEq, Eq, Structural)]
pub struct WireRequest {
    pub request_type: u8,
    pub request: u8,
    pub value: u16,
    pub index: u16,
}

/// One step of a command's plan: a set-state write with its 2-byte
/// payload, or a status read for one socket.
#[derive(Clone, Copy, Debug, PartialEq, Eq, Structural)]
pub enum TransferStep {
    Write { request: WireRequest, data0: u8, data1: u8 },
    Read { socket: u8, request: WireRequest },
}

/// Request fields of a set-state transfer for a socket.
pub open spec fn spec_set_request(id: u8) -> WireRequest {
    WireRequest {
        request_type: SET_REQUEST_TYPE,
        request: SET_REQUEST,
        value: (VALUE_BASE + spec_address(id)) as u16,
        index: 0,
    }
}

/// Request fields of a status read for a socket.
pub open spec fn spec_get_request(id: u8) -> WireRequest {
    WireRequest {
        request_type: GET_REQUEST_TYPE,
        request: GET_REQUEST,
        value: (VALUE_BASE + spec_address(id)) as u16,
        index: 0,
    }
}

/// The write step that sets one socket to the given state.
pub open spec fn spec_write_step(id: u8, state: SocketState) -> TransferStep {
    TransferStep::Write {
        request: spec_set_request(id),
        data0: spec_address(id) as u8,
        data1: state_byte(state),
    }
}

/// The read step that queries one socket.
pub open spec fn spec_read_step(id: u8) -> TransferStep {
    TransferStep::Read { socket: id, request: spec_get_request(id) }
}

/// The full transfer plan of a command: one write for a set operation,
/// one read for a single query, and reads for sockets 1, 2, 3, 4 in
/// that order for a full sweep.
pub open spec fn spec_plan(cmd: Command) -> Seq<TransferStep> {
    match cmd {
        Command::Enable(id) => seq![spec_write_step(id, SocketState::On)],
        Command::Disable(id) => seq![spec_write_step(id, SocketState::Off)],
        Command::StatusOne(id) => seq![spec_read_step(id)],
        Command::StatusAll => seq![
            spec_read_step(1),
            spec_read_step(2),
            spec_read_step(3),
            spec_read_step(4),
        ],
    }
}

/// Builds the set-state write step for a socket and desired state.
fn write_step(id: u8, state: SocketState) -> (s: TransferStep)
    requires
        valid_socket(id),
    ensures
        s == spec_write_step(id, state),
{
    let payload = encode_set(id, state);
    TransferStep::Write {
        request: WireRequest {
            request_type: SET_REQUEST_TYPE,
            request: SET_REQUEST,
            value: VALUE_BASE + (from_id_to_device(id) as u16),
            index: 0,
        },
        data0: payload[0],
        data1: payload[1],
    }
}

/// Builds the status-read step for a socket.
fn read_step(id: u8) -> (s: TransferStep)
    requires
        valid_socket(id),
    ensures
        s == spec_read_step(id),
{
    TransferStep::Read {
        socket: id,
        request: WireRequest {
            request_type: GET_REQUEST_TYPE,
            request: GET_REQUEST,
            value: VALUE_BASE + (from_id_to_device(id) as u16),
            index: 0,
        },
    }
}

/// Dispatches a command to its transfer plan, to be performed against
/// the device in order.
pub fn plan(cmd: &Command) -> (steps: Vec<TransferStep>)
    requires
        cmd.wf(),
    ensures
        steps@ == spec_plan(*cmd),
{
    let steps: Vec<TransferStep> = match cmd {
        Command::Enable(id) => vec![write_step(*id, SocketState::On)],
        Command::Disable(id) => vec![write_step(*id, SocketState::Off)],
        Command::StatusOne(id) => vec![read_step(*id)],
        Command::StatusAll => vec![read_step(1), read_step(2), read_step(3), read_step(4)],
    };
    proof {
        assert(steps@ =~= spec_plan(*cmd));
    }
    steps
}

} // verus!
