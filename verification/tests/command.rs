use egpms::command::{parse_cmd, plan, Command, CommandError, TransferStep, WireRequest};
use egpms::resolver::{Config, ResolveError, Slot};

fn table(entries: &[(u8, &str)]) -> Config {
    Config {
        sockets: entries
            .iter()
            .map(|(id, name)| Slot { socket_id: *id, name: String::from(*name) })
            .collect(),
    }
}

fn args(tokens: &[&str]) -> Vec<String> {
    tokens.iter().map(|t| String::from(*t)).collect()
}

#[test]
fn enable_two_writes_address_six() {
    // `enable 2`: one write with wValue 0x0300 + 0x06 and payload [0x06, 0x01]
    let cfg = table(&[]);
    let cmd = parse_cmd(&cfg, &args(&["enable", "2"])).unwrap();
    assert_eq!(cmd, Command::Enable(2));
    let steps = plan(&cmd);
    assert_eq!(steps.len(), 1);
    assert_eq!(
        steps[0],
        TransferStep::Write {
            request: WireRequest { request_type: 0x21, request: 0x09, value: 0x0306, index: 0 },
            data0: 0x06,
            data1: 0x01,
        }
    );
}

#[test]
fn status_without_argument_reads_all_four_in_order() {
    // `status`: four reads for sub-addresses 3, 6, 9, 12 in that order
    let cfg = table(&[]);
    let cmd = parse_cmd(&cfg, &args(&["status"])).unwrap();
    assert_eq!(cmd, Command::StatusAll);
    let steps = plan(&cmd);
    assert_eq!(steps.len(), 4);
    for (pos, (socket, value)) in [(1u8, 0x0303u16), (2, 0x0306), (3, 0x0309), (4, 0x030c)]
        .into_iter()
        .enumerate()
    {
        assert_eq!(
            steps[pos],
            TransferStep::Read {
                socket,
                request: WireRequest { request_type: 0xa1, request: 0x01, value, index: 0 },
            }
        );
    }
}

#[test]
fn disable_by_name_writes_address_nine() {
    // `disable fridge` with fridge bound to socket 3:
    // one write with wValue 0x0300 + 0x09 and payload [0x09, 0x00]
    let cfg = table(&[(3, "fridge")]);
    let cmd = parse_cmd(&cfg, &args(&["disable", "fridge"])).unwrap();
    assert_eq!(cmd, Command::Disable(3));
    let steps = plan(&cmd);
    assert_eq!(steps.len(), 1);
    assert_eq!(
        steps[0],
        TransferStep::Write {
            request: WireRequest { request_type: 0x21, request: 0x09, value: 0x0309, index: 0 },
            data0: 0x09,
            data1: 0x00,
        }
    );
}

#[test]
fn absent_config_still_resolves_numeric_tokens() {
    // no configuration file: empty name table, numeric resolution intact
    let cfg = Config { sockets: Vec::new() };
    assert_eq!(parse_cmd(&cfg, &args(&["enable", "1"])), Ok(Command::Enable(1)));
    assert_eq!(parse_cmd(&cfg, &args(&["status", "4"])), Ok(Command::StatusOne(4)));
    assert_eq!(
        parse_cmd(&cfg, &args(&["disable", "fridge"])),
        Err(CommandError::Resolve(ResolveError::UnknownSocket))
    );
}

#[test]
fn status_with_argument_reads_one() {
    let cfg = table(&[(4, "heater")]);
    let cmd = parse_cmd(&cfg, &args(&["status", "heater"])).unwrap();
    assert_eq!(cmd, Command::StatusOne(4));
    let steps = plan(&cmd);
    assert_eq!(steps.len(), 1);
    assert_eq!(
        steps[0],
        TransferStep::Read {
            socket: 4,
            request: WireRequest { request_type: 0xa1, request: 0x01, value: 0x030c, index: 0 },
        }
    );
}

#[test]
fn command_word_errors() {
    let cfg = table(&[]);
    assert_eq!(parse_cmd(&cfg, &args(&[])), Err(CommandError::MissingCommand));
    assert_eq!(parse_cmd(&cfg, &args(&["toggle", "2"])), Err(CommandError::UnknownCommand));
    // case-sensitive exact match
    assert_eq!(parse_cmd(&cfg, &args(&["Enable", "2"])), Err(CommandError::UnknownCommand));
}

#[test]
fn set_commands_require_a_token() {
    let cfg = table(&[]);
    assert_eq!(
        parse_cmd(&cfg, &args(&["enable"])),
        Err(CommandError::Resolve(ResolveError::MissingArgument))
    );
    assert_eq!(
        parse_cmd(&cfg, &args(&["disable"])),
        Err(CommandError::Resolve(ResolveError::MissingArgument))
    );
}

#[test]
fn resolution_errors_surface_through_parse_cmd() {
    let cfg = table(&[]);
    assert_eq!(
        parse_cmd(&cfg, &args(&["enable", "5"])),
        Err(CommandError::Resolve(ResolveError::SocketOutOfRange))
    );
    assert_eq!(
        parse_cmd(&cfg, &args(&["status", "0"])),
        Err(CommandError::Resolve(ResolveError::SocketOutOfRange))
    );
    assert_eq!(
        parse_cmd(&cfg, &args(&["enable", "999"])),
        Err(CommandError::Resolve(ResolveError::SocketOutOfRange))
    );
}
