use bus_projection::command_handler::{
    BluetoothDevice, BluetoothTransport, ClientContext, CommandHandler, CommandKind,
    CommandOutcome, OutputLine, UiAction, build_commands, enforce_arg_len, wrap_help_text,
};

fn context() -> ClientContext {
    ClientContext {
        default_adapter: 0,
        adapter_ready: false,
        enabled: false,
        adapter_address: None,
        found_devices: Vec::new(),
    }
}

fn ready_context() -> ClientContext {
    ClientContext {
        default_adapter: 0,
        adapter_ready: true,
        enabled: true,
        adapter_address: None,
        found_devices: Vec::new(),
    }
}

#[test]
fn test_wrap_help_text() {
    let text = "hello";
    let text_len = text.chars().count();
    // ensure no overflow
    assert_eq!(format!("|{}|", text), wrap_help_text(text, 4, 0));
    assert_eq!(format!("|{}|", text), wrap_help_text(text, 5, 0));
    assert_eq!(format!("|{}{}|", text, " "), wrap_help_text(text, 6, 0));
    assert_eq!(format!("|{}{}|", text, " ".repeat(2)), wrap_help_text(text, 7, 0));
    assert_eq!(
        format!("|{}{}|", text, " ".repeat(100 - text_len)),
        wrap_help_text(text, 100, 0)
    );
    assert_eq!(format!("|{}{}|", " ", text), wrap_help_text(text, 4, 1));
    assert_eq!(format!("|{}{}|", " ".repeat(2), text), wrap_help_text(text, 5, 2));
    assert_eq!(format!("|{}{}{}|", " ".repeat(3), text, " "), wrap_help_text(text, 6, 3));
    assert_eq!(
        format!("|{}{}{}|", " ".repeat(4), text, " ".repeat(7 - text_len)),
        wrap_help_text(text, 7, 4)
    );
    assert_eq!(format!("|{}{}|", " ".repeat(9), text), wrap_help_text(text, 4, 9));
    assert_eq!(format!("|{}{}|", " ".repeat(10), text), wrap_help_text(text, 3, 10));
    assert_eq!(format!("|{}{}|", " ".repeat(11), text), wrap_help_text(text, 2, 11));
    assert_eq!(format!("|{}{}|", " ".repeat(12), text), wrap_help_text(text, 1, 12));
    assert_eq!("||", wrap_help_text("", 0, 0));
    assert_eq!("| |", wrap_help_text("", 1, 0));
    assert_eq!("|  |", wrap_help_text("", 1, 1));
    assert_eq!("| |", wrap_help_text("", 0, 1));
}

#[test]
fn test_enforce_arg_len() {
    // With min arg set and min arg supplied
    let args: &Vec<String> = &vec![String::from("arg")];
    let mut i: usize = 0;
    if enforce_arg_len(args, 1, "help text").is_none() {
        i = 1;
    }
    assert_eq!(1, i);

    // With no min arg set and with arg supplied
    i = 0;
    if enforce_arg_len(args, 0, "help text").is_none() {
        i = 1;
    }
    assert_eq!(1, i);

    // With min arg set and no min arg supplied
    let args: &Vec<String> = &vec![];
    i = 0;
    if enforce_arg_len(args, 1, "help text").is_none() {
        i = 1;
    }
    assert_eq!(0, i);

    // With no min arg set and no arg supplied
    i = 0;
    if enforce_arg_len(args, 0, "help text").is_none() {
        i = 1;
    }
    assert_eq!(1, i);
}

#[test]
fn usage_line_carries_message() {
    let args: Vec<String> = vec![];
    match enforce_arg_len(&args, 1, "bond <address>") {
        Some(OutputLine::Usage(u)) => assert_eq!(u, "bond <address>"),
        other => panic!("expected a usage line, got {:?}", other),
    }
}

#[test]
fn command_table_holds_every_command() {
    let table = build_commands();
    let names: Vec<&str> = table.iter().map(|e| e.0.as_str()).collect();
    assert_eq!(
        names,
        vec!["adapter", "bond", "discovery", "get-address", "help", "list-devices", "quit"]
    );
    assert_eq!(table[6].1.kind, CommandKind::Noop);
}

#[test]
fn get_command_list_matches_table() {
    let handler = CommandHandler::new(context());
    let list = handler.get_command_list();
    assert_eq!(list.len(), 7);
    assert_eq!(list[0], "adapter");
    assert_eq!(list[6], "quit");
}

#[test]
fn empty_command_line_is_ignored() {
    let mut handler = CommandHandler::new(context());
    let out = handler.process_cmd_line(&String::new(), &vec![]);
    assert!(out.lines.is_empty());
    assert!(out.actions.is_empty());
}

#[test]
fn unknown_command_reports_and_shows_menu() {
    let mut handler = CommandHandler::new(context());
    let out = handler.process_cmd_line(&String::from("frobnicate"), &vec![]);
    assert!(out.actions.is_empty());
    match &out.lines[0] {
        OutputLine::InvalidCommand(c) => assert_eq!(c, "frobnicate"),
        other => panic!("expected an invalid-command line, got {:?}", other),
    }
    // The menu follows: header, one entry per command, footer.
    assert_eq!(out.lines.len(), 1 + 7 + 2);
}

#[test]
fn adapter_enable_issues_start() {
    let mut handler = CommandHandler::new(context());
    let out = handler.process_cmd_line(&String::from("adapter"), &vec![String::from("enable")]);
    assert!(out.lines.is_empty());
    assert_eq!(out.actions, vec![UiAction::StartAdapter(0)]);
}

#[test]
fn adapter_show_reports_state_and_address() {
    let mut ctx = ready_context();
    ctx.adapter_address = Some(String::from("00:11:22:33:44:55"));
    let mut handler = CommandHandler::new(ctx);
    let out = handler.process_cmd_line(&String::from("adapter"), &vec![String::from("show")]);
    assert!(out.actions.is_empty());
    assert_eq!(out.lines[0], OutputLine::AdapterState(true));
    assert_eq!(
        out.lines[1],
        OutputLine::AdapterAddress(String::from("00:11:22:33:44:55"))
    );
}

#[test]
fn adapter_without_argument_shows_usage() {
    let mut handler = CommandHandler::new(context());
    let out = handler.process_cmd_line(&String::from("adapter"), &vec![]);
    assert_eq!(
        out.lines,
        vec![OutputLine::Usage(String::from("adapter <enable|disable|show>"))]
    );
}

#[test]
fn discovery_needs_ready_adapter() {
    let mut handler = CommandHandler::new(context());
    let out = handler.process_cmd_line(&String::from("discovery"), &vec![String::from("start")]);
    assert!(out.actions.is_empty());
    assert_eq!(out.lines, vec![OutputLine::AdapterNotReady(0)]);
}

#[test]
fn discovery_start_and_stop_issue_requests() {
    let mut handler = CommandHandler::new(ready_context());
    let out = handler.process_cmd_line(&String::from("discovery"), &vec![String::from("start")]);
    assert_eq!(out.actions, vec![UiAction::StartDiscovery]);
    let out = handler.process_cmd_line(&String::from("discovery"), &vec![String::from("stop")]);
    assert_eq!(out.actions, vec![UiAction::CancelDiscovery]);
    let out = handler.process_cmd_line(&String::from("discovery"), &vec![String::from("bogus")]);
    assert_eq!(
        out.lines,
        vec![OutputLine::InvalidArgument(String::from("bogus"))]
    );
}

#[test]
fn bond_issues_create_bond_with_auto_transport() {
    let mut handler = CommandHandler::new(ready_context());
    let out = handler.process_cmd_line(
        &String::from("bond"),
        &vec![String::from("00:11:22:33:44:55")],
    );
    assert!(out.lines.is_empty());
    assert_eq!(
        out.actions,
        vec![UiAction::CreateBond(
            BluetoothDevice {
                address: String::from("00:11:22:33:44:55"),
                name: String::from("Classic Device"),
            },
            BluetoothTransport::Auto,
        )]
    );
}

#[test]
fn get_address_issues_request_and_reply_is_cached() {
    let mut handler = CommandHandler::new(ready_context());
    let out = handler.process_cmd_line(&String::from("get-address"), &vec![]);
    assert_eq!(out.actions, vec![UiAction::GetAddress]);
    let line = handler.on_address_reply(String::from("aa:bb:cc:dd:ee:ff"));
    assert_eq!(
        line,
        OutputLine::AdapterAddress(String::from("aa:bb:cc:dd:ee:ff"))
    );
    assert_eq!(
        handler.context.adapter_address,
        Some(String::from("aa:bb:cc:dd:ee:ff"))
    );
}

#[test]
fn list_devices_shows_each_found_device() {
    let mut ctx = ready_context();
    ctx.found_devices.push((
        String::from("00:11:22:33:44:55"),
        BluetoothDevice {
            address: String::from("00:11:22:33:44:55"),
            name: String::from("Headset"),
        },
    ));
    let mut handler = CommandHandler::new(ctx);
    let out = handler.process_cmd_line(&String::from("list-devices"), &vec![]);
    assert_eq!(out.lines.len(), 2);
    assert_eq!(
        out.lines[1],
        OutputLine::Device(String::from("00:11:22:33:44:55"), String::from("Headset"))
    );
}

#[test]
fn help_describes_one_command() {
    let mut handler = CommandHandler::new(context());
    let out = handler.process_cmd_line(&String::from("help"), &vec![String::from("quit")]);
    assert_eq!(out.lines.len(), 1);
    match &out.lines[0] {
        OutputLine::Text(block) => {
            assert!(block.contains("quit"));
            assert!(block.contains("Quit out of the interactive shell."));
        },
        other => panic!("expected a text block, got {:?}", other),
    }
}

#[test]
fn help_menu_lines_are_wrapped_to_width() {
    let mut handler = CommandHandler::new(context());
    let out = handler.process_cmd_line(&String::from("help"), &vec![]);
    assert_eq!(out.lines.len(), 7 + 2);
    match &out.lines[1] {
        OutputLine::Text(entry) => {
            let first = entry.lines().next().unwrap();
            assert_eq!(first, wrap_help_text("adapter", 72, 4));
            assert_eq!(first.chars().count(), 74);
        },
        other => panic!("expected a text entry, got {:?}", other),
    }
}

#[test]
fn quit_produces_no_output() {
    let mut handler = CommandHandler::new(context());
    let out: CommandOutcome = handler.process_cmd_line(&String::from("quit"), &vec![]);
    assert!(out.lines.is_empty());
    assert!(out.actions.is_empty());
}
