//! Handles string commands entered on the client's command line.
//!
//! The commands live in a declarative table mapping each command name to
//! its description and its handler kind. A handler computes what to show
//! and which bus requests to issue; it returns both as plain values, and
//! the surrounding shell prints the lines and performs the requests.

use vstd::prelude::*;

use crate::marshal::str_eq;

verus! {

/// Width of the help menu, in characters, between the border bars.
pub const MAX_MENU_CHAR_WIDTH: usize = 72;

/// `piece` repeated `n` times, as a character sequence.
pub open spec fn repeat_seq(piece: Seq<char>, n: int) -> Seq<char>
    decreases n,
{
    if n <= 0 {
        Seq::empty()
    } else {
        repeat_seq(piece, n - 1) + piece
    }
}

/// Builds the text `piece` repeated `n` times.
pub fn repeat_str(piece: &str, n: usize) -> (r: String)
    ensures
        r@ == repeat_seq(piece@, n as int),
{
    let mut s = String::new();
    let mut i: usize = 0;
    proof {
        assert(s@ =~= repeat_seq(piece@, 0));
    }
    while i < n
        invariant
            0 <= i <= n,
            s@ == repeat_seq(piece@, i as int),
        decreases n - i,
    {
        s.append(piece);
        i = i + 1;
    }
    s
}

/// The help text `text`, indented by `indent` spaces and padded with
/// trailing spaces to the width `max` between two border bars. The
/// padding never goes negative: a text wider than `max` gets no padding,
/// and the indent eats into the padding only when it fits.
pub open spec fn spec_wrap_help_text(text: Seq<char>, max: int, indent: int) -> Seq<char> {
    let count = text.len() as int;
    let real_max = if max > count {
        max
    } else {
        count
    };
    let avail = real_max - count;
    let real_indent = if avail > indent {
        indent
    } else {
        0
    };
    let remaining = avail - real_indent;
    "|"@ + repeat_seq(" "@, indent) + text + repeat_seq(" "@, remaining) + "|"@
}

/// Indents and pads one help line between border bars.
pub fn wrap_help_text(text: &str, max: usize, indent: usize) -> (r: String)
    ensures
        r@ == spec_wrap_help_text(text@, max as int, indent as int),
{
    let count = text.unicode_len();
    let real_max = if max > count {
        max
    } else {
        count
    };
    let avail = real_max - count;
    let real_indent = if avail > indent {
        indent
    } else {
        0
    };
    let remaining = avail - real_indent;
    let mut s = String::new();
    s.append("|");
    let ind = repeat_str(" ", indent);
    s.append(ind.as_str());
    s.append(text);
    let pad = repeat_str(" ", remaining);
    s.append(pad.as_str());
    s.append("|");
    proof {
        assert(s@ =~= spec_wrap_help_text(text@, max as int, indent as int));
    }
    s
}

/// How the transport of a bond is chosen.
#[derive(Clone, Copy, Debug, PartialEq, Eq, Structural)]
pub enum BluetoothTransport {
    Auto,
    Bredr,
    Le,
}

/// The transport a native code names, if any.
pub open spec fn spec_transport_from_i32(item: i32) -> Option<BluetoothTransport> {
    if item == 0 {
        Some(BluetoothTransport::Auto)
    } else if item == 1 {
        Some(BluetoothTransport::Bredr)
    } else if item == 2 {
        Some(BluetoothTransport::Le)
    } else {
        None
    }
}

impl BluetoothTransport {
    /// Decodes a native transport code; codes outside the documented
    /// range name no transport.
    pub fn from_i32(item: i32) -> (r: Option<BluetoothTransport>)
        ensures
            r == spec_transport_from_i32(item),
    {
        match item {
            0 => Some(BluetoothTransport::Auto),
            1 => Some(BluetoothTransport::Bredr),
            2 => Some(BluetoothTransport::Le),
            _ => None,
        }
    }
}

/// A remote device as the client shows and bonds it.
#[derive(Debug, PartialEq)]
pub struct BluetoothDevice {
    pub address: String,
    pub name: String,
}

/// What the client knows of the running stack: the state the command
/// handlers read and the address replies update.
pub struct ClientContext {
    /// Index of the default adapter.
    pub default_adapter: i32,
    /// True when the default adapter is enabled and ready.
    pub adapter_ready: bool,
    /// True when the default adapter reported itself enabled.
    pub enabled: bool,
    /// The local adapter address, once a reply cached it.
    pub adapter_address: Option<String>,
    /// Devices found in the most recent discovery session, as address
    /// and device pairs in discovery order.
    pub found_devices: Vec<(String, BluetoothDevice)>,
}

/// One line of command output, as plain values; the shell formats and
/// prints it.
#[derive(Debug, PartialEq)]
pub enum OutputLine {
    /// Preformatted text, printed as is.
    Text(String),
    /// The named command does not exist.
    InvalidCommand(String),
    /// The named argument is not accepted here.
    InvalidArgument(String),
    /// How the command is used.
    Usage(String),
    /// The default adapter with this index is not enabled.
    AdapterNotReady(i32),
    /// Whether the adapter is enabled.
    AdapterState(bool),
    /// The cached adapter address.
    AdapterAddress(String),
    /// One found device: address and name.
    Device(String, String),
}

/// One request a command asks the shell to issue over the bus.
#[derive(Debug, PartialEq)]
pub enum UiAction {
    /// Start the adapter with this index.
    StartAdapter(i32),
    /// Stop the adapter with this index.
    StopAdapter(i32),
    /// Start device discovery.
    StartDiscovery,
    /// Cancel device discovery.
    CancelDiscovery,
    /// Ask the adapter for its address.
    GetAddress,
    /// Create a bond with the device over the transport.
    CreateBond(BluetoothDevice, BluetoothTransport),
}

/// What handling one command line produced: lines to show, in order, and
/// requests to issue, in order.
#[derive(Debug)]
pub struct CommandOutcome {
    pub lines: Vec<OutputLine>,
    pub actions: Vec<UiAction>,
}

/// The handler a command dispatches to.
#[derive(Clone, Copy, Debug, PartialEq, Eq, Structural)]
pub enum CommandKind {
    Adapter,
    Bond,
    Discovery,
    GetAddress,
    Help,
    ListDevices,
    /// Used so we can add options with no direct handler, such as quit.
    Noop,
}

/// One entry of the command table: what the command does, and which
/// handler runs it.
pub struct CommandOption {
    pub description: String,
    pub kind: CommandKind,
}

/// The entry the command table maps `name` to: the first entry so named,
/// or `None` when no entry is.
pub open spec fn spec_cmd_option(t: Seq<(String, CommandOption)>, name: Seq<char>) -> Option<
    CommandOption,
>
    decreases t.len(),
{
    if t.len() == 0 {
        None
    } else if t[0].0@ == name {
        Some(t[0].1)
    } else {
        spec_cmd_option(t.drop_first(), name)
    }
}

/// The handler the command table maps `name` to.
pub open spec fn spec_cmd_lookup(t: Seq<(String, CommandOption)>, name: Seq<char>) -> Option<
    CommandKind,
> {
    match spec_cmd_option(t, name) {
        Some(o) => Some(o.kind),
        None => None,
    }
}

/// Looks a command name up in the command table.
pub fn cmd_lookup<'a>(t: &'a Vec<(String, CommandOption)>, name: &str) -> (r: Option<
    &'a CommandOption,
>)
    ensures
        match r {
            Some(o) => spec_cmd_option(t@, name@) == Some(*o),
            None => spec_cmd_option(t@, name@) is None,
        },
{
    proof {
        assert(t@.skip(0) =~= t@);
    }
    let mut i: usize = 0;
    while i < t.len()
        invariant
            0 <= i <= t@.len(),
            spec_cmd_option(t@.skip(i as int), name@) == spec_cmd_option(t@, name@),
        decreases t@.len() - i,
    {
        proof {
            assert(t@.skip(i as int)[0] == t@[i as int]);
        }
        if str_eq(t[i].0.as_str(), name) {
            return Some(&t[i].1);
        }
        proof {
            assert(t@.skip(i as int).drop_first() =~= t@.skip(i as int + 1));
        }
        i = i + 1;
    }
    proof {
        assert(t@.skip(t@.len() as int) =~= Seq::<(String, CommandOption)>::empty());
    }
    None
}

/// True when `t` is exactly the command table the client starts with:
/// every supported command in order, each with its description and
/// handler.
pub open spec fn spec_command_table(t: Seq<(String, CommandOption)>) -> bool {
    &&& t.len() == 7
    &&& t[0].0@ == "adapter"@ && t[0].1.kind == CommandKind::Adapter && t[0].1.description@
        == "Enable/Disable/Show default bluetooth adapter. (e.g. adapter enable)"@
    &&& t[1].0@ == "bond"@ && t[1].1.kind == CommandKind::Bond && t[1].1.description@
        == "Creates a bond with a device."@
    &&& t[2].0@ == "discovery"@ && t[2].1.kind == CommandKind::Discovery && t[2].1.description@
        == "Start and stop device discovery. (e.g. discovery start)"@
    &&& t[3].0@ == "get-address"@ && t[3].1.kind == CommandKind::GetAddress && t[3].1.description@
        == "Gets the local device address."@
    &&& t[4].0@ == "help"@ && t[4].1.kind == CommandKind::Help && t[4].1.description@
        == "Shows this menu."@
    &&& t[5].0@ == "list-devices"@ && t[5].1.kind == CommandKind::ListDevices
        && t[5].1.description@ == "List known remote devices from most recent discovery session."@
    &&& t[6].0@ == "quit"@ && t[6].1.kind == CommandKind::Noop && t[6].1.description@
        == "Quit out of the interactive shell."@
}

/// Populates the command table; called once by the constructor.
pub fn build_commands() -> (t: Vec<(String, CommandOption)>)
    ensures
        spec_command_table(t@),
{
    let mut t: Vec<(String, CommandOption)> = Vec::new();
    t.push(
        (
            String::from_str("adapter"),
            CommandOption {
                description: String::from_str(
                    "Enable/Disable/Show default bluetooth adapter. (e.g. adapter enable)",
                ),
                kind: CommandKind::Adapter,
            },
        ),
    );
    t.push(
        (
            String::from_str("bond"),
            CommandOption {
                description: String::from_str("Creates a bond with a device."),
                kind: CommandKind::Bond,
            },
        ),
    );
    t.push(
        (
            String::from_str("discovery"),
            CommandOption {
                description: String::from_str(
                    "Start and stop device discovery. (e.g. discovery start)",
                ),
                kind: CommandKind::Discovery,
            },
        ),
    );
    t.push(
        (
            String::from_str("get-address"),
            CommandOption {
                description: String::from_str("Gets the local device address."),
                kind: CommandKind::GetAddress,
            },
        ),
    );
    t.push(
        (
            String::from_str("help"),
            CommandOption {
                description: String::from_str("Shows this menu."),
                kind: CommandKind::Help,
            },
        ),
    );
    t.push(
        (
            String::from_str("list-devices"),
            CommandOption {
                description: String::from_str(
                    "List known remote devices from most recent discovery session.",
                ),
                kind: CommandKind::ListDevices,
            },
        ),
    );
    t.push(
        (
            String::from_str("quit"),
            CommandOption {
                description: String::from_str("Quit out of the interactive shell."),
                kind: CommandKind::Noop,
            },
        ),
    );
    t
}

/// Handles string commands entered from the command line.
pub struct CommandHandler {
    pub context: ClientContext,
    pub command_options: Vec<(String, CommandOption)>,
}

/// Placeholder handler for options with no direct function, such as help
/// and quit; does nothing.
pub fn _noop(handler: &mut CommandHandler, args: &Vec<String>)
    ensures
        *final(handler) == *old(handler),
{
    let _ = args;
}

/// Returns the usage line to show when fewer than `min_len` arguments
/// were supplied; the caller runs its action only when nothing is
/// returned.
pub fn enforce_arg_len(args: &Vec<String>, min_len: usize, msg: &str) -> (r: Option<OutputLine>)
    ensures
        match r {
            Some(l) => args@.len() < min_len && (l matches OutputLine::Usage(u) && u@ == msg@),
            None => args@.len() >= min_len,
        },
{
    if args.len() < min_len {
        Some(OutputLine::Usage(msg.to_owned()))
    } else {
        None
    }
}

/// The border bar of equals signs, with one space shaved off each side.
pub open spec fn spec_equal_bar() -> Seq<char> {
    seq![' '] + repeat_seq("="@, MAX_MENU_CHAR_WIDTH as int) + seq![' ']
}

/// The border bar of minus signs between two corners.
pub open spec fn spec_minus_bar() -> Seq<char> {
    seq!['+'] + repeat_seq("-"@, MAX_MENU_CHAR_WIDTH as int) + seq!['+']
}

/// An empty menu row between the side bars.
pub open spec fn spec_empty_bar() -> Seq<char> {
    seq!['|'] + repeat_seq(" "@, MAX_MENU_CHAR_WIDTH as int) + seq!['|']
}

/// The text shown for `help <command>`: the command and its description,
/// each on its own indented line.
pub open spec fn spec_help_block(cmd: Seq<char>, desc: Seq<char>) -> Seq<char> {
    seq!['\n'] + repeat_seq(" "@, 4) + cmd + seq!['\n'] + repeat_seq(" "@, 8) + desc + seq!['\n']
}

/// The help menu's header: top bar, title row, divider and one empty
/// row.
pub open spec fn spec_menu_header() -> Seq<char> {
    seq!['\n'] + spec_equal_bar() + seq!['\n'] + spec_wrap_help_text(
        "Help Menu"@,
        MAX_MENU_CHAR_WIDTH as int,
        2,
    ) + seq!['\n'] + spec_minus_bar() + seq!['\n'] + spec_empty_bar()
}

/// One menu entry: the command row, its description row and an empty
/// row.
pub open spec fn spec_menu_entry(key: Seq<char>, desc: Seq<char>) -> Seq<char> {
    spec_wrap_help_text(key, MAX_MENU_CHAR_WIDTH as int, 4) + seq!['\n'] + spec_wrap_help_text(
        desc,
        MAX_MENU_CHAR_WIDTH as int,
        8,
    ) + seq!['\n'] + spec_empty_bar()
}

/// The help menu's footer: one empty row and the bottom bar.
pub open spec fn spec_menu_footer() -> Seq<char> {
    spec_empty_bar() + seq!['\n'] + spec_equal_bar()
}

/// True when `ls` is the help menu for the command table `t`: header,
/// one entry per command in table order, footer.
pub open spec fn spec_menu_lines(t: Seq<(String, CommandOption)>, ls: Seq<OutputLine>) -> bool {
    &&& ls.len() == t.len() + 2
    &&& (ls[0] matches OutputLine::Text(h) && h@ == spec_menu_header())
    &&& forall|i: int|
        0 <= i < t.len() ==> (#[trigger] ls[1 + i] matches OutputLine::Text(b) && b@
            == spec_menu_entry(t[i].0@, t[i].1.description@))
    &&& (ls[ls.len() - 1] matches OutputLine::Text(f) && f@ == spec_menu_footer())
}

/// True when `ls` is what the help command shows for `args`: with no
/// argument the full menu; with an argument naming a command, that
/// command's description block; with an unknown argument, an
/// invalid-command line followed by the full menu.
pub open spec fn spec_help_lines(
    t: Seq<(String, CommandOption)>,
    args: Seq<String>,
    ls: Seq<OutputLine>,
) -> bool {
    if args.len() > 0 {
        match spec_cmd_option(t, args[0]@) {
            Some(o) => ls.len() == 1 && (ls[0] matches OutputLine::Text(b) && b@
                == spec_help_block(args[0]@, o.description@)),
            None => ls.len() >= 1 && (ls[0] matches OutputLine::InvalidCommand(c) && c@
                == args[0]@) && spec_menu_lines(t, ls.drop_first()),
        }
    } else {
        spec_menu_lines(t, ls)
    }
}

/// True when `out` is what the adapter command produces: a usage line
/// without an argument, a start or stop request, the adapter's state and
/// cached address, or an invalid-argument line.
pub open spec fn spec_adapter_outcome(
    ctx: ClientContext,
    args: Seq<String>,
    out: CommandOutcome,
) -> bool {
    if args.len() < 1 {
        &&& out.actions@.len() == 0
        &&& out.lines@.len() == 1
        &&& (out.lines@[0] matches OutputLine::Usage(u) && u@ == "adapter <enable|disable|show>"@)
    } else if args[0]@ == "enable"@ {
        out.lines@.len() == 0 && out.actions@ == seq![UiAction::StartAdapter(ctx.default_adapter)]
    } else if args[0]@ == "disable"@ {
        out.lines@.len() == 0 && out.actions@ == seq![UiAction::StopAdapter(ctx.default_adapter)]
    } else if args[0]@ == "show"@ {
        &&& out.actions@.len() == 0
        &&& out.lines@.len() == 2
        &&& out.lines@[0] == OutputLine::AdapterState(ctx.enabled)
        &&& (out.lines@[1] matches OutputLine::AdapterAddress(a) && a@ == (
        match ctx.adapter_address {
            Some(x) => x@,
            None => Seq::<char>::empty(),
        }))
    } else {
        &&& out.actions@.len() == 0
        &&& out.lines@.len() == 1
        &&& (out.lines@[0] matches OutputLine::InvalidArgument(s) && s@ == args[0]@)
    }
}

/// True when `out` is what the discovery command produces: a not-ready
/// line, a usage line, a start or cancel request, or an invalid-argument
/// line.
pub open spec fn spec_discovery_outcome(
    ctx: ClientContext,
    args: Seq<String>,
    out: CommandOutcome,
) -> bool {
    if !ctx.adapter_ready {
        out.actions@.len() == 0 && out.lines@ =~= seq![
            OutputLine::AdapterNotReady(ctx.default_adapter),
        ]
    } else if args.len() < 1 {
        &&& out.actions@.len() == 0
        &&& out.lines@.len() == 1
        &&& (out.lines@[0] matches OutputLine::Usage(u) && u@ == "discovery <start|stop>"@)
    } else if args[0]@ == "start"@ {
        out.lines@.len() == 0 && out.actions@ == seq![UiAction::StartDiscovery]
    } else if args[0]@ == "stop"@ {
        out.lines@.len() == 0 && out.actions@ == seq![UiAction::CancelDiscovery]
    } else {
        &&& out.actions@.len() == 0
        &&& out.lines@.len() == 1
        &&& (out.lines@[0] matches OutputLine::InvalidArgument(s) && s@ == args[0]@)
    }
}

/// True when `out` is what the bond command produces: a not-ready line,
/// a usage line, or one bond request for the named address under the
/// automatic transport.
pub open spec fn spec_bond_outcome(
    ctx: ClientContext,
    args: Seq<String>,
    out: CommandOutcome,
) -> bool {
    if !ctx.adapter_ready {
        out.actions@.len() == 0 && out.lines@ =~= seq![
            OutputLine::AdapterNotReady(ctx.default_adapter),
        ]
    } else if args.len() < 1 {
        &&& out.actions@.len() == 0
        &&& out.lines@.len() == 1
        &&& (out.lines@[0] matches OutputLine::Usage(u) && u@ == "bond <address>"@)
    } else {
        &&& out.lines@.len() == 0
        &&& out.actions@.len() == 1
        &&& (out.actions@[0] matches UiAction::CreateBond(d, tr) && d.address@ == args[0]@
            && d.name@ == "Classic Device"@ && tr == BluetoothTransport::Auto)
    }
}

/// True when `out` is what the get-address command produces: a not-ready
/// line, or one address request.
pub open spec fn spec_get_address_outcome(ctx: ClientContext, out: CommandOutcome) -> bool {
    if !ctx.adapter_ready {
        out.actions@.len() == 0 && out.lines@ =~= seq![
            OutputLine::AdapterNotReady(ctx.default_adapter),
        ]
    } else {
        out.lines@.len() == 0 && out.actions@ == seq![UiAction::GetAddress]
    }
}

/// True when `out` lists the devices of the most recent discovery
/// session: a header line, then one line per found device in discovery
/// order.
pub open spec fn spec_list_devices_outcome(ctx: ClientContext, out: CommandOutcome) -> bool {
    &&& out.actions@.len() == 0
    &&& out.lines@.len() == 1 + ctx.found_devices@.len()
    &&& (out.lines@[0] matches OutputLine::Text(h) && h@
        == "Devices found in most recent discovery session:"@)
    &&& forall|i: int|
        0 <= i < ctx.found_devices@.len() ==> (#[trigger] out.lines@[1 + i] matches
            OutputLine::Device(a, n) && a@ == ctx.found_devices@[i].0@ && n@
            == ctx.found_devices@[i].1.name@)
}

/// Builds the border bar of equals signs.
fn equal_bar_str() -> (r: String)
    ensures
        r@ == spec_equal_bar(),
{
    let mut s = String::new();
    s.append(" ");
    let bar = repeat_str("=", MAX_MENU_CHAR_WIDTH);
    s.append(bar.as_str());
    s.append(" ");
    proof {
        reveal_strlit(" ");
        assert(s@ =~= spec_equal_bar());
    }
    s
}

/// Builds the border bar of minus signs.
fn minus_bar_str() -> (r: String)
    ensures
        r@ == spec_minus_bar(),
{
    let mut s = String::new();
    s.append("+");
    let bar = repeat_str("-", MAX_MENU_CHAR_WIDTH);
    s.append(bar.as_str());
    s.append("+");
    proof {
        reveal_strlit("+");
        assert(s@ =~= spec_minus_bar());
    }
    s
}

/// Builds an empty menu row.
fn empty_bar_str() -> (r: String)
    ensures
        r@ == spec_empty_bar(),
{
    let mut s = String::new();
    s.append("|");
    let bar = repeat_str(" ", MAX_MENU_CHAR_WIDTH);
    s.append(bar.as_str());
    s.append("|");
    proof {
        reveal_strlit("|");
        assert(s@ =~= spec_empty_bar());
    }
    s
}

/// Builds the text shown for `help <command>`.
fn help_block_str(cmd: &str, desc: &str) -> (r: String)
    ensures
        r@ == spec_help_block(cmd@, desc@),
{
    let mut s = String::new();
    s.append("\n");
    let ind4 = repeat_str(" ", 4);
    s.append(ind4.as_str());
    s.append(cmd);
    s.append("\n");
    let ind8 = repeat_str(" ", 8);
    s.append(ind8.as_str());
    s.append(desc);
    s.append("\n");
    proof {
        reveal_strlit("\n");
        assert(s@ =~= spec_help_block(cmd@, desc@));
    }
    s
}

/// Builds the help menu's header.
fn menu_header_str() -> (r: String)
    ensures
        r@ == spec_menu_header(),
{
    let mut s = String::new();
    s.append("\n");
    let eq = equal_bar_str();
    s.append(eq.as_str());
    s.append("\n");
    let title = wrap_help_text("Help Menu", MAX_MENU_CHAR_WIDTH, 2);
    s.append(title.as_str());
    s.append("\n");
    let minus = minus_bar_str();
    s.append(minus.as_str());
    s.append("\n");
    let empty = empty_bar_str();
    s.append(empty.as_str());
    proof {
        reveal_strlit("\n");
        assert(s@ =~= spec_menu_header());
    }
    s
}

/// Builds one help menu entry.
fn menu_entry_str(key: &str, desc: &str) -> (r: String)
    ensures
        r@ == spec_menu_entry(key@, desc@),
{
    let mut s = String::new();
    let k = wrap_help_text(key, MAX_MENU_CHAR_WIDTH, 4);
    s.append(k.as_str());
    s.append("\n");
    let d = wrap_help_text(desc, MAX_MENU_CHAR_WIDTH, 8);
    s.append(d.as_str());
    s.append("\n");
    let empty = empty_bar_str();
    s.append(empty.as_str());
    proof {
        reveal_strlit("\n");
        assert(s@ =~= spec_menu_entry(key@, desc@));
    }
    s
}

/// Builds the help menu's footer.
fn menu_footer_str() -> (r: String)
    ensures
        r@ == spec_menu_footer(),
{
    let mut s = String::new();
    let empty = empty_bar_str();
    s.append(empty.as_str());
    s.append("\n");
    let eq = equal_bar_str();
    s.append(eq.as_str());
    proof {
        reveal_strlit("\n");
        assert(s@ =~= spec_menu_footer());
    }
    s
}

/// Builds the full help menu over a command table.
fn menu_lines(t: &Vec<(String, CommandOption)>) -> (ls: Vec<OutputLine>)
    ensures
        spec_menu_lines(t@, ls@),
{
    let mut ls: Vec<OutputLine> = Vec::new();
    ls.push(OutputLine::Text(menu_header_str()));
    let mut i: usize = 0;
    while i < t.len()
        invariant
            0 <= i <= t@.len(),
            ls@.len() == i + 1,
            ls@[0] matches OutputLine::Text(h) && h@ == spec_menu_header(),
            forall|j: int|
                0 <= j < i ==> (#[trigger] ls@[1 + j] matches OutputLine::Text(b) && b@
                    == spec_menu_entry(t@[j].0@, t@[j].1.description@)),
        decreases t@.len() - i,
    {
        ls.push(
            OutputLine::Text(
                menu_entry_str(t[i].0.as_str(), t[i].1.description.as_str()),
            ),
        );
        i = i + 1;
    }
    ls.push(OutputLine::Text(menu_footer_str()));
    ls
}

impl CommandHandler {
    /// Creates a new handler over the client's context, with the full
    /// command table installed.
    pub fn new(context: ClientContext) -> (h: CommandHandler)
        ensures
            h.context == context,
            spec_command_table(h.command_options@),
    {
        CommandHandler { context, command_options: build_commands() }
    }

    /// Get the list of currently supported commands, in table order.
    pub fn get_command_list(&self) -> (r: Vec<String>)
        ensures
            r@.len() == self.command_options@.len(),
            forall|i: int|
                0 <= i < r@.len() ==> (#[trigger] r@[i])@ == self.command_options@[i].0@,
    {
        let mut r: Vec<String> = Vec::new();
        let mut i: usize = 0;
        while i < self.command_options.len()
            invariant
                0 <= i <= self.command_options@.len(),
                r@.len() == i,
                forall|j: int|
                    0 <= j < i ==> (#[trigger] r@[j])@ == self.command_options@[j].0@,
            decreases self.command_options@.len() - i,
        {
            r.push(self.command_options[i].0.clone());
            i = i + 1;
        }
        r
    }

    /// The common line for when the adapter is not ready.
    pub fn adapter_not_ready(&self) -> (l: OutputLine)
        ensures
            l == OutputLine::AdapterNotReady(self.context.default_adapter),
    {
        OutputLine::AdapterNotReady(self.context.default_adapter)
    }

    /// Enables, disables or shows the default adapter.
    pub fn cmd_adapter(&mut self, args: &Vec<String>) -> (out: CommandOutcome)
        ensures
            *final(self) == *old(self),
            spec_adapter_outcome(old(self).context, args@, out),
    {
        let mut lines: Vec<OutputLine> = Vec::new();
        let mut actions: Vec<UiAction> = Vec::new();
        match enforce_arg_len(args, 1, "adapter <enable|disable|show>") {
            Some(usage) => {
                lines.push(usage);
            },
            None => {
                if str_eq(args[0].as_str(), "enable") {
                    actions.push(UiAction::StartAdapter(self.context.default_adapter));
                    proof {
                        assert(actions@ =~= seq![
                            UiAction::StartAdapter(self.context.default_adapter),
                        ]);
                    }
                } else if str_eq(args[0].as_str(), "disable") {
                    actions.push(UiAction::StopAdapter(self.context.default_adapter));
                    proof {
                        assert(actions@ =~= seq![
                            UiAction::StopAdapter(self.context.default_adapter),
                        ]);
                    }
                } else if str_eq(args[0].as_str(), "show") {
                    lines.push(OutputLine::AdapterState(self.context.enabled));
                    let address = match &self.context.adapter_address {
                        Some(x) => x.clone(),
                        None => String::new(),
                    };
                    lines.push(OutputLine::AdapterAddress(address));
                } else {
                    lines.push(OutputLine::InvalidArgument(args[0].clone()));
                }
            },
        }
        CommandOutcome { lines, actions }
    }

    /// Asks the adapter for its address, once it is ready.
    pub fn cmd_get_address(&mut self, args: &Vec<String>) -> (out: CommandOutcome)
        ensures
            *final(self) == *old(self),
            spec_get_address_outcome(old(self).context, out),
    {
        let _ = args;
        let mut lines: Vec<OutputLine> = Vec::new();
        let mut actions: Vec<UiAction> = Vec::new();
        if !self.context.adapter_ready {
            lines.push(self.adapter_not_ready());
        } else {
            actions.push(UiAction::GetAddress);
            proof {
                assert(actions@ =~= seq![UiAction::GetAddress]);
            }
        }
        CommandOutcome { lines, actions }
    }

    /// Caches the adapter address a reply carried and hands back the
    /// line showing it.
    pub fn on_address_reply(&mut self, address: String) -> (l: OutputLine)
        ensures
            final(self).context.adapter_address matches Some(a) && a@ == address@,
            final(self).context.default_adapter == old(self).context.default_adapter,
            final(self).context.adapter_ready == old(self).context.adapter_ready,
            final(self).context.enabled == old(self).context.enabled,
            final(self).context.found_devices == old(self).context.found_devices,
            final(self).command_options == old(self).command_options,
            l matches OutputLine::AdapterAddress(a2) && a2@ == address@,
    {
        let shown = address.clone();
        self.context.adapter_address = Some(address);
        OutputLine::AdapterAddress(shown)
    }

    /// Starts or stops device discovery, once the adapter is ready.
    pub fn cmd_discovery(&mut self, args: &Vec<String>) -> (out: CommandOutcome)
        ensures
            *final(self) == *old(self),
            spec_discovery_outcome(old(self).context, args@, out),
    {
        let mut lines: Vec<OutputLine> = Vec::new();
        let mut actions: Vec<UiAction> = Vec::new();
        if !self.context.adapter_ready {
            lines.push(self.adapter_not_ready());
        } else {
            match enforce_arg_len(args, 1, "discovery <start|stop>") {
                Some(usage) => {
                    lines.push(usage);
                },
                None => {
                    if str_eq(args[0].as_str(), "start") {
                        actions.push(UiAction::StartDiscovery);
                        proof {
                            assert(actions@ =~= seq![UiAction::StartDiscovery]);
                        }
                    } else if str_eq(args[0].as_str(), "stop") {
                        actions.push(UiAction::CancelDiscovery);
                        proof {
                            assert(actions@ =~= seq![UiAction::CancelDiscovery]);
                        }
                    } else {
                        lines.push(OutputLine::InvalidArgument(args[0].clone()));
                    }
                },
            }
        }
        CommandOutcome { lines, actions }
    }

    /// Creates a bond with the named device, once the adapter is ready.
    pub fn cmd_bond(&mut self, args: &Vec<String>) -> (out: CommandOutcome)
        ensures
            *final(self) == *old(self),
            spec_bond_outcome(old(self).context, args@, out),
    {
        let mut lines: Vec<OutputLine> = Vec::new();
        let mut actions: Vec<UiAction> = Vec::new();
        if !self.context.adapter_ready {
            lines.push(self.adapter_not_ready());
        } else {
            match enforce_arg_len(args, 1, "bond <address>") {
                Some(usage) => {
                    lines.push(usage);
                },
                None => {
                    let device = BluetoothDevice {
                        address: args[0].clone(),
                        name: String::from_str("Classic Device"),
                    };
                    actions.push(UiAction::CreateBond(device, BluetoothTransport::Auto));
                },
            }
        }
        CommandOutcome { lines, actions }
    }

    /// Shows the help menu, or one command's description.
    pub fn cmd_help(&mut self, args: &Vec<String>) -> (out: CommandOutcome)
        ensures
            *final(self) == *old(self),
            out.actions@.len() == 0,
            spec_help_lines(old(self).command_options@, args@, out.lines@),
    {
        let mut lines: Vec<OutputLine> = Vec::new();
        if args.len() > 0 {
            match cmd_lookup(&self.command_options, args[0].as_str()) {
                Some(opt) => {
                    let block = help_block_str(args[0].as_str(), opt.description.as_str());
                    lines.push(OutputLine::Text(block));
                },
                None => {
                    lines.push(OutputLine::InvalidCommand(args[0].clone()));
                    let mut menu = menu_lines(&self.command_options);
                    let ghost menu_view = menu@;
                    lines.append(&mut menu);
                    proof {
                        assert(lines@.drop_first() =~= menu_view);
                    }
                },
            }
        } else {
            let menu = menu_lines(&self.command_options);
            lines = menu;
        }
        CommandOutcome { lines, actions: Vec::new() }
    }

    /// Lists the devices found in the most recent discovery session.
    pub fn cmd_list_devices(&mut self, args: &Vec<String>) -> (out: CommandOutcome)
        ensures
            *final(self) == *old(self),
            spec_list_devices_outcome(old(self).context, out),
    {
        let _ = args;
        let mut lines: Vec<OutputLine> = Vec::new();
        lines.push(
            OutputLine::Text(String::from_str("Devices found in most recent discovery session:")),
        );
        let mut i: usize = 0;
        while i < self.context.found_devices.len()
            invariant
                *self == *old(self),
                0 <= i <= self.context.found_devices@.len(),
                lines@.len() == i + 1,
                lines@[0] matches OutputLine::Text(h) && h@
                    == "Devices found in most recent discovery session:"@,
                forall|j: int|
                    0 <= j < i ==> (#[trigger] lines@[1 + j] matches OutputLine::Device(a, n)
                        && a@ == self.context.found_devices@[j].0@ && n@
                        == self.context.found_devices@[j].1.name@),
            decreases self.context.found_devices@.len() - i,
        {
            lines.push(
                OutputLine::Device(
                    self.context.found_devices[i].0.clone(),
                    self.context.found_devices[i].1.name.clone(),
                ),
            );
            i = i + 1;
        }
        CommandOutcome { lines, actions: Vec::new() }
    }

    /// Entry point for a command and its arguments: an empty line is
    /// ignored, a known command runs its handler, and an unknown one is
    /// reported and followed by the help menu.
    pub fn process_cmd_line(&mut self, command: &String, args: &Vec<String>) -> (out:
        CommandOutcome)
        ensures
            *final(self) == *old(self),
            ({
                let t = old(self).command_options@;
                if command@ == Seq::<char>::empty() {
                    out.lines@.len() == 0 && out.actions@.len() == 0
                } else {
                    match spec_cmd_lookup(t, command@) {
                        Some(k) => match k {
                            CommandKind::Adapter => spec_adapter_outcome(
                                old(self).context,
                                args@,
                                out,
                            ),
                            CommandKind::Bond => spec_bond_outcome(old(self).context, args@, out),
                            CommandKind::Discovery => spec_discovery_outcome(
                                old(self).context,
                                args@,
                                out,
                            ),
                            CommandKind::GetAddress => spec_get_address_outcome(
                                old(self).context,
                                out,
                            ),
                            CommandKind::Help => out.actions@.len() == 0 && spec_help_lines(
                                t,
                                args@,
                                out.lines@,
                            ),
                            CommandKind::ListDevices => spec_list_devices_outcome(
                                old(self).context,
                                out,
                            ),
                            CommandKind::Noop => out.lines@.len() == 0 && out.actions@.len() == 0,
                        },
                        None => {
                            &&& out.actions@.len() == 0
                            &&& out.lines@.len() >= 1
                            &&& (out.lines@[0] matches OutputLine::InvalidCommand(c) && c@
                                == command@)
                            &&& spec_help_lines(t, args@, out.lines@.drop_first())
                        },
                    }
                }
            }),
    {
        if command.as_str().is_empty() {
            proof {
                assert(command@ =~= Seq::<char>::empty());
            }
            return CommandOutcome { lines: Vec::new(), actions: Vec::new() };
        }
        let kind = match cmd_lookup(&self.command_options, command.as_str()) {
            Some(opt) => Some(opt.kind),
            None => None,
        };
        match kind {
            Some(CommandKind::Adapter) => self.cmd_adapter(args),
            Some(CommandKind::Bond) => self.cmd_bond(args),
            Some(CommandKind::Discovery) => self.cmd_discovery(args),
            Some(CommandKind::GetAddress) => self.cmd_get_address(args),
            Some(CommandKind::Help) => self.cmd_help(args),
            Some(CommandKind::ListDevices) => self.cmd_list_devices(args),
            Some(CommandKind::Noop) => CommandOutcome { lines: Vec::new(), actions: Vec::new() },
            None => {
                let mut lines: Vec<OutputLine> = Vec::new();
                lines.push(OutputLine::InvalidCommand(command.clone()));
                let help = self.cmd_help(args);
                let mut help_lines = help.lines;
                let ghost help_view = help_lines@;
                lines.append(&mut help_lines);
                proof {
                    assert(lines@.drop_first() =~= help_view);
                }
                CommandOutcome { lines, actions: Vec::new() }
            },
        }
    }
}

} // verus!
