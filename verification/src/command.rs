//! The command surface: recognizing a command line by fixed-priority
//! substring containment, extracting its operands, and producing the fixed
//! text lines and launch request each command answers with.

use crate::text::{
    contains_sub, join_args, package_of, parse_i32, spec_contains, spec_join, spec_parse_i32,
    spec_slash_index,
};
use vstd::prelude::*;
use vstd::string::StringExecFns;

verus! {

/// The key code posted for the supported "back" key event.
pub const BACK_KEYCODE: u16 = 0x01;

/// A recognized command, with its operands.
#[derive(Debug, Clone, PartialEq, Eq)]
pub enum Command {
    Connect,
    ListDevices,
    OsVersion,
    StartApp { intent: String },
    Tap { x: i32, y: i32 },
    Swipe { x1: i32, y1: i32, x2: i32, y2: i32, duration: i32 },
    KeyBack,
    ShowDisplaySize,
    Screencap,
    ForceStop,
    Unrecognized,
}

/// Why a command line could not be accepted: an operand position past the
/// end of the argument list, or an operand that is not a number.
#[derive(Clone, Copy, Debug, PartialEq, Eq, Structural)]
pub enum CommandError {
    MissingArgument,
    InvalidNumber,
}

/// The mathematical image of a `Command`: operand strings as character
/// sequences.
pub enum SpecCommand {
    Connect,
    ListDevices,
    OsVersion,
    StartApp { intent: Seq<char> },
    Tap { x: i32, y: i32 },
    Swipe { x1: i32, y1: i32, x2: i32, y2: i32, duration: i32 },
    KeyBack,
    ShowDisplaySize,
    Screencap,
    ForceStop,
    Unrecognized,
}

impl Command {
    pub open spec fn model(self) -> SpecCommand {
        match self {
            Command::Connect => SpecCommand::Connect,
            Command::ListDevices => SpecCommand::ListDevices,
            Command::OsVersion => SpecCommand::OsVersion,
            Command::StartApp { intent } => SpecCommand::StartApp { intent: intent@ },
            Command::Tap { x, y } => SpecCommand::Tap { x, y },
            Command::Swipe { x1, y1, x2, y2, duration } => SpecCommand::Swipe {
                x1,
                y1,
                x2,
                y2,
                duration,
            },
            Command::KeyBack => SpecCommand::KeyBack,
            Command::ShowDisplaySize => SpecCommand::ShowDisplaySize,
            Command::Screencap => SpecCommand::Screencap,
            Command::ForceStop => SpecCommand::ForceStop,
            Command::Unrecognized => SpecCommand::Unrecognized,
        }
    }
}

/// The command an argument list denotes: the arguments are joined into one
/// line, the line is matched against the fixed patterns in priority order
/// (first match wins), and the matched command's operands are read from
/// their fixed argument positions.
pub open spec fn spec_command(args: Seq<Seq<char>>) -> Result<SpecCommand, CommandError> {
    let cmd = spec_join(args);
    if spec_contains(cmd, "connect"@) {
        Ok(SpecCommand::Connect)
    } else if spec_contains(cmd, "devices"@) {
        Ok(SpecCommand::ListDevices)
    } else if spec_contains(cmd, "shell getprop ro.build.version.release"@) {
        Ok(SpecCommand::OsVersion)
    } else if spec_contains(cmd, "shell am start -n"@) {
        if args.len() <= 7 {
            Err(CommandError::MissingArgument)
        } else {
            Ok(SpecCommand::StartApp { intent: args[7] })
        }
    } else if spec_contains(cmd, "input tap"@) {
        if args.len() <= 7 {
            Err(CommandError::MissingArgument)
        } else if spec_parse_i32(args[6]) is None || spec_parse_i32(args[7]) is None {
            Err(CommandError::InvalidNumber)
        } else {
            Ok(
                SpecCommand::Tap {
                    x: spec_parse_i32(args[6])->0,
                    y: spec_parse_i32(args[7])->0,
                },
            )
        }
    } else if spec_contains(cmd, "input swipe"@) {
        if args.len() <= 10 {
            Err(CommandError::MissingArgument)
        } else if spec_parse_i32(args[6]) is None || spec_parse_i32(args[7]) is None
            || spec_parse_i32(args[8]) is None || spec_parse_i32(args[9]) is None
            || spec_parse_i32(args[10]) is None {
            Err(CommandError::InvalidNumber)
        } else {
            Ok(
                SpecCommand::Swipe {
                    x1: spec_parse_i32(args[6])->0,
                    y1: spec_parse_i32(args[7])->0,
                    x2: spec_parse_i32(args[8])->0,
                    y2: spec_parse_i32(args[9])->0,
                    duration: spec_parse_i32(args[10])->0,
                },
            )
        }
    } else if spec_contains(cmd, "input keyevent 111"@) {
        Ok(SpecCommand::KeyBack)
    } else if spec_contains(cmd, "dumpsys window displays"@) || spec_contains(cmd, "wm size"@) {
        Ok(SpecCommand::ShowDisplaySize)
    } else if spec_contains(cmd, "exec-out screencap -p"@) {
        Ok(SpecCommand::Screencap)
    } else if spec_contains(cmd, "am force-stop"@) {
        Ok(SpecCommand::ForceStop)
    } else {
        Ok(SpecCommand::Unrecognized)
    }
}

/// Recognizes the command an argument list denotes, exactly as
/// `spec_command` describes it.
pub fn parse_command(args: &Vec<String>) -> (r: Result<Command, CommandError>)
    ensures
        match r {
            Ok(c) => spec_command(args@.map_values(|s: String| s@)) == Ok::<SpecCommand, CommandError>(c.model()),
            Err(e) => spec_command(args@.map_values(|s: String| s@)) == Err::<SpecCommand, CommandError>(e),
        },
{
    let cmd = join_args(args);
    let line = cmd.as_str();
    if contains_sub(line, "connect") {
        Ok(Command::Connect)
    } else if contains_sub(line, "devices") {
        Ok(Command::ListDevices)
    } else if contains_sub(line, "shell getprop ro.build.version.release") {
        Ok(Command::OsVersion)
    } else if contains_sub(line, "shell am start -n") {
        if args.len() <= 7 {
            Err(CommandError::MissingArgument)
        } else {
            Ok(Command::StartApp { intent: args[7].clone() })
        }
    } else if contains_sub(line, "input tap") {
        if args.len() <= 7 {
            return Err(CommandError::MissingArgument);
        }
        let x = match parse_i32(args[6].as_str()) {
            Some(v) => v,
            None => return Err(CommandError::InvalidNumber),
        };
        let y = match parse_i32(args[7].as_str()) {
            Some(v) => v,
            None => return Err(CommandError::InvalidNumber),
        };
        Ok(Command::Tap { x, y })
    } else if contains_sub(line, "input swipe") {
        if args.len() <= 10 {
            return Err(CommandError::MissingArgument);
        }
        let x1 = match parse_i32(args[6].as_str()) {
            Some(v) => v,
            None => return Err(CommandError::InvalidNumber),
        };
        let y1 = match parse_i32(args[7].as_str()) {
            Some(v) => v,
            None => return Err(CommandError::InvalidNumber),
        };
        let x2 = match parse_i32(args[8].as_str()) {
            Some(v) => v,
            None => return Err(CommandError::InvalidNumber),
        };
        let y2 = match parse_i32(args[9].as_str()) {
            Some(v) => v,
            None => return Err(CommandError::InvalidNumber),
        };
        let duration = match parse_i32(args[10].as_str()) {
            Some(v) => v,
            None => return Err(CommandError::InvalidNumber),
        };
        Ok(Command::Swipe { x1, y1, x2, y2, duration })
    } else if contains_sub(line, "input keyevent 111") {
        Ok(Command::KeyBack)
    } else if contains_sub(line, "dumpsys window displays") || contains_sub(line, "wm size") {
        Ok(Command::ShowDisplaySize)
    } else if contains_sub(line, "exec-out screencap -p") {
        Ok(Command::Screencap)
    } else if contains_sub(line, "am force-stop") {
        Ok(Command::ForceStop)
    } else {
        Ok(Command::Unrecognized)
    }
}

/// What a command prints and asks of the surrounding shell: the fixed text
/// lines on standard output, and at most one "open URI" launch request.
pub struct Reply {
    pub lines: Vec<String>,
    pub launch_uri: Option<String>,
}

/// The fixed textual answer of a command, given whether the target window
/// existed at call time. The device list carries the device line exactly
/// when the window exists; the display-size answer is always the virtual
/// resolution; an app start asks for a launch exactly when the window is
/// absent; every other command answers silently.
pub fn respond(cmd: &Command, window_present: bool) -> (r: Reply)
    ensures
        cmd is Connect ==> r.lines@.len() == 1 && r.lines@[0]@
            == "connected to Google Play Games Beta"@ && r.launch_uri is None,
        cmd is ListDevices ==> r.lines@.len() == (if window_present { 2int } else { 1int })
            && r.lines@[0]@ == "List of devices attached"@ && r.launch_uri is None,
        cmd is ListDevices && window_present ==> r.lines@[1]@ == "GooglePlayGamesBeta\tdevice"@,
        cmd is OsVersion ==> r.lines@.len() == 1 && r.lines@[0]@ == "14"@ && r.launch_uri is None,
        cmd matches Command::StartApp { intent } ==> r.lines@.len() == 2 && r.lines@[0]@
            == "Starting: Intent { cmp="@ + intent@ + " }"@ && r.lines@[1]@
            == "Warning: Activity not started, intent has been delivered to currently running top-most instance."@,
        cmd matches Command::StartApp { intent } ==> (if window_present {
            r.launch_uri is None
        } else {
            r.launch_uri matches Some(u) && u@ == "googleplaygames://launch/?id="@ + intent@.take(
                spec_slash_index(intent@),
            )
        }),
        cmd is ShowDisplaySize ==> r.lines@.len() == 2 && r.lines@[0]@ == "1280"@ && r.lines@[1]@
            == "720"@ && r.launch_uri is None,
        cmd is Tap || cmd is Swipe || cmd is KeyBack || cmd is Screencap || cmd is ForceStop
            || cmd is Unrecognized ==> r.lines@.len() == 0 && r.launch_uri is None,
{
    let mut lines: Vec<String> = Vec::new();
    let mut launch_uri: Option<String> = None;
    match cmd {
        Command::Connect => {
            lines.push(String::from_str("connected to Google Play Games Beta"));
        },
        Command::ListDevices => {
            lines.push(String::from_str("List of devices attached"));
            if window_present {
                lines.push(String::from_str("GooglePlayGamesBeta\tdevice"));
            }
        },
        Command::OsVersion => {
            lines.push(String::from_str("14"));
        },
        Command::StartApp { intent } => {
            let mut starting = String::from_str("Starting: Intent { cmp=");
            starting.append(intent.as_str());
            starting.append(" }");
            lines.push(starting);
            lines.push(
                String::from_str(
                    "Warning: Activity not started, intent has been delivered to currently running top-most instance.",
                ),
            );
            if !window_present {
                let mut uri = String::from_str("googleplaygames://launch/?id=");
                let package = package_of(intent.as_str());
                uri.append(package.as_str());
                launch_uri = Some(uri);
            }
        },
        Command::ShowDisplaySize => {
            lines.push(String::from_str("1280"));
            lines.push(String::from_str("720"));
        },
        Command::Tap { .. } => {},
        Command::Swipe { .. } => {},
        Command::KeyBack => {},
        Command::Screencap => {},
        Command::ForceStop => {},
        Command::Unrecognized => {},
    }
    Reply { lines, launch_uri }
}

} // verus!
