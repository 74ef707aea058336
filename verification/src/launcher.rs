//! The launcher daemon's decisions: its command line and the button that
//! starts the keyboard session.

use vstd::prelude::*;
use crate::input::Key;
use crate::input::RawInputEvent;
use crate::input::key_code;
use crate::input::key_of_code;
use crate::shell::strings_view;

verus! {

/// What the launcher was asked to do.
pub struct LauncherOptions {
    /// The input device to watch, if given.
    pub device: Option<String>,
    /// The frontend process to pause while the keyboard runs.
    pub process: String,
    /// The keyboard program to start.
    pub cyberdeck: String,
    /// Run the signal self-test instead.
    pub test_mock: bool,
}

pub enum LauncherCommand {
    Help,
    Run(LauncherOptions),
}

#[verifier::ext_equal]
pub struct OptionsView {
    pub device: Option<Seq<char>>,
    pub process: Seq<char>,
    pub cyberdeck: Seq<char>,
    pub test_mock: bool,
}

#[verifier::ext_equal]
pub enum CommandView {
    Help,
    Run(OptionsView),
}

pub open spec fn opt_string_view(s: Option<String>) -> Option<Seq<char>> {
    match s {
        Some(s) => Some(s@),
        None => None,
    }
}

impl View for LauncherOptions {
    type V = OptionsView;

    open spec fn view(&self) -> OptionsView {
        OptionsView {
            device: opt_string_view(self.device),
            process: self.process@,
            cyberdeck: self.cyberdeck@,
            test_mock: self.test_mock,
        }
    }
}

impl View for LauncherCommand {
    type V = CommandView;

    open spec fn view(&self) -> CommandView {
        match self {
            LauncherCommand::Help => CommandView::Help,
            LauncherCommand::Run(o) => CommandView::Run(o@),
        }
    }
}

pub open spec fn default_options() -> OptionsView {
    OptionsView {
        device: None,
        process: "emulationstation"@,
        cyberdeck: "cyberdeck-kb"@,
        test_mock: false,
    }
}

/// Reads the arguments from position `i` on: `--device`, `--process` and
/// `--cyberdeck` take the next argument when there is one, `--test-mock`
/// sets the self-test, `--help` or `-h` asks for help, and anything else is
/// skipped.
pub open spec fn parse_from(args: Seq<Seq<char>>, i: int, o: OptionsView) -> CommandView
    decreases args.len() - i,
{
    if i >= args.len() || i < 0 {
        CommandView::Run(o)
    } else {
        let a = args[i];
        let has_value = i + 1 < args.len();
        if a == "--device"@ {
            if has_value {
                parse_from(args, i + 2, OptionsView { device: Some(args[i + 1]), ..o })
            } else {
                parse_from(args, i + 1, o)
            }
        } else if a == "--process"@ {
            if has_value {
                parse_from(args, i + 2, OptionsView { process: args[i + 1], ..o })
            } else {
                parse_from(args, i + 1, o)
            }
        } else if a == "--cyberdeck"@ {
            if has_value {
                parse_from(args, i + 2, OptionsView { cyberdeck: args[i + 1], ..o })
            } else {
                parse_from(args, i + 1, o)
            }
        } else if a == "--test-mock"@ {
            parse_from(args, i + 1, OptionsView { test_mock: true, ..o })
        } else if a == "--help"@ || a == "-h"@ {
            CommandView::Help
        } else {
            parse_from(args, i + 1, o)
        }
    }
}

/// Whether two strings hold the same characters.
pub fn str_eq(a: &str, b: &str) -> (r: bool)
    ensures
        r == (a@ == b@),
{
    let n = a.unicode_len();
    if n != b.unicode_len() {
        return false;
    }
    let mut i: usize = 0;
    while i < n
        invariant
            n == a@.len(),
            n == b@.len(),
            0 <= i <= n,
            forall|k: int| 0 <= k < i ==> a@[k] == b@[k],
        decreases n - i,
    {
        if a.get_char(i) != b.get_char(i) {
            return false;
        }
        i += 1;
    }
    assert(a@ =~= b@);
    true
}

fn copy_string(s: &String) -> (c: String)
    ensures
        c@ == s@,
{
    s.clone()
}

/// Parses the launcher's command line; `args[0]` is the program's name.
pub fn parse_launcher_args(args: &Vec<String>) -> (c: LauncherCommand)
    ensures
        c@ == parse_from(strings_view(args@), 1, default_options()),
{
    let ghost all = strings_view(args@);
    let mut opts = LauncherOptions {
        device: None,
        process: String::from_str("emulationstation"),
        cyberdeck: String::from_str("cyberdeck-kb"),
        test_mock: false,
    };
    let mut i: usize = 1;
    while i < args.len()
        invariant
            all == strings_view(args@),
            1 <= i,
            i <= args@.len() + 1,
            parse_from(all, 1, default_options()) == parse_from(all, i as int, opts@),
        decreases args@.len() + 1 - i,
    {
        let a = args[i].as_str();
        let has_value = i + 1 < args.len();
        if str_eq(a, "--device") {
            if has_value {
                opts.device = Some(copy_string(&args[i + 1]));
                i += 1;
            }
        } else if str_eq(a, "--process") {
            if has_value {
                opts.process = copy_string(&args[i + 1]);
                i += 1;
            }
        } else if str_eq(a, "--cyberdeck") {
            if has_value {
                opts.cyberdeck = copy_string(&args[i + 1]);
                i += 1;
            }
        } else if str_eq(a, "--test-mock") {
            opts.test_mock = true;
        } else if str_eq(a, "--help") || str_eq(a, "-h") {
            return LauncherCommand::Help;
        }
        i += 1;
    }
    LauncherCommand::Run(opts)
}

/// The buttons that start the keyboard session: Mode, Home page and F.
pub open spec fn is_launch_key(k: Key) -> bool {
    let named = key_of_code(key_code(k));
    named == Key::BTN_MODE || named == Key::KEY_HOMEPAGE || named == Key::KEY_F
}

/// Whether an input event is a press of a launch button.
pub fn is_launch_press(e: &RawInputEvent) -> (b: bool)
    ensures
        b == (e.key matches Some(k) && e.value == 1 && is_launch_key(k)),
{
    match e.key {
        Some(key) => {
            let is_press = e.value == 1;
            match Key::new(key.code()) {
                Key::BTN_MODE | Key::KEY_HOMEPAGE | Key::KEY_F => is_press,
                _ => false,
            }
        },
        None => false,
    }
}

} // verus!
