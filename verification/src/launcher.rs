//! Choosing the program that opens a URL, opens a folder or shows a file in
//! the file manager, for each family of operating systems.

use vstd::prelude::*;

verus! {

/// The launcher of one family of operating systems.
#[derive(Clone, Copy, Debug, PartialEq, Eq, Structural)]
pub enum ShellLauncher {
    MacOs,
    Windows,
    Linux,
}

/// What the launcher is asked to do with its target.
#[derive(Clone, Copy, Debug, PartialEq, Eq, Structural)]
pub enum ShellAction {
    /// Open a URL with the handler the system has for it.
    OpenUrl,
    /// Open a directory in the file manager.
    OpenFolder,
    /// Open the file manager with a file selected.
    Reveal,
}

/// A program with the arguments it is started with.
#[derive(Debug, PartialEq, Eq)]
pub struct LaunchCommand {
    pub program: String,
    pub args: Vec<String>,
}

/// The mathematical content of a `LaunchCommand`.
pub struct CommandLine {
    pub program: Seq<char>,
    pub args: Seq<Seq<char>>,
}

impl View for LaunchCommand {
    type V = CommandLine;

    open spec fn view(&self) -> CommandLine {
        CommandLine {
            program: self.program@,
            args: Seq::new(self.args@.len(), |i: int| self.args@[i]@),
        }
    }
}

impl ShellLauncher {
    /// The launcher for the operating system of the given name, where the
    /// names are those of `std::env::consts::OS`.
    pub open spec fn known_os(os: Seq<char>) -> Option<ShellLauncher> {
        if os == "macos"@ {
            Some(ShellLauncher::MacOs)
        } else if os == "windows"@ {
            Some(ShellLauncher::Windows)
        } else if os == "linux"@ {
            Some(ShellLauncher::Linux)
        } else {
            None
        }
    }

    /// The program that performs `action` on this platform.
    pub open spec fn program(self, action: ShellAction) -> Seq<char> {
        match self {
            ShellLauncher::MacOs => "open"@,
            ShellLauncher::Windows => match action {
                ShellAction::OpenUrl => "cmd"@,
                ShellAction::OpenFolder => "explorer"@,
                ShellAction::Reveal => "explorer"@,
            },
            ShellLauncher::Linux => "xdg-open"@,
        }
    }

    /// The arguments that stand before the target.
    pub open spec fn leading_args(self, action: ShellAction) -> Seq<Seq<char>> {
        match (self, action) {
            (ShellLauncher::MacOs, ShellAction::Reveal) => seq!["-R"@],
            (ShellLauncher::Windows, ShellAction::OpenUrl) => seq!["/C"@, "start"@, ""@],
            (ShellLauncher::Windows, ShellAction::Reveal) => seq!["/select,"@],
            _ => Seq::empty(),
        }
    }

    /// The whole command line: the program, its leading arguments, and the
    /// target as the last argument, unchanged.
    pub open spec fn command_line(self, action: ShellAction, target: Seq<char>) -> CommandLine {
        CommandLine {
            program: self.program(action),
            args: self.leading_args(action).push(target),
        }
    }

    /// Selects the launcher by the operating system's name. Only the three
    /// names `macos`, `windows` and `linux` have one.
    pub fn for_os(os: &str) -> (launcher: Option<ShellLauncher>)
        ensures
            launcher == Self::known_os(os@),
    {
        let name = os.to_owned();
        if name == "macos".to_owned() {
            Some(ShellLauncher::MacOs)
        } else if name == "windows".to_owned() {
            Some(ShellLauncher::Windows)
        } else if name == "linux".to_owned() {
            Some(ShellLauncher::Linux)
        } else {
            None
        }
    }

    /// The command that performs `action` on `target`.
    pub fn command(self, action: ShellAction, target: String) -> (cmd: LaunchCommand)
        ensures
            cmd@ == self.command_line(action, target@),
    {
        let program = match self {
            ShellLauncher::MacOs => "open".to_owned(),
            ShellLauncher::Windows => match action {
                ShellAction::OpenUrl => "cmd".to_owned(),
                ShellAction::OpenFolder => "explorer".to_owned(),
                ShellAction::Reveal => "explorer".to_owned(),
            },
            ShellLauncher::Linux => "xdg-open".to_owned(),
        };
        let mut args: Vec<String> = Vec::new();
        match (self, action) {
            (ShellLauncher::MacOs, ShellAction::Reveal) => {
                args.push("-R".to_owned());
            },
            (ShellLauncher::Windows, ShellAction::OpenUrl) => {
                args.push("/C".to_owned());
                args.push("start".to_owned());
                args.push("".to_owned());
            },
            (ShellLauncher::Windows, ShellAction::Reveal) => {
                args.push("/select,".to_owned());
            },
            _ => {},
        }
        args.push(target);
        let cmd = LaunchCommand { program, args };
        assert(cmd@.args =~= self.command_line(action, target@).args);
        cmd
    }

    /// The command that opens `url` with the handler the system has for it.
    /// The URL is handed on as it is: nothing parses or checks it.
    pub fn open_url(self, url: String) -> (cmd: LaunchCommand)
        ensures
            cmd@ == self.command_line(ShellAction::OpenUrl, url@),
    {
        self.command(ShellAction::OpenUrl, url)
    }

    /// The command that opens the directory `path` in the file manager.
    pub fn open_folder(self, path: String) -> (cmd: LaunchCommand)
        ensures
            cmd@ == self.command_line(ShellAction::OpenFolder, path@),
    {
        self.command(ShellAction::OpenFolder, path)
    }

    /// The command that opens the file manager with `path` selected. Linux
    /// has no such request: there the path is merely opened.
    pub fn reveal_in_finder(self, path: String) -> (cmd: LaunchCommand)
        ensures
            cmd@ == self.command_line(ShellAction::Reveal, path@),
    {
        self.command(ShellAction::Reveal, path)
    }
}

/// Whatever the platform and the action, the target is the last argument of
/// the command, exactly as it was given, and what stands before it does not
/// depend on it.
pub proof fn lemma_target_is_last_argument(
    launcher: ShellLauncher,
    action: ShellAction,
    target: Seq<char>,
)
    ensures
        launcher.command_line(action, target).args.len() == launcher.leading_args(action).len() + 1,
        launcher.command_line(action, target).args.last() == target,
        launcher.command_line(action, target).args.drop_last() == launcher.leading_args(action),
        launcher.command_line(action, target).program == launcher.program(action),
{
    let line = launcher.command_line(action, target);
    assert(line.args.drop_last() =~= launcher.leading_args(action));
}

/// Revealing a file asks the same program as opening a folder does, with one
/// flag before the path on macOS and on Windows, and with none on Linux,
/// where revealing and opening are the same command.
pub proof fn lemma_reveal_adds_one_flag(launcher: ShellLauncher, path: Seq<char>)
    ensures
        launcher.program(ShellAction::Reveal) == launcher.program(ShellAction::OpenFolder),
        launcher.leading_args(ShellAction::OpenFolder).len() == 0,
        launcher != ShellLauncher::Linux ==> launcher.leading_args(ShellAction::Reveal).len() == 1,
        launcher == ShellLauncher::Linux ==> launcher.command_line(ShellAction::Reveal, path)
            == launcher.command_line(ShellAction::OpenFolder, path),
{
}

/// Each of the three names selects its own launcher, and no other name
/// selects any.
pub proof fn lemma_known_os_names(os: Seq<char>)
    ensures
        ShellLauncher::known_os(os) == Some(ShellLauncher::MacOs) <==> os == "macos"@,
        ShellLauncher::known_os(os) == Some(ShellLauncher::Windows) <==> os == "windows"@,
        ShellLauncher::known_os(os) == Some(ShellLauncher::Linux) <==> os == "linux"@,
        ShellLauncher::known_os(os) is None <==> os != "macos"@ && os != "windows"@ && os
            != "linux"@,
{
    reveal_strlit("macos");
    reveal_strlit("windows");
    reveal_strlit("linux");
    assert("macos"@.len() == 5 && "windows"@.len() == 7);
    assert("macos"@[0] == 'm' && "linux"@[0] == 'l');
}

} // verus!
