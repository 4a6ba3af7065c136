//! What the subcommands of the program run and print.

use crate::command::{words_of, CommandSpec};
use crate::number::{decimal, to_decimal};
use crate::text::cat2;
use crate::updater::UpdateResult;
use vstd::prelude::*;
use vstd::string::StringExecFns;

verus! {

/// The name of the service.
pub const SERVICE: &'static str = "nobase";

/// Where the configuration stands unless another path is given.
pub const DEFAULT_CONFIG_PATH: &'static str = "/etc/nobase/agent.toml";

/// The exit code where a command did not tell one.
pub const FAILURE: i32 = 1;

/// What can be asked of the service.
#[derive(Debug, Clone, Copy)]
pub enum ServiceAction {
    Start,
    Stop,
    Restart,
    Status,
    Enable,
    Disable,
}

/// How `systemctl` names the action.
pub open spec fn action_name(action: ServiceAction) -> Seq<char> {
    match action {
        ServiceAction::Start => "start"@,
        ServiceAction::Stop => "stop"@,
        ServiceAction::Restart => "restart"@,
        ServiceAction::Status => "status"@,
        ServiceAction::Enable => "enable"@,
        ServiceAction::Disable => "disable"@,
    }
}

/// Whether this is what [`service_command`] gives.
pub open spec fn service_command_gives(action: ServiceAction, command: CommandSpec) -> bool {
    &&& command.calls("systemctl"@, seq![action_name(action), SERVICE@])
    &&& command.env is None
}

/// The command that asks an action of the service.
pub fn service_command(action: ServiceAction) -> (command: CommandSpec)
    ensures
        service_command_gives(action, command),
        command.calls("systemctl"@, seq![action_name(action), SERVICE@]),
        command.env is None,
{
    let name = match action {
        ServiceAction::Start => "start",
        ServiceAction::Stop => "stop",
        ServiceAction::Restart => "restart",
        ServiceAction::Status => "status",
        ServiceAction::Enable => "enable",
        ServiceAction::Disable => "disable",
    };
    let args = vec![name, SERVICE];
    assert(words_of(args@) =~= seq![action_name(action), SERVICE@]);
    CommandSpec::new("systemctl", &args)
}

/// The arguments of `journalctl`: the last lines, and new ones as they come if
/// that is asked for or no number of lines is given.
pub open spec fn logs_args(lines: Option<u32>, follow: bool) -> Seq<Seq<char>> {
    match lines {
        Some(n) => if follow {
            seq!["-u"@, SERVICE@, "-n"@, decimal(n as nat), "-f"@]
        } else {
            seq!["-u"@, SERVICE@, "-n"@, decimal(n as nat)]
        },
        None => seq!["-u"@, SERVICE@, "-f"@],
    }
}

/// Whether this is what [`logs_command`] gives.
pub open spec fn logs_command_gives(
    lines: Option<u32>,
    follow: bool,
    command: CommandSpec,
) -> bool {
    &&& command.calls("journalctl"@, logs_args(lines, follow))
    &&& command.env is None
}

/// The command that shows the logs of the service.
pub fn logs_command(lines: Option<u32>, follow: bool) -> (command: CommandSpec)
    ensures
        logs_command_gives(lines, follow, command),
        command.calls("journalctl"@, logs_args(lines, follow)),
        command.env is None,
{
    match lines {
        Some(n) => {
            let count = to_decimal(n as u64);
            let args = if follow {
                vec!["-u", SERVICE, "-n", count.as_str(), "-f"]
            } else {
                vec!["-u", SERVICE, "-n", count.as_str()]
            };
            assert(words_of(args@) =~= logs_args(lines, follow));
            CommandSpec::new("journalctl", &args)
        },
        None => {
            let args = vec!["-u", SERVICE, "-f"];
            assert(words_of(args@) =~= logs_args(lines, follow));
            CommandSpec::new("journalctl", &args)
        },
    }
}

/// Whether this is what [`passed_code`] gives.
pub open spec fn passed_code_gives(ended: Option<Option<i32>>, code: i32) -> bool {
    &&& code == match ended {
        Some(Some(c)) => c,
        _ => FAILURE,
    }
}

/// The exit code with which the program passes on how a command ended: its own,
/// or that of a failure where it could not be run or was ended by a signal.
pub fn passed_code(ended: Option<Option<i32>>) -> (code: i32)
    ensures
        passed_code_gives(ended, code),
        code == match ended {
            Some(Some(c)) => c,
            _ => FAILURE,
        },
{
    match ended {
        Some(Some(c)) => c,
        _ => FAILURE,
    }
}

/// Whether this is what [`root_required`] gives.
pub open spec fn root_required_gives(is_root: bool, r: Result<(), String>) -> bool {
    &&& r is Ok == is_root
    &&& r matches Err(e) ==> e@ == "This command must be run as root (use sudo)"@
}

/// Whether a command that only root may run goes on: `update` and `uninstall` are
/// refused to anyone else.
pub fn root_required(is_root: bool) -> (r: Result<(), String>)
    ensures
        root_required_gives(is_root, r),
        r is Ok == is_root,
        r matches Err(e) ==> e@ == "This command must be run as root (use sudo)"@,
{
    if is_root {
        Ok(())
    } else {
        Err(String::from_str("This command must be run as root (use sudo)"))
    }
}

/// Whether this is what [`update_report`] gives.
pub open spec fn update_report_gives(
    ended: Result<UpdateResult, String>,
    r: (String, i32),
) -> bool {
    &&& match ended {
        Ok(UpdateResult::AlreadyUpToDate) => r.0@ == "  ✓ Already up-to-date"@ && r.1 == 0,
        Ok(UpdateResult::Updated { .. }) => {
            r.0@ == "  ✓ Update complete! Service is restarting."@ && r.1 == 0
        },
        Ok(UpdateResult::NotConfigured) => {
            &&& r.0@
                == "  ✗ backend_url is not set in config. Re-run the install script."@
            &&& r.1 == FAILURE
        },
        Err(e) => r.0@ == "  ✗ Update failed: "@ + e@ && r.1 == FAILURE,
    }
}

/// What `update` prints, and the exit code.
pub fn update_report(ended: &Result<UpdateResult, String>) -> (r: (String, i32))
    ensures
        update_report_gives(*ended, r),
        match *ended {
            Ok(UpdateResult::AlreadyUpToDate) => r.0@ == "  ✓ Already up-to-date"@ && r.1 == 0,
            Ok(UpdateResult::Updated { .. }) => {
                r.0@ == "  ✓ Update complete! Service is restarting."@ && r.1 == 0
            },
            Ok(UpdateResult::NotConfigured) => {
                &&& r.0@
                    == "  ✗ backend_url is not set in config. Re-run the install script."@
                &&& r.1 == FAILURE
            },
            Err(e) => r.0@ == "  ✗ Update failed: "@ + e@ && r.1 == FAILURE,
        },
{
    match ended {
        Ok(UpdateResult::AlreadyUpToDate) => (String::from_str("  ✓ Already up-to-date"), 0),
        Ok(UpdateResult::Updated { .. }) => (
            String::from_str("  ✓ Update complete! Service is restarting."),
            0,
        ),
        Ok(UpdateResult::NotConfigured) => (
            String::from_str(
                "  ✗ backend_url is not set in config. Re-run the install script.",
            ),
            FAILURE,
        ),
        Err(e) => (cat2("  ✗ Update failed: ", e.as_str()), FAILURE),
    }
}

// ---------------------------------------------------------------------------
// Uninstalling
// ---------------------------------------------------------------------------

/// Something that is removed if it is there.
pub struct Leftover {
    pub path: String,
    /// Whether it is a directory, removed with all in it.
    pub tree: bool,
    /// Whether uninstalling fails where it cannot be removed.
    pub required: bool,
    /// A directory to remove after it, if that is empty.
    pub parent: Option<String>,
    /// Whether the service manager is told afterwards.
    pub reload: bool,
    /// What is printed once it is removed.
    pub message: String,
}

/// A leftover as it is removed: its path, whether it is a directory, whether its
/// removal has to succeed, and what is printed.
pub open spec fn removals(list: Seq<Leftover>) -> Seq<(Seq<char>, bool, bool, Seq<char>)> {
    list.map_values(|l: Leftover| (l.path@, l.tree, l.required, l.message@))
}

fn leftover(path: &str, tree: bool, required: bool, message: &str) -> (l: Leftover)
    ensures
        l.path@ == path@,
        l.tree == tree,
        l.required == required,
        l.parent is None,
        !l.reload,
        l.message@ == message@,
{
    Leftover {
        path: String::from_str(path),
        tree,
        required,
        parent: None,
        reload: false,
        message: String::from_str(message),
    }
}

/// Whether this is what [`uninstall_commands`] gives.
pub open spec fn uninstall_commands_gives(commands: Vec<CommandSpec>) -> bool {
    &&& commands@.len() == 2
    &&& commands@[0].calls("systemctl"@, seq!["stop"@, SERVICE@])
    &&& commands@[1].calls("systemctl"@, seq!["disable"@, SERVICE@, "--quiet"@])
    &&& commands@[0].env is None
    &&& commands@[1].env is None
}

/// The commands that stop the service and keep it from starting on boot.
pub fn uninstall_commands() -> (commands: Vec<CommandSpec>)
    ensures
        uninstall_commands_gives(commands),
        commands@.len() == 2,
        commands@[0].calls("systemctl"@, seq!["stop"@, SERVICE@]),
        commands@[1].calls("systemctl"@, seq!["disable"@, SERVICE@, "--quiet"@]),
        commands@[0].env is None,
        commands@[1].env is None,
{
    let args = vec!["disable", SERVICE, "--quiet"];
    assert(words_of(args@) =~= seq!["disable"@, SERVICE@, "--quiet"@]);
    vec![service_command(ServiceAction::Stop), CommandSpec::new("systemctl", &args)]
}

/// Whether this is what [`reload_command`] gives.
pub open spec fn reload_command_gives(command: CommandSpec) -> bool {
    &&& command.calls("systemctl"@, seq!["daemon-reload"@])
    &&& command.env is None
}

/// The command that tells the service manager that its files have changed.
pub fn reload_command() -> (command: CommandSpec)
    ensures
        reload_command_gives(command),
        command.calls("systemctl"@, seq!["daemon-reload"@]),
        command.env is None,
{
    let args = vec!["daemon-reload"];
    assert(words_of(args@) =~= seq!["daemon-reload"@]);
    CommandSpec::new("systemctl", &args)
}

/// Whether this is what [`leftovers`] gives.
pub open spec fn leftovers_gives(list: Vec<Leftover>) -> bool {
    &&& removals(list@) == seq![
        ("/etc/systemd/system/nobase.service"@, false, true, "  ✓ Systemd service removed"@),
        ("/etc/nobase"@, true, true, "  ✓ Configuration removed (/etc/nobase)"@),
        ("/var/log/nobase.log"@, false, false, "  ✓ Log file removed"@),
        ("/var/lib/nobase/metrics.db"@, false, false, "  ✓ Metrics database removed"@),
        (
            "/usr/local/bin/nobase-uninstall"@,
            false,
            false,
            "  ✓ Legacy uninstall script removed"@,
        ),
        ("/usr/local/bin/nobase"@, false, true, "  ✓ Binary removed"@),
    ]
    &&& forall|i: int|
        0 <= i < list@.len() ==> (#[trigger] list@[i]).reload == (i == 0) && (
        list@[i].parent is Some) == (i == 3)
    &&& list@[3].parent matches Some(path) && path@ == "/var/lib/nobase"@
}

/// What the agent leaves on a host, in the order in which it is removed; the
/// binary comes last.
pub fn leftovers() -> (list: Vec<Leftover>)
    ensures
        leftovers_gives(list),
        removals(list@) == seq![
            ("/etc/systemd/system/nobase.service"@, false, true, "  ✓ Systemd service removed"@),
            ("/etc/nobase"@, true, true, "  ✓ Configuration removed (/etc/nobase)"@),
            ("/var/log/nobase.log"@, false, false, "  ✓ Log file removed"@),
            ("/var/lib/nobase/metrics.db"@, false, false, "  ✓ Metrics database removed"@),
            (
                "/usr/local/bin/nobase-uninstall"@,
                false,
                false,
                "  ✓ Legacy uninstall script removed"@,
            ),
            ("/usr/local/bin/nobase"@, false, true, "  ✓ Binary removed"@),
        ],
        forall|i: int|
            0 <= i < list@.len() ==> (#[trigger] list@[i]).reload == (i == 0) && (
            list@[i].parent is Some) == (i == 3),
        list@[3].parent matches Some(path) && path@ == "/var/lib/nobase"@,
{
    let mut unit = leftover(
        "/etc/systemd/system/nobase.service",
        false,
        true,
        "  ✓ Systemd service removed",
    );
    unit.reload = true;
    let mut database = leftover(
        "/var/lib/nobase/metrics.db",
        false,
        false,
        "  ✓ Metrics database removed",
    );
    database.parent = Some(String::from_str("/var/lib/nobase"));
    let list = vec![
        unit,
        leftover("/etc/nobase", true, true, "  ✓ Configuration removed (/etc/nobase)"),
        leftover("/var/log/nobase.log", false, false, "  ✓ Log file removed"),
        database,
        leftover(
            "/usr/local/bin/nobase-uninstall",
            false,
            false,
            "  ✓ Legacy uninstall script removed",
        ),
        leftover("/usr/local/bin/nobase", false, true, "  ✓ Binary removed"),
    ];
    assert(removals(list@) =~= seq![
        ("/etc/systemd/system/nobase.service"@, false, true, "  ✓ Systemd service removed"@),
        ("/etc/nobase"@, true, true, "  ✓ Configuration removed (/etc/nobase)"@),
        ("/var/log/nobase.log"@, false, false, "  ✓ Log file removed"@),
        ("/var/lib/nobase/metrics.db"@, false, false, "  ✓ Metrics database removed"@),
        (
            "/usr/local/bin/nobase-uninstall"@,
            false,
            false,
            "  ✓ Legacy uninstall script removed"@,
        ),
        ("/usr/local/bin/nobase"@, false, true, "  ✓ Binary removed"@),
    ]);
    list
}

} // verus!
