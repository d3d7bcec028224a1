//! The registry of commands: those of the command palette and those of the dropdown
//! under the input.
use vstd::prelude::*;
use vstd::string::*;

use crate::app_state::{CommandSource, HelperCommand};
use crate::text::{contains, lowercase, occurs, to_lowercase};

verus! {

/// What a command of the palette does.
#[derive(Debug, Clone, Copy, PartialEq, Eq, Structural)]
pub enum CommandAction {
    OpenProfileSwitcher,
    OpenRulebookSwitcher,
    OpenSessions,
    OpenShortcuts,
    OpenShellMode,
    ResumeSession,
    ShowStatus,
    SubmitIssue,
    GetSupport,
    NewSession,
    ShowUsage,
    SwitchModel,
    PlanMode,
}

/// A command of the palette.
#[derive(Debug, PartialEq, Eq)]
pub struct Command {
    pub name: String,
    pub description: String,
    pub shortcut: String,
    pub action: CommandAction,
}

/// The model of a [`Command`].
pub struct CommandView {
    pub name: Seq<char>,
    pub description: Seq<char>,
    pub shortcut: Seq<char>,
    pub action: CommandAction,
}

impl DeepView for Command {
    type V = CommandView;

    open spec fn deep_view(&self) -> CommandView {
        CommandView {
            name: self.name@,
            description: self.description@,
            shortcut: self.shortcut@,
            action: self.action,
        }
    }
}

/// The slash command that does the same as an action of the palette; `None` where the
/// action has no slash command.
pub open spec fn action_id(action: CommandAction) -> Option<Seq<char>> {
    match action {
        CommandAction::OpenSessions => Some("/sessions"@),
        CommandAction::ResumeSession => Some("/resume"@),
        CommandAction::ShowStatus => Some("/status"@),
        CommandAction::SubmitIssue => Some("/issue"@),
        CommandAction::GetSupport => Some("/support"@),
        CommandAction::NewSession => Some("/new"@),
        CommandAction::ShowUsage => Some("/usage"@),
        CommandAction::SwitchModel => Some("/model"@),
        CommandAction::PlanMode => Some("/plan"@),
        CommandAction::OpenProfileSwitcher
        | CommandAction::OpenRulebookSwitcher
        | CommandAction::OpenShortcuts
        | CommandAction::OpenShellMode => None,
    }
}

impl CommandAction {
    /// The slash command that does the same.
    pub fn to_command_id(&self) -> (res: Option<&'static str>)
        ensures
            res.deep_view() == action_id(*self),
    {
        match self {
            CommandAction::OpenSessions => Some("/sessions"),
            CommandAction::ResumeSession => Some("/resume"),
            CommandAction::ShowStatus => Some("/status"),
            CommandAction::SubmitIssue => Some("/issue"),
            CommandAction::GetSupport => Some("/support"),
            CommandAction::NewSession => Some("/new"),
            CommandAction::ShowUsage => Some("/usage"),
            CommandAction::SwitchModel => Some("/model"),
            CommandAction::PlanMode => Some("/plan"),
            CommandAction::OpenProfileSwitcher
            | CommandAction::OpenRulebookSwitcher
            | CommandAction::OpenShortcuts
            | CommandAction::OpenShellMode => None,
        }
    }
}

impl Command {
    /// A command of the palette.
    pub fn new(name: &str, description: &str, shortcut: &str, action: CommandAction) -> (res: Self)
        ensures
            res.deep_view() == (CommandView {
                name: name@,
                description: description@,
                shortcut: shortcut@,
                action,
            }),
    {
        Command {
            name: name.to_string(),
            description: description.to_string(),
            shortcut: shortcut.to_string(),
            action,
        }
    }
}

impl Clone for Command {
    fn clone(&self) -> (res: Self)
        ensures
            res == *self,
    {
        Command {
            name: self.name.clone(),
            description: self.description.clone(),
            shortcut: self.shortcut.clone(),
            action: self.action,
        }
    }
}

/// An entry of the palette.
pub open spec fn entry(
    name: Seq<char>,
    description: Seq<char>,
    shortcut: Seq<char>,
    action: CommandAction,
) -> CommandView {
    CommandView { name, description, shortcut, action }
}

/// The commands of the palette, in order.
pub open spec fn palette() -> Seq<CommandView> {
    seq![
        entry(
            "Profiles"@,
            "Change active profile"@,
            "Ctrl+F"@,
            CommandAction::OpenProfileSwitcher,
        ),
        entry(
            "Rulebooks"@,
            "Select and switch rulebooks"@,
            "Ctrl+K"@,
            CommandAction::OpenRulebookSwitcher,
        ),
        entry(
            "Context"@,
            "Show context utilization popup"@,
            "Ctrl+G"@,
            CommandAction::ShowUsage,
        ),
        entry(
            "Shortcuts"@,
            "Show all keyboard shortcuts"@,
            "Ctrl+S"@,
            CommandAction::OpenShortcuts,
        ),
        entry(
            "Shell Mode"@,
            "Open interactive shell"@,
            "$"@,
            CommandAction::OpenShellMode,
        ),
        entry(
            "New Session"@,
            "Start a new session"@,
            "/new"@,
            CommandAction::NewSession,
        ),
        entry(
            "Sessions"@,
            "List and manage sessions"@,
            "/sessions"@,
            CommandAction::OpenSessions,
        ),
        entry(
            "Resume"@,
            "Resume last session"@,
            "/resume"@,
            CommandAction::ResumeSession,
        ),
        entry(
            "Usage"@,
            "Show token usage for this session"@,
            "/usage"@,
            CommandAction::ShowUsage,
        ),
        entry(
            "Status"@,
            "Show account information"@,
            "/status"@,
            CommandAction::ShowStatus,
        ),
        entry(
            "Submit Issue"@,
            "Submit issue on GitHub repo"@,
            "/issue"@,
            CommandAction::SubmitIssue,
        ),
        entry(
            "Get Help"@,
            "Go to Discord channel"@,
            "/support"@,
            CommandAction::GetSupport,
        ),
        entry(
            "Switch Model"@,
            "Switch to a different AI model"@,
            "Ctrl+M"@,
            CommandAction::SwitchModel,
        ),
        entry(
            "Plan Mode"@,
            "Enter plan mode — research and draft before executing"@,
            "/plan"@,
            CommandAction::PlanMode,
        ),
    ]
}

/// All commands of the palette.
pub fn get_all_commands() -> (res: Vec<Command>)
    ensures
        res.deep_view() == palette(),
{
    let commands = vec![
        Command::new(
            "Profiles",
            "Change active profile",
            "Ctrl+F",
            CommandAction::OpenProfileSwitcher,
        ),
        Command::new(
            "Rulebooks",
            "Select and switch rulebooks",
            "Ctrl+K",
            CommandAction::OpenRulebookSwitcher,
        ),
        Command::new(
            "Context",
            "Show context utilization popup",
            "Ctrl+G",
            CommandAction::ShowUsage,
        ),
        Command::new(
            "Shortcuts",
            "Show all keyboard shortcuts",
            "Ctrl+S",
            CommandAction::OpenShortcuts,
        ),
        Command::new(
            "Shell Mode",
            "Open interactive shell",
            "$",
            CommandAction::OpenShellMode,
        ),
        Command::new(
            "New Session",
            "Start a new session",
            "/new",
            CommandAction::NewSession,
        ),
        Command::new(
            "Sessions",
            "List and manage sessions",
            "/sessions",
            CommandAction::OpenSessions,
        ),
        Command::new(
            "Resume",
            "Resume last session",
            "/resume",
            CommandAction::ResumeSession,
        ),
        Command::new(
            "Usage",
            "Show token usage for this session",
            "/usage",
            CommandAction::ShowUsage,
        ),
        Command::new(
            "Status",
            "Show account information",
            "/status",
            CommandAction::ShowStatus,
        ),
        Command::new(
            "Submit Issue",
            "Submit issue on GitHub repo",
            "/issue",
            CommandAction::SubmitIssue,
        ),
        Command::new(
            "Get Help",
            "Go to Discord channel",
            "/support",
            CommandAction::GetSupport,
        ),
        Command::new(
            "Switch Model",
            "Switch to a different AI model",
            "Ctrl+M",
            CommandAction::SwitchModel,
        ),
        Command::new(
            "Plan Mode",
            "Enter plan mode — research and draft before executing",
            "/plan",
            CommandAction::PlanMode,
        ),
    ];
    assert(commands.deep_view() =~= palette());
    commands
}

/// A command of the dropdown without a prompt: its name and what it does.
pub struct HelperView {
    pub command: Seq<char>,
    pub description: Seq<char>,
}

/// A built-in command of the dropdown reads as `view`.
pub open spec fn is_built_in(helper: HelperCommand, view: HelperView) -> bool {
    &&& helper.command@ == view.command
    &&& helper.description@ == view.description
    &&& helper.source == CommandSource::BuiltIn
}

/// The built-in commands of the dropdown, in order.
pub open spec fn built_in_helpers() -> Seq<HelperView> {
    seq![
        HelperView {
            command: "/help"@,
            description: "Show help information and available commands"@,
        },
        HelperView {
            command: "/model"@,
            description: "Open model switcher to change AI model"@,
        },
        HelperView {
            command: "/clear"@,
            description: "Clear the screen and show welcome message"@,
        },
        HelperView {
            command: "/status"@,
            description: "Show account status and current working directory"@,
        },
        HelperView {
            command: "/sessions"@,
            description: "List available sessions to switch to"@,
        },
        HelperView {
            command: "/resume"@,
            description: "Resume the last session"@,
        },
        HelperView {
            command: "/new"@,
            description: "Start a new session"@,
        },
        HelperView {
            command: "/summarize"@,
            description: "Summarize the session into summary.md for later resume"@,
        },
        HelperView {
            command: "/usage"@,
            description: "Show token usage for this session"@,
        },
        HelperView {
            command: "/issue"@,
            description: "Report an issue or bug"@,
        },
        HelperView {
            command: "/editor"@,
            description: "Open file in external editor: /editor <path>"@,
        },
        HelperView {
            command: "/support"@,
            description: "Go to Discord support channel"@,
        },
        HelperView {
            command: "/list_approved_tools"@,
            description: "List all tools that are auto-approved"@,
        },
        HelperView {
            command: "/toggle_auto_approve"@,
            description: "Open Tool Approval settings or enable auto-approval for a specific tool: /toggle_auto_approve <tool name>"@,
        },
        HelperView {
            command: "/mouse_capture"@,
            description: "Toggle mouse capture on/off"@,
        },
        HelperView {
            command: "/profiles"@,
            description: "Switch to a different profile"@,
        },
        HelperView {
            command: "/quit"@,
            description: "Quit the application"@,
        },
        HelperView {
            command: "/shortcuts"@,
            description: "Show keyboard shortcuts"@,
        },
        HelperView {
            command: "/plan"@,
            description: "Enter plan mode: /plan [optional prompt]"@,
        },
        HelperView {
            command: "/init"@,
            description: "Analyze your infrastructure setup"@,
        },
    ]
}

/// A built-in command of the dropdown.
fn helper(command: &str, description: &str) -> (res: HelperCommand)
    ensures
        is_built_in(res, (HelperView { command: command@, description: description@ })),
{
    HelperCommand {
        command: command.to_string(),
        description: description.to_string(),
        source: CommandSource::BuiltIn,
    }
}

/// The built-in commands of the dropdown.
pub fn commands_to_helper_commands() -> (res: Vec<HelperCommand>)
    ensures
        res.len() == built_in_helpers().len(),
        forall|i: int| 0 <= i < res.len() ==> is_built_in(#[trigger] res[i], built_in_helpers()[i]),
{
    vec![
        helper(
            "/help",
            "Show help information and available commands",
        ),
        helper(
            "/model",
            "Open model switcher to change AI model",
        ),
        helper(
            "/clear",
            "Clear the screen and show welcome message",
        ),
        helper(
            "/status",
            "Show account status and current working directory",
        ),
        helper(
            "/sessions",
            "List available sessions to switch to",
        ),
        helper(
            "/resume",
            "Resume the last session",
        ),
        helper(
            "/new",
            "Start a new session",
        ),
        helper(
            "/summarize",
            "Summarize the session into summary.md for later resume",
        ),
        helper(
            "/usage",
            "Show token usage for this session",
        ),
        helper(
            "/issue",
            "Report an issue or bug",
        ),
        helper(
            "/editor",
            "Open file in external editor: /editor <path>",
        ),
        helper(
            "/support",
            "Go to Discord support channel",
        ),
        helper(
            "/list_approved_tools",
            "List all tools that are auto-approved",
        ),
        helper(
            "/toggle_auto_approve",
            "Open Tool Approval settings or enable auto-approval for a specific tool: /toggle_auto_approve <tool name>",
        ),
        helper(
            "/mouse_capture",
            "Toggle mouse capture on/off",
        ),
        helper(
            "/profiles",
            "Switch to a different profile",
        ),
        helper(
            "/quit",
            "Quit the application",
        ),
        helper(
            "/shortcuts",
            "Show keyboard shortcuts",
        ),
        helper(
            "/plan",
            "Enter plan mode: /plan [optional prompt]",
        ),
        helper(
            "/init",
            "Analyze your infrastructure setup",
        ),
    ]
}

/// A command whose name or description, in lower case, has the query in it.
pub open spec fn found_by(
    name_lower: Seq<char>,
    description_lower: Seq<char>,
    query_lower: Seq<char>,
) -> bool {
    occurs(name_lower, query_lower) || occurs(description_lower, query_lower)
}

/// The command answers the query, whatever the case of their letters.
pub open spec fn answers(command: CommandView, query: Seq<char>) -> bool {
    found_by(lowercase(command.name), lowercase(command.description), lowercase(query))
}

/// The commands of the palette that a query leaves: all of them where it is empty,
/// otherwise those that answer it, in order.
pub open spec fn left_by(query: Seq<char>) -> Seq<CommandView> {
    if query.len() == 0 {
        palette()
    } else {
        palette().filter(|command: CommandView| answers(command, query))
    }
}

/// Whether a command with this name and description, both in lower case, is found by a
/// query in lower case.
pub fn is_found_by(name_lower: &str, description_lower: &str, query_lower: &str) -> (res: bool)
    ensures
        res == found_by(name_lower@, description_lower@, query_lower@),
{
    contains(name_lower, query_lower) || contains(description_lower, query_lower)
}

/// The commands of the palette that a query leaves.
pub fn filter_commands(query: &str) -> (res: Vec<Command>)
    ensures
        res.deep_view() == left_by(query@),
{
    let mut commands = get_all_commands();
    if query.is_empty() {
        return commands;
    }
    let query_lower = to_lowercase(query);
    let ghost all = commands.deep_view();
    let ghost wanted = |command: CommandView| answers(command, query@);
    let mut left: Vec<Command> = Vec::new();
    proof {
        assert(all.skip(0) =~= all);
        assert(all.take(0) =~= Seq::empty());
        assert(left.deep_view() =~= all.take(0).filter(wanted));
    }
    let ghost mut seen: int = 0;
    while commands.len() > 0
        invariant
            wanted == (|command: CommandView| answers(command, query@)),
            query_lower@ == lowercase(query@),
            0 <= seen <= all.len(),
            commands.deep_view() == all.skip(seen),
            left.deep_view() == all.take(seen).filter(wanted),
        decreases commands.len(),
    {
        proof {
            assert(commands.deep_view().len() == all.len() - seen);
        }
        let ghost rest = commands.deep_view();
        let ghost before = left.deep_view();
        let command = commands.remove(0);
        proof {
            assert(command.deep_view() == rest[0]);
            assert(rest[0] == all[seen]);
            assert(commands.deep_view() =~= rest.drop_first());
            assert(rest.drop_first() =~= all.skip(seen + 1));
            assert(all.take(seen + 1) =~= all.take(seen).push(all[seen]));
            all.take(seen).lemma_filter_push(all[seen], wanted);
        }
        let name_lower = to_lowercase(command.name.as_str());
        let description_lower = to_lowercase(command.description.as_str());
        if is_found_by(name_lower.as_str(), description_lower.as_str(), query_lower.as_str()) {
            left.push(command);
            proof {
                assert(left.deep_view() =~= before.push(all[seen]));
            }
        }
        proof {
            seen = seen + 1;
        }
    }
    proof {
        assert(commands.deep_view().len() == all.len() - seen);
        assert(all.take(seen) =~= all);
    }
    left
}

} // verus!
