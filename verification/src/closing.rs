//! What the program prints when a session has ended.
use vstd::prelude::*;
use vstd::string::*;

use crate::ids::{format_uuid, uuid_text};
use crate::text::{concat2, concat3};
use crate::usage::LLMTokenUsage;

verus! {

/// The codes that colour the text of a terminal.
#[derive(Debug, PartialEq, Eq)]
pub struct TerminalColors {
    pub magenta: String,
    pub orange: String,
    pub reset: String,
}

/// How to resume the session.
pub open spec fn resume_text(command: Seq<char>) -> Seq<char> {
    "To resume, run:\n"@ + command + "\n"@
}

/// Where to see the session.
pub open spec fn browser_text(username: Seq<char>, session: Seq<char>) -> Seq<char> {
    "To view full session in browser:\nhttps://stakpak.dev/"@ + username + "/agent-sessions/"@
        + session
}

/// Where to complain.
pub open spec fn feedback_text(colors: TerminalColors) -> Seq<char> {
    colors.magenta@ + "Feedback or bug report?"@ + colors.reset@ + " "@ + colors.orange@
        + "Join our Discord:"@ + colors.reset@ + " "@ + colors.orange@
        + "https://discord.gg/c4HUkDD45d"@ + colors.reset@
}

/// The last lines of a session: how to resume it and where to see it, as far as that
/// is known, and where to complain, between empty lines.
pub open spec fn closing_texts(
    resume_command: Option<Seq<char>>,
    session_id: Option<u128>,
    username: Seq<char>,
    colors: TerminalColors,
) -> Seq<Seq<char>> {
    (match resume_command {
        Some(command) => seq![resume_text(command)],
        None => Seq::empty(),
    }) + (match session_id {
        Some(id) => seq![browser_text(username, uuid_text(id))],
        None => Seq::empty(),
    }) + seq![""@, feedback_text(colors), ""@]
}

/// Where to complain.
fn feedback_line(colors: &TerminalColors) -> (res: String)
    ensures
        res@ == feedback_text(*colors),
{
    let mut line = concat2(colors.magenta.as_str(), "Feedback or bug report?");
    line.append(colors.reset.as_str());
    line.append(" ");
    line.append(colors.orange.as_str());
    line.append("Join our Discord:");
    line.append(colors.reset.as_str());
    line.append(" ");
    line.append(colors.orange.as_str());
    line.append("https://discord.gg/c4HUkDD45d");
    line.append(colors.reset.as_str());
    line
}

/// The last lines of a session, one text for each print.
pub fn closing_lines(
    resume_command: Option<&str>,
    session_id: Option<u128>,
    username: &str,
    colors: &TerminalColors,
) -> (res: Vec<String>)
    ensures
        res.deep_view() == closing_texts(
            resume_command.deep_view(),
            session_id,
            username@,
            *colors,
        ),
{
    let mut lines: Vec<String> = Vec::new();
    if let Some(command) = resume_command {
        lines.push(concat3("To resume, run:\n", command, "\n"));
    }
    if let Some(id) = session_id {
        let mut line = concat3(
            "To view full session in browser:\nhttps://stakpak.dev/",
            username,
            "/agent-sessions/",
        );
        line.append(format_uuid(id).as_str());
        lines.push(line);
    }
    lines.push("".to_string());
    lines.push(feedback_line(colors));
    lines.push("".to_string());
    proof {
        assert(lines.deep_view() =~= closing_texts(
            resume_command.deep_view(),
            session_id,
            username@,
            *colors,
        ));
    }
    lines
}

/// Whether the usage of a session is printed: where there was any.
pub fn shows_usage(usage: &LLMTokenUsage) -> (res: bool)
    ensures
        res == (usage@.total > 0),
{
    usage.total_tokens > 0
}

/// How a model is named in the printed usage.
pub fn model_display(provider: &str, name: &str) -> (res: String)
    ensures
        res@ == provider@ + "/"@ + name@,
{
    concat3(provider, "/", name)
}

} // verus!
