//! Decisions at the start of the program.
use vstd::prelude::*;
use vstd::string::*;

use crate::text::{concat2, trim, trimmed};

verus! {

/// The prompt that analyses the infrastructure, with what a first look at it found.
pub open spec fn init_prompt_text(base: Seq<char>, discovery: Seq<char>) -> Seq<char> {
    if discovery.len() == 0 {
        base
    } else {
        base + "\n\n<discovery_results>\n"@ + trimmed(discovery) + "</discovery_results>"@
    }
}

/// The prompt that analyses the infrastructure, with what a first look at it found.
pub fn init_prompt(base: &str, discovery_output: &str) -> (res: String)
    ensures
        res@ == init_prompt_text(base@, discovery_output@),
{
    if discovery_output.is_empty() {
        return base.to_string();
    }
    let mut prompt = concat2(base, "\n\n<discovery_results>\n");
    prompt.append(trim(discovery_output));
    prompt.append("</discovery_results>");
    prompt
}

/// How a banner looks.
#[derive(Debug, Clone, Copy, PartialEq, Eq, Structural)]
pub enum BannerStyle {
    Info,
}

/// A banner that stays until its command is called.
#[derive(Debug, PartialEq, Eq)]
pub struct BannerMessage {
    pub text: String,
    pub style: BannerStyle,
    pub action: String,
}

/// The banner that offers to discover the infrastructure: shown unless the agent's
/// context already describes the user's apps. `describes_apps` is `None` where there
/// is no context.
pub fn init_banner(describes_apps: Option<bool>) -> (res: Option<BannerMessage>)
    ensures
        match res {
            Some(banner) => describes_apps != Some(true) && banner.style == BannerStyle::Info
                && banner.text@
                == "Run /init to auto-discover your apps, infra, and dependencies. Stakpak works better with context."@
                && banner.action@ == "/init"@,
            None => describes_apps == Some(true),
        },
{
    let described = match describes_apps {
        Some(described) => described,
        None => false,
    };
    if described {
        return None;
    }
    Some(
        BannerMessage {
            text:
                "Run /init to auto-discover your apps, infra, and dependencies. Stakpak works better with context.".to_string(),
            style: BannerStyle::Info,
            action: "/init".to_string(),
        },
    )
}

/// Where a session begins.
#[derive(Debug, PartialEq, Eq)]
pub enum StartFrom {
    /// The last checkpoint of a session.
    Session(String),
    /// A checkpoint.
    Checkpoint(String),
    /// Nothing.
    Scratch,
}

/// Where the session begins: a session that is named goes before a checkpoint.
pub fn start_from(session_id: Option<String>, checkpoint_id: Option<String>) -> (res: StartFrom)
    ensures
        res == (match (session_id, checkpoint_id) {
            (Some(session), _) => StartFrom::Session(session),
            (None, Some(checkpoint)) => StartFrom::Checkpoint(checkpoint),
            (None, None) => StartFrom::Scratch,
        }),
{
    match session_id {
        Some(session) => StartFrom::Session(session),
        None => match checkpoint_id {
            Some(checkpoint) => StartFrom::Checkpoint(checkpoint),
            None => StartFrom::Scratch,
        },
    }
}

} // verus!
