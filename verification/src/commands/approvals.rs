//! The list of the tools whose calls need no approval.
use vstd::prelude::*;
use vstd::string::*;

use crate::app_state::{
    fresh, push_effect, AppState, AutoApprovePolicy, Effect, EffectView, Message,
    MessageContentView, MessagesScrollingState, ThemeColor, ToolPolicy,
};
use crate::text::{concat2, join, joined, list_contains};

verus! {

/// Whether the configuration names the tools that may be used at all.
pub open spec fn is_restricted(allowed: Option<Vec<String>>) -> bool {
    allowed matches Some(tools) && tools.len() > 0
}

/// The configuration lets the tool be used.
pub open spec fn allows(allowed: Option<Vec<String>>, tool: Seq<char>) -> bool {
    is_restricted(allowed) ==> allowed->0.deep_view().contains(tool)
}

/// A tool that may be used without asking.
pub open spec fn needs_no_approval(allowed: Option<Vec<String>>, policy: ToolPolicy) -> bool {
    policy.policy == AutoApprovePolicy::Auto && allows(allowed, policy.tool@)
}

/// The tools that may be used without asking, in the order of the settings.
pub open spec fn auto_approved(
    tools: Seq<ToolPolicy>,
    allowed: Option<Vec<String>>,
) -> Seq<Seq<char>> {
    tools.filter(|policy: ToolPolicy| needs_no_approval(allowed, policy)).map_values(
        |policy: ToolPolicy| policy.tool@,
    )
}

/// What the list shows on the screen.
pub open spec fn list_shown(state: AppState) -> EffectView {
    let allowed = state.configuration_state.allowed_tools;
    let tools = auto_approved(state.configuration_state.auto_approve_manager.tools@, allowed);
    if tools.len() > 0 {
        EffectView::ShowStyled(
            "Tools currently set to auto-approve: "@ + joined(tools, ", "@),
            ThemeColor::Yellow,
            ""@,
            ThemeColor::Yellow,
        )
    } else if is_restricted(allowed) {
        EffectView::ShowStyled(
            "No allowed tools are currently set to auto-approve."@,
            ThemeColor::Cyan,
            ""@,
            ThemeColor::Cyan,
        )
    } else {
        EffectView::ShowStyled(
            "No tools are currently set to auto-approve."@,
            ThemeColor::Cyan,
            ""@,
            ThemeColor::Cyan,
        )
    }
}

/// An empty line goes before the list, where there is one; nothing else changes.
pub open spec fn list_spaced(before: AppState, after: AppState) -> bool {
    let tools = auto_approved(
        before.configuration_state.auto_approve_manager.tools@,
        before.configuration_state.allowed_tools,
    );
    if tools.len() > 0 {
        &&& after.messages_scrolling_state.messages.deep_view()
            == before.messages_scrolling_state.messages.deep_view().push(
            fresh(MessageContentView::PlainText(""@)),
        )
        &&& after == (AppState {
            messages_scrolling_state: MessagesScrollingState {
                messages: after.messages_scrolling_state.messages,
                ..before.messages_scrolling_state
            },
            ..before
        })
    } else {
        after == before
    }
}

/// Whether the configuration lets the tool be used.
fn is_allowed(allowed: &Option<Vec<String>>, tool: &str) -> (res: bool)
    ensures
        res == allows(*allowed, tool@),
{
    match allowed {
        Some(tools) => tools.len() == 0 || list_contains(tools, tool),
        None => true,
    }
}

/// The tools that may be used without asking.
pub fn auto_approved_tools(tools: &Vec<ToolPolicy>, allowed: &Option<Vec<String>>) -> (res: Vec<
    String,
>)
    ensures
        res.deep_view() == auto_approved(tools@, *allowed),
{
    let ghost chosen = |policy: ToolPolicy| needs_no_approval(*allowed, policy);
    let ghost name = |policy: ToolPolicy| policy.tool@;
    let mut names: Vec<String> = Vec::new();
    proof {
        assert(tools@.take(0).filter(chosen) =~= Seq::empty());
        assert(names.deep_view() =~= tools@.take(0).filter(chosen).map_values(name));
    }
    for i in 0..tools.len()
        invariant
            chosen == (|policy: ToolPolicy| needs_no_approval(*allowed, policy)),
            name == (|policy: ToolPolicy| policy.tool@),
            names.deep_view() == tools@.take(i as int).filter(chosen).map_values(name),
    {
        let ghost before = names.deep_view();
        proof {
            assert(tools@.take(i + 1) =~= tools@.take(i as int).push(tools@[i as int]));
            tools@.take(i as int).lemma_filter_push(tools@[i as int], chosen);
        }
        if tools[i].policy == AutoApprovePolicy::Auto && is_allowed(
            allowed,
            tools[i].tool.as_str(),
        ) {
            names.push(tools[i].tool.clone());
            proof {
                assert(names.deep_view() =~= before.push(tools@[i as int].tool@));
                assert(tools@.take(i + 1).filter(chosen).map_values(name) =~= before.push(
                    tools@[i as int].tool@,
                ));
            }
        }
    }
    proof {
        assert(tools@.take(tools.len() as int) =~= tools@);
    }
    names
}

/// Shows which tools may be used without asking.
pub fn list_auto_approved_tools(state: &mut AppState, effects: &mut Vec<Effect>)
    ensures
        list_spaced(*old(state), *final(state)),
        final(effects).deep_view() == old(effects).deep_view().push(list_shown(*old(state))),
{
    let tools = auto_approved_tools(
        &state.configuration_state.auto_approve_manager.tools,
        &state.configuration_state.allowed_tools,
    );
    proof {
        assert(tools.deep_view().len() == tools.len());
    }
    if tools.len() > 0 {
        let text = concat2(
            "Tools currently set to auto-approve: ",
            join(&tools, ", ").as_str(),
        );
        state.messages_scrolling_state.push(Message::plain_text(""));
        push_effect(
            effects,
            Effect::ShowStyled(text, ThemeColor::Yellow, "".to_string(), ThemeColor::Yellow),
        );
        return ;
    }
    let restricted = match &state.configuration_state.allowed_tools {
        Some(names) => names.len() > 0,
        None => false,
    };
    let text = if restricted {
        "No allowed tools are currently set to auto-approve."
    } else {
        "No tools are currently set to auto-approve."
    };
    push_effect(
        effects,
        Effect::ShowStyled(text.to_string(), ThemeColor::Cyan, "".to_string(), ThemeColor::Cyan),
    );
}

} // verus!
