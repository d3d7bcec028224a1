//! Profiles, models and skills: what a change of them means for the session.
use vstd::prelude::*;
use vstd::string::*;

use super::{
    nothing, push, wait_after, waits, Directive, DirectiveView, Next, NextView, Session,
    SessionView, Step, StepView,
};
use crate::events::{InputEvent, InputEventView, Model, Skill};
use crate::text::{begins_with, has_prefix, list_contains, same_text};

verus! {

/// Telling the interface how a change of profile gets on.
pub open spec fn progress(text: Seq<char>) -> DirectiveView {
    DirectiveView::Send(InputEventView::ProfileSwitchProgress(text))
}

/// The user wants another profile: it is checked first.
pub open spec fn profile_requested(name: Seq<char>) -> StepView {
    StepView {
        directives: seq![
            DirectiveView::Send(InputEventView::ProfileSwitchRequested(name)),
            progress("Validating API key..."@),
        ],
        next: NextView::ValidateProfile(name),
    }
}

/// The profile was checked: the session ends for it, or goes on under the profile
/// it has.
pub open spec fn profile_checked(name: Seq<char>, error: Option<Seq<char>>) -> StepView {
    match error {
        None => StepView {
            directives: seq![
                progress("✓ API key validated"@),
                progress("Shutting down current session..."@),
                DirectiveView::Send(InputEventView::ProfileSwitchComplete(name)),
            ],
            next: NextView::SwitchProfile(name),
        },
        Some(error) => waits(
            seq![DirectiveView::Send(InputEventView::ProfileSwitchFailed(error))],
        ),
    }
}

/// A provider of models in the cloud that requests can be routed to.
pub open spec fn known_cloud_provider(provider: Seq<char>) -> bool {
    ||| provider == "anthropic"@
    ||| provider == "openai"@
    ||| provider == "google"@
    ||| provider == "gemini"@
    ||| provider == "amazon-bedrock"@
}

/// Requests for a model of `provider` go through this program's own provider:
/// where there is a key for that, none for `provider` itself, and it is a known
/// provider in the cloud.
pub open spec fn routed(
    has_stakpak_key: bool,
    has_direct_provider_key: bool,
    provider: Seq<char>,
) -> bool {
    has_stakpak_key && !has_direct_provider_key && provider != "stakpak"@ && known_cloud_provider(
        provider,
    )
}

/// The skills whose URI is among the chosen ones, in order.
pub open spec fn chosen(skills: Seq<Skill>, uris: Seq<Seq<char>>) -> Seq<Skill> {
    skills.filter(|skill: Skill| uris.contains(skill.uri@))
}

/// A skill that is kept on the server.
pub open spec fn is_remote(skill: Skill) -> bool {
    has_prefix(skill.uri@, "stakpak://"@)
}

/// The URIs of the skills that are kept on the server, in order.
pub open spec fn remote_uris(skills: Seq<Skill>) -> Seq<Seq<char>> {
    skills.filter(|skill: Skill| is_remote(skill)).map_values(|skill: Skill| skill.uri@)
}

/// Whether requests for a model of `provider` go through this program's own
/// provider.
pub fn routes_through_stakpak(
    has_stakpak_key: bool,
    has_direct_provider_key: bool,
    provider: &str,
) -> (res: bool)
    ensures
        res == routed(has_stakpak_key, has_direct_provider_key, provider@),
{
    has_stakpak_key && !has_direct_provider_key && !same_text(provider, "stakpak") && (same_text(
        provider,
        "anthropic",
    ) || same_text(provider, "openai") || same_text(provider, "google") || same_text(
        provider,
        "gemini",
    ) || same_text(provider, "amazon-bedrock"))
}

/// A skill is chosen exactly where it is there and its URI is among the chosen ones.
pub(crate) proof fn lemma_chosen(skills: Seq<Skill>, uris: Seq<Seq<char>>, skill: Skill)
    ensures
        chosen(skills, uris).contains(skill) <==> skills.contains(skill) && uris.contains(
            skill.uri@,
        ),
{
    let wanted = |skill: Skill| uris.contains(skill.uri@);
    if chosen(skills, uris).contains(skill) {
        skills.lemma_filter_contains_rev(wanted, skill);
        let i = choose|i: int|
            0 <= i < chosen(skills, uris).len() && chosen(skills, uris)[i] == skill;
        skills.lemma_filter_pred(wanted, i);
    }
    if skills.contains(skill) && uris.contains(skill.uri@) {
        let i = choose|i: int| 0 <= i < skills.len() && skills[i] == skill;
        skills.lemma_filter_contains(wanted, i);
    }
}

/// The chosen remote skills, and behind them the local ones.
pub fn choose_skills(
    remote_skills: &Vec<Skill>,
    selected_uris: &Vec<String>,
    local_skills: Vec<Skill>,
) -> (res: Vec<Skill>)
    ensures
        res@ == chosen(remote_skills@, selected_uris.deep_view()) + local_skills@,
        local_skills@.is_suffix_of(res@),
        forall|skill: Skill| #[trigger]
            res@.contains(skill) <==> local_skills@.contains(skill) || (remote_skills@.contains(skill)
                && selected_uris.deep_view().contains(skill.uri@)),
{
    let mut skills: Vec<Skill> = Vec::new();
    let ghost wanted = |skill: Skill| selected_uris.deep_view().contains(skill.uri@);
    proof {
        assert(remote_skills@.take(0) =~= Seq::empty());
        assert(skills@ =~= remote_skills@.take(0).filter(wanted));
    }
    for i in 0..remote_skills.len()
        invariant
            wanted == (|skill: Skill| selected_uris.deep_view().contains(skill.uri@)),
            skills@ == remote_skills@.take(i as int).filter(wanted),
    {
        proof {
            assert(remote_skills@.take(i + 1) =~= remote_skills@.take(i as int).push(
                remote_skills@[i as int],
            ));
            remote_skills@.take(i as int).lemma_filter_push(remote_skills@[i as int], wanted);
        }
        if list_contains(selected_uris, remote_skills[i].uri.as_str()) {
            skills.push(remote_skills[i].clone());
        }
    }
    proof {
        assert(remote_skills@.take(remote_skills.len() as int) =~= remote_skills@);
    }
    let ghost picked = skills@;
    let ghost local = local_skills@;
    let mut local_skills = local_skills;
    skills.append(&mut local_skills);
    proof {
        assert(local =~= skills@.subrange(skills.len() - local.len(), skills.len() as int));
        assert forall|skill: Skill| #[trigger]
            skills@.contains(skill) <==> local.contains(skill) || (remote_skills@.contains(skill)
                && selected_uris.deep_view().contains(skill.uri@)) by {
            lemma_chosen(remote_skills@, selected_uris.deep_view(), skill);
            if local.contains(skill) {
                let i = choose|i: int| 0 <= i < local.len() && local[i] == skill;
                assert(skills@[picked.len() + i] == skill);
            }
            if picked.contains(skill) {
                let i = choose|i: int| 0 <= i < picked.len() && picked[i] == skill;
                assert(skills@[i] == skill);
            }
            if skills@.contains(skill) {
                let i = choose|i: int| 0 <= i < skills@.len() && skills@[i] == skill;
                if i < picked.len() {
                    assert(picked[i] == skill);
                } else {
                    assert(local[i - picked.len()] == skill);
                }
            }
        }
    }
    skills
}

/// The URIs of the remote ones among the skills.
pub fn current_remote_uris(skills: &Vec<Skill>) -> (res: Vec<String>)
    ensures
        res.deep_view() == remote_uris(skills@),
{
    let mut uris: Vec<String> = Vec::new();
    let ghost kept = |skill: Skill| is_remote(skill);
    let ghost uri = |skill: Skill| skill.uri@;
    proof {
        assert(skills@.take(0) =~= Seq::empty());
        assert(uris.deep_view() =~= skills@.take(0).filter(kept).map_values(uri));
    }
    for i in 0..skills.len()
        invariant
            kept == (|skill: Skill| is_remote(skill)),
            uri == (|skill: Skill| skill.uri@),
            uris.deep_view() == skills@.take(i as int).filter(kept).map_values(uri),
    {
        let ghost before = uris.deep_view();
        proof {
            assert(skills@.take(i + 1) =~= skills@.take(i as int).push(skills@[i as int]));
            skills@.take(i as int).lemma_filter_push(skills@[i as int], kept);
        }
        if begins_with(skills[i].uri.as_str(), "stakpak://") {
            uris.push(skills[i].uri.clone());
            proof {
                assert(uris.deep_view() =~= before.push(skills[i as int].uri@));
                assert(uris.deep_view() =~= skills@.take(i + 1).filter(kept).map_values(uri));
            }
        }
    }
    proof {
        assert(skills@.take(skills.len() as int) =~= skills@);
    }
    uris
}

/// The skills of a new profile: the remote ones and behind them the local ones;
/// `None` where there is none at all.
pub fn merge_skills(remote_skills: Vec<Skill>, local_skills: Vec<Skill>) -> (res: Option<Vec<Skill>>)
    ensures
        match res {
            Some(skills) => skills@ == remote_skills@ + local_skills@ && skills@.len() > 0,
            None => remote_skills@.len() == 0 && local_skills@.len() == 0,
        },
{
    let mut skills = remote_skills;
    let mut local_skills = local_skills;
    skills.append(&mut local_skills);
    if skills.len() == 0 {
        None
    } else {
        Some(skills)
    }
}

/// Whether the program is started again inside the warden container: where the
/// profile asks for it and the program is not told to stay outside.
pub fn should_use_warden(warden_enabled: Option<bool>, skip_warden: bool) -> (res: bool)
    ensures
        res == (warden_enabled == Some(true) && !skip_warden),
{
    match warden_enabled {
        Some(enabled) => enabled && !skip_warden,
        None => false,
    }
}

impl Session {
    /// The user wants another profile.
    pub fn on_profile_requested(&self, name: String) -> (res: Step)
        ensures
            res.deep_view() == profile_requested(name@),
    {
        let mut directives = nothing();
        push(&mut directives, Directive::Send(InputEvent::ProfileSwitchRequested(name.clone())));
        push(
            &mut directives,
            Directive::Send(
                InputEvent::ProfileSwitchProgress("Validating API key...".to_string()),
            ),
        );
        Step { directives, next: Next::ValidateProfile(name) }
    }

    /// The profile was checked; `error` says why it cannot be switched to.
    pub fn on_profile_checked(&self, name: String, error: Option<String>) -> (res: Step)
        ensures
            res.deep_view() == profile_checked(name@, error.deep_view()),
    {
        let mut directives = nothing();
        match error {
            None => {
                push(
                    &mut directives,
                    Directive::Send(
                        InputEvent::ProfileSwitchProgress("✓ API key validated".to_string()),
                    ),
                );
                push(
                    &mut directives,
                    Directive::Send(
                        InputEvent::ProfileSwitchProgress(
                            "Shutting down current session...".to_string(),
                        ),
                    ),
                );
                push(
                    &mut directives,
                    Directive::Send(InputEvent::ProfileSwitchComplete(name.clone())),
                );
                Step { directives, next: Next::SwitchProfile(name) }
            },
            Some(error) => {
                push(&mut directives, Directive::Send(InputEvent::ProfileSwitchFailed(error)));
                wait_after(directives)
            },
        }
    }

    /// Changes to another model.
    pub fn switch_model(&mut self, model: Model)
        ensures
            final(self).deep_view() == (SessionView { model, ..old(self).deep_view() }),
    {
        self.model = model;
    }

    /// The chosen skills have changed: the next message of the user carries them.
    pub fn on_skills_changed(&mut self)
        ensures
            final(self).deep_view() == (SessionView {
                refresh_skills: true,
                ..old(self).deep_view()
            }),
    {
        self.should_refresh_skills_on_next_message = true;
    }
}

} // verus!
