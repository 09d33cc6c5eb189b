//! The Environments section: validating names and applying the results of
//! saving and deleting environments.

use vstd::prelude::*;
use crate::effects::Effect;
use crate::model::{RequestDraft, clone_kv_rows, clone_opt, opt_view};
use crate::records::{
    EnvironmentRecord, environment_index, find_environment, lemma_environment_index,
};
use crate::state::{
    EnvironmentFormState, Midway, RequestTabState, WorkspacePanelState,
    is_fresh_environment_form,
};
use crate::text::{decimal, decimal_string, is_blank, owned, push_str, trimmed};

verus! {

/// How many environments a workspace may hold.
pub const MAX_ENVIRONMENTS: usize = 100;

/// How many characters an environment name may have.
pub const MAX_ENVIRONMENT_NAME_LEN: usize = 100;

/// Another environment (not the one being edited) already has the name.
pub open spec fn name_taken(
    envs: Seq<EnvironmentRecord>,
    editing_id: Option<Seq<char>>,
    name: Seq<char>,
) -> bool {
    exists|i: int|
        0 <= i < envs.len() && (#[trigger] envs[i]).name@ == name && editing_id != Some(
            envs[i].id@,
        )
}

/// The verdict on an environment name: the trimmed name, or the first
/// rule it breaks (blank; longer than the limit; already taken; a new one
/// when the workspace is full).
pub open spec fn environment_name_verdict(
    envs: Seq<EnvironmentRecord>,
    editing_id: Option<Seq<char>>,
    raw: Seq<char>,
) -> Result<Seq<char>, Seq<char>> {
    let name = trimmed(raw);
    if name.len() == 0 {
        Err("El environment necesita un nombre."@)
    } else if name.len() > MAX_ENVIRONMENT_NAME_LEN {
        Err(
            "El nombre del environment no puede superar los "@ + decimal(
                MAX_ENVIRONMENT_NAME_LEN as nat,
            ) + " caracteres."@,
        )
    } else if name_taken(envs, editing_id, name) {
        Err("Ya existe un environment llamado \""@ + name + "\"."@)
    } else if editing_id is None && envs.len() >= MAX_ENVIRONMENTS {
        Err(
            "El workspace ya tiene el máximo de "@ + decimal(MAX_ENVIRONMENTS as nat)
                + " environments."@,
        )
    } else {
        Ok(name)
    }
}

pub fn validate_environment_name(
    environments: &Vec<EnvironmentRecord>,
    editing_id: Option<&str>,
    raw_name: &str,
) -> (r: Result<String, String>)
    ensures
        match (r, environment_name_verdict(environments@, match editing_id {
            Some(s) => Some(s@),
            None => None,
        }, raw_name@)) {
            (Ok(a), Ok(b)) => a@ == b,
            (Err(a), Err(b)) => a@ == b,
            _ => false,
        },
{
    let ghost editing = match editing_id {
        Some(s) => Some(s@),
        None => None,
    };
    let name = crate::text::trim(raw_name);
    if name.as_str().is_empty() {
        return Err(owned("El environment necesita un nombre."));
    }
    if name.as_str().unicode_len() > MAX_ENVIRONMENT_NAME_LEN {
        let mut message = owned("El nombre del environment no puede superar los ");
        push_str(&mut message, decimal_string(MAX_ENVIRONMENT_NAME_LEN as u64).as_str());
        push_str(&mut message, " caracteres.");
        return Err(message);
    }
    let mut i: usize = 0;
    while i < environments.len()
        invariant
            i <= environments@.len(),
            name@ == trimmed(raw_name@),
            name@.len() != 0,
            name@.len() <= MAX_ENVIRONMENT_NAME_LEN,
            editing == match editing_id {
                Some(s) => Some(s@),
                None => None,
            },
            forall|k: int|
                0 <= k < i ==> !((#[trigger] environments@[k]).name@ == name@ && editing != Some(
                    environments@[k].id@,
                )),
        decreases environments@.len() - i,
    {
        let same_name = environments[i].name == name;
        let same_id = match editing_id {
            Some(id) => crate::text::same_text(environments[i].id.as_str(), id),
            None => false,
        };
        if same_name && !same_id {
            assert(environments@[i as int].name@ == name@);
            assert(name_taken(environments@, editing, name@));
            let mut message = owned("Ya existe un environment llamado \"");
            push_str(&mut message, name.as_str());
            push_str(&mut message, "\".");
            return Err(message);
        }
        i = i + 1;
    }
    if editing_id.is_none() && environments.len() >= MAX_ENVIRONMENTS {
        let mut message = owned("El workspace ya tiene el máximo de ");
        push_str(&mut message, decimal_string(MAX_ENVIRONMENTS as u64).as_str());
        push_str(&mut message, " environments.");
        return Err(message);
    }
    Ok(name)
}

/// Submitting the environment form: an invalid name shows the verdict's
/// error; a valid one marks the section busy and asks the store to save
/// the environment (keeping the variables of the one being edited).
pub open spec fn environment_submitted_spec(pre: Midway, post: Midway, eff: Effect) -> bool {
    let form = pre.workspace_panel.environment_form;
    let envs = pre.workspace.environments@;
    match environment_name_verdict(envs, opt_view(form.editing_id), form.name_input@) {
        Err(msg) => {
            &&& eff is Nothing
            &&& post.workspace_panel.environment_form.error matches Some(e) && e@ == msg
            &&& post == Midway {
                workspace_panel: WorkspacePanelState {
                    environment_form: EnvironmentFormState {
                        error: post.workspace_panel.environment_form.error,
                        ..form
                    },
                    ..pre.workspace_panel
                },
                ..pre
            }
        },
        Ok(name) => {
            &&& post == Midway {
                workspace_panel: WorkspacePanelState {
                    environment_form: EnvironmentFormState { error: None, ..form },
                    environment_busy: true,
                    ..pre.workspace_panel
                },
                ..pre
            }
            &&& eff matches Effect::SaveEnvironment { environment_id, name: n, variables } && {
                &&& environment_id == form.editing_id
                &&& n@ == name
                &&& variables@ == match form.editing_id {
                    Some(id) => match environment_index(envs, id@) {
                        Some(j) => envs[j].variables@,
                        None => Seq::empty(),
                    },
                    None => Seq::empty(),
                }
            }
        },
    }
}

pub fn handle_environment_submitted(state: &mut Midway) -> (eff: Effect)
    ensures
        environment_submitted_spec(*old(state), *final(state), eff),
{
    let editing_id = clone_opt(&state.workspace_panel.environment_form.editing_id);
    let editing_ref = match &editing_id {
        Some(id) => Some(id.as_str()),
        None => None,
    };
    let name = match validate_environment_name(
        &state.workspace.environments,
        editing_ref,
        state.workspace_panel.environment_form.name_input.as_str(),
    ) {
        Ok(name) => name,
        Err(message) => {
            state.workspace_panel.environment_form.error = Some(message);
            return Effect::Nothing;
        },
    };
    let variables = match &editing_id {
        Some(id) => {
            proof {
                lemma_environment_index(state.workspace.environments@, id@);
            }
            match find_environment(&state.workspace.environments, id.as_str()) {
                Some(j) => clone_kv_rows(&state.workspace.environments[j].variables),
                None => Vec::new(),
            }
        },
        None => Vec::new(),
    };
    state.workspace_panel.environment_form.error = None;
    state.workspace_panel.environment_busy = true;
    Effect::SaveEnvironment { environment_id: editing_id, name, variables }
}

/// The result of saving an environment: the section is no longer busy; the
/// saved environment replaces the one with its id (or is added) and the
/// form resets; an error shows in the form.
pub open spec fn environment_saved_spec(pre: Midway, post: Midway, result: Result<EnvironmentRecord, String>) -> bool {
    let panel = pre.workspace_panel;
    match result {
        Ok(saved) => {
            &&& post.workspace.environments@ == match environment_index(
                pre.workspace.environments@,
                saved.id@,
            ) {
                Some(j) => pre.workspace.environments@.update(j, saved),
                None => pre.workspace.environments@.push(saved),
            }
            &&& post.workspace.collections == pre.workspace.collections
            &&& is_fresh_environment_form(post.workspace_panel.environment_form)
            &&& post == Midway {
                workspace: post.workspace,
                workspace_panel: WorkspacePanelState {
                    environment_busy: false,
                    environment_form: post.workspace_panel.environment_form,
                    ..panel
                },
                ..pre
            }
        },
        Err(e) => post == Midway {
            workspace_panel: WorkspacePanelState {
                environment_busy: false,
                environment_form: EnvironmentFormState { error: Some(e), ..panel.environment_form },
                ..panel
            },
            ..pre
        },
    }
}

pub fn handle_environment_saved_result(state: &mut Midway, result: Result<EnvironmentRecord, String>)
    ensures
        environment_saved_spec(*old(state), *final(state), result),
{
    state.workspace_panel.environment_busy = false;
    match result {
        Ok(saved) => {
            proof {
                lemma_environment_index(state.workspace.environments@, saved.id@);
            }
            let ghost pre = state.workspace.environments@;
            match find_environment(&state.workspace.environments, saved.id.as_str()) {
                Some(j) => {
                    state.workspace.environments.set(j, saved);
                },
                None => {
                    state.workspace.environments.push(saved);
                },
            }
            state.workspace_panel.environment_form = EnvironmentFormState::default();
        },
        Err(message) => {
            state.workspace_panel.environment_form.error = Some(message);
        },
    }
}

/// The tab no longer selects the environment `id`.
pub open spec fn tab_without_environment(t: RequestTabState, u: RequestTabState, id: Seq<char>) -> bool {
    if opt_view(t.draft.environment_id) == Some(id) {
        u == RequestTabState { draft: RequestDraft { environment_id: None, ..t.draft }, ..t }
    } else {
        u == t
    }
}

/// The environment does not have the id `id`.
pub open spec fn env_lacks_id(id: Seq<char>) -> spec_fn(EnvironmentRecord) -> bool {
    |e: EnvironmentRecord| e.id@ != id
}

/// The result of deleting the environment `id`: the section is no longer
/// busy; on success it leaves the workspace, a form editing it resets, and
/// no tab selects it any more; an error shows in the form.
pub open spec fn environment_deleted_spec(pre: Midway, post: Midway, id: String, result: Result<(), String>) -> bool {
    let panel = pre.workspace_panel;
    match result {
        Ok(()) => {
            &&& post.workspace.environments@ == pre.workspace.environments@.filter(
                env_lacks_id(id@),
            )
            &&& post.workspace.collections == pre.workspace.collections
            &&& if opt_view(panel.environment_form.editing_id) == Some(id@) {
                is_fresh_environment_form(post.workspace_panel.environment_form)
            } else {
                post.workspace_panel.environment_form == panel.environment_form
            }
            &&& post.tabs@.len() == pre.tabs@.len()
            &&& forall|k: int|
                0 <= k < pre.tabs@.len() ==> tab_without_environment(
                    #[trigger] pre.tabs@[k],
                    post.tabs@[k],
                    id@,
                )
            &&& post == Midway {
                workspace: post.workspace,
                tabs: post.tabs,
                workspace_panel: WorkspacePanelState {
                    environment_busy: false,
                    environment_form: post.workspace_panel.environment_form,
                    ..panel
                },
                ..pre
            }
        },
        Err(e) => post == Midway {
            workspace_panel: WorkspacePanelState {
                environment_busy: false,
                environment_form: EnvironmentFormState { error: Some(e), ..panel.environment_form },
                ..panel
            },
            ..pre
        },
    }
}

fn remove_environment(envs: &mut Vec<EnvironmentRecord>, id: &str)
    ensures
        final(envs)@ == old(envs)@.filter(env_lacks_id(id@)),
{
    let ghost pre = envs@;
    let ghost p = env_lacks_id(id@);
    let mut kept: Vec<EnvironmentRecord> = Vec::new();
    let mut rest: Vec<EnvironmentRecord> = Vec::new();
    std::mem::swap(envs, &mut rest);
    assert(rest.len() == pre.len());
    assert(pre.subrange(0, 0).filter(p) =~= Seq::<EnvironmentRecord>::empty()) by {
        reveal(Seq::filter);
    }
    let mut i: usize = 0;
    while rest.len() > 0
        invariant
            i + rest@.len() == pre.len(),
            pre.len() <= usize::MAX,
            rest@ == pre.subrange(i as int, pre.len() as int),
            kept@ == pre.subrange(0, i as int).filter(p),
            p == env_lacks_id(id@),
        decreases rest@.len(),
    {
        let env = rest.remove(0);
        proof {
            crate::seqs::lemma_filter_step(pre, p, i as int);
        }
        if !crate::text::same_text(env.id.as_str(), id) {
            kept.push(env);
        }
        i = i + 1;
        assert(rest@ =~= pre.subrange(i as int, pre.len() as int));
    }
    assert(pre.subrange(0, pre.len() as int) =~= pre);
    *envs = kept;
}

pub fn handle_environment_deleted_result(
    state: &mut Midway,
    environment_id: String,
    result: Result<(), String>,
)
    ensures
        environment_deleted_spec(*old(state), *final(state), environment_id, result),
{
    state.workspace_panel.environment_busy = false;
    match result {
        Ok(()) => {
            remove_environment(&mut state.workspace.environments, environment_id.as_str());
            if crate::model::opt_is(
                &state.workspace_panel.environment_form.editing_id,
                &environment_id,
            ) {
                state.workspace_panel.environment_form = EnvironmentFormState::default();
            }
            let ghost pre_tabs = state.tabs@;
            let ghost before = *state;
            let mut k: usize = 0;
            while k < state.tabs.len()
                invariant
                    *state == (Midway { tabs: state.tabs, ..before }),
                    state.tabs@.len() == pre_tabs.len(),
                    k <= pre_tabs.len(),
                    forall|m: int| k <= m < pre_tabs.len() ==> state.tabs@[m] == pre_tabs[m],
                    forall|m: int|
                        0 <= m < k ==> tab_without_environment(
                            #[trigger] pre_tabs[m],
                            state.tabs@[m],
                            environment_id@,
                        ),
                decreases pre_tabs.len() - k,
            {
                if crate::model::opt_is(&state.tabs[k].draft.environment_id, &environment_id) {
                    state.tabs[k].draft.environment_id = None;
                }
                k = k + 1;
            }
        },
        Err(message) => {
            state.workspace_panel.environment_form.error = Some(message);
        },
    }
}

} // verus!
