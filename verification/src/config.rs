//! Quick actions: shell commands the user has configured to start in a fresh
//! tab.

use vstd::prelude::*;
use vstd::string::*;
use crate::text::{opt_text, same_text, trim, trimmed};

verus! {

/// A configured command and the label it is listed under.
#[derive(Clone, Debug)]
pub struct QuickAction {
    pub label: String,
    pub command: String,
}

/// The mathematical value of a quick action.
pub struct ActionView {
    pub label: Seq<char>,
    pub command: Seq<char>,
}

impl View for QuickAction {
    type V = ActionView;

    open spec fn view(&self) -> ActionView {
        ActionView { label: self.label@, command: self.command@ }
    }
}

/// The values of a list of quick actions.
pub open spec fn action_views(actions: Seq<QuickAction>) -> Seq<ActionView> {
    Seq::new(actions.len(), |i: int| actions[i]@)
}

impl QuickAction {
    /// A copy of the action.
    pub fn duplicate(&self) -> (copy: Self)
        ensures
            copy@ == self@,
    {
        QuickAction { label: self.label.clone(), command: self.command.clone() }
    }
}

/// The quick action that one entry of the configuration gives: an entry with
/// a command whose type is `command` or missing. The label is the trimmed
/// label of the entry, or the command where the entry has no label or a
/// blank one.
pub open spec fn entry_action(
    label: Option<Seq<char>>,
    command: Option<Seq<char>>,
    kind: Option<Seq<char>>,
) -> Option<ActionView> {
    match command {
        None => None,
        Some(text) => if kind is Some && kind->0 != "command"@ {
            None
        } else {
            Some(
                ActionView {
                    label: match label {
                        Some(given) => if trim(given).len() == 0 {
                            text
                        } else {
                            trim(given)
                        },
                        None => text,
                    },
                    command: text,
                },
            )
        },
    }
}

/// The quick action that one entry of the configuration gives.
pub fn quick_action_from_entry(
    label: Option<String>,
    quick_command: Option<String>,
    entry_type: Option<String>,
) -> (action: Option<QuickAction>)
    ensures
        action is Some == entry_action(
            opt_text(label),
            opt_text(quick_command),
            opt_text(entry_type),
        ) is Some,
        action is Some ==> action->0@ == entry_action(
            opt_text(label),
            opt_text(quick_command),
            opt_text(entry_type),
        )->0,
{
    let command = match quick_command {
        Some(text) => text,
        None => {
            return None;
        },
    };
    match &entry_type {
        Some(kind) => {
            if !same_text(kind.as_str(), "command") {
                return None;
            }
        },
        None => {},
    }
    let shown = match &label {
        Some(given) => {
            let short = trimmed(given.as_str());
            if short.as_str().unicode_len() == 0 {
                command.clone()
            } else {
                short
            }
        },
        None => command.clone(),
    };
    Some(QuickAction { label: shown, command })
}

} // verus!
