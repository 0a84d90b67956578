//! Containers of a worktree's compose project, as the container collaborator
//! reports them.

use vstd::prelude::*;
use vstd::string::*;
use crate::text::{opt_text, push_str, same_text, string_of};

verus! {

/// One container: the label it is listed under, its name and its state.
#[derive(Debug, Clone)]
pub struct DockerContainer {
    pub service: String,
    pub name: String,
    pub status: String,
}

/// The mathematical value of a container.
pub struct ContainerView {
    pub service: Seq<char>,
    pub name: Seq<char>,
    pub status: Seq<char>,
}

impl View for DockerContainer {
    type V = ContainerView;

    open spec fn view(&self) -> ContainerView {
        ContainerView { service: self.service@, name: self.name@, status: self.status@ }
    }
}

/// An optional text, or the empty text.
pub open spec fn or_empty(text: Option<Seq<char>>) -> Seq<char> {
    match text {
        Some(value) => value,
        None => seq![],
    }
}

/// The label of a container: its service unless that is missing or empty,
/// else its name, else `unknown`.
pub open spec fn container_label(name: Option<Seq<char>>, service: Option<Seq<char>>) -> Seq<char> {
    match service {
        Some(text) => if text.len() > 0 {
            text
        } else {
            match name {
                Some(own) => own,
                None => "unknown"@,
            }
        },
        None => match name {
            Some(own) => own,
            None => "unknown"@,
        },
    }
}

/// The state of a container with its health, if it has one, in brackets.
pub open spec fn container_status(state: Option<Seq<char>>, health: Option<Seq<char>>) -> Seq<char> {
    let base = or_empty(state);
    match health {
        Some(text) => if text.len() == 0 {
            base
        } else if base.len() > 0 {
            base + seq![' ', '('] + text + seq![')']
        } else {
            seq!['('] + text + seq![')']
        },
        None => base,
    }
}

/// The line shown for a container: its service, with the name in brackets
/// where the two differ, then its status or `unknown`.
pub open spec fn container_line(container: ContainerView) -> Seq<char> {
    (if container.service.len() == 0 {
        container.name
    } else if container.name.len() == 0 || container.service == container.name {
        container.service
    } else {
        container.service + seq![' ', '('] + container.name + seq![')']
    }) + " \u{2014} "@ + if container.status.len() == 0 {
        "unknown"@
    } else {
        container.status
    }
}

/// The container that one entry of the report describes.
pub fn container_from_entry(
    name: Option<String>,
    service: Option<String>,
    state: Option<String>,
    health: Option<String>,
) -> (container: DockerContainer)
    ensures
        container@ == (ContainerView {
            service: container_label(opt_text(name), opt_text(service)),
            name: or_empty(opt_text(name)),
            status: container_status(opt_text(state), opt_text(health)),
        }),
{
    let own = match &name {
        Some(text) => text.clone(),
        None => String::new(),
    };
    let fallback = match &name {
        Some(text) => text.clone(),
        None => "unknown".to_owned(),
    };
    let label = match service {
        Some(text) => if text.as_str().unicode_len() > 0 {
            text
        } else {
            fallback
        },
        None => fallback,
    };
    let mut status: Vec<char> = Vec::new();
    match &state {
        Some(text) => {
            push_str(&mut status, text.as_str());
        },
        None => {},
    }
    match &health {
        Some(text) => {
            if text.as_str().unicode_len() > 0 {
                if status.len() > 0 {
                    status.push(' ');
                }
                status.push('(');
                push_str(&mut status, text.as_str());
                status.push(')');
            }
        },
        None => {},
    }
    assert(status@ =~= container_status(opt_text(state), opt_text(health)));
    DockerContainer { service: label, name: own, status: string_of(&status) }
}

/// The line shown for a container.
pub fn describe_container(container: &DockerContainer) -> (line: String)
    ensures
        line@ == container_line(container@),
{
    let mut out: Vec<char> = Vec::new();
    if container.service.as_str().unicode_len() == 0 {
        push_str(&mut out, container.name.as_str());
    } else if container.name.as_str().unicode_len() == 0 || same_text(
        container.service.as_str(),
        container.name.as_str(),
    ) {
        push_str(&mut out, container.service.as_str());
    } else {
        push_str(&mut out, container.service.as_str());
        out.push(' ');
        out.push('(');
        push_str(&mut out, container.name.as_str());
        out.push(')');
    }
    push_str(&mut out, " \u{2014} ");
    if container.status.as_str().unicode_len() == 0 {
        push_str(&mut out, "unknown");
    } else {
        push_str(&mut out, container.status.as_str());
    }
    assert(out@ =~= container_line(container@));
    string_of(&out)
}

} // verus!
