//! Field prompts: a raw field reference name turned into something a form can
//! render.

use vstd::prelude::*;
use crate::text::{contains_text, has_substring, text_eq};

verus! {

/// The input kind of a prompt.
#[derive(PartialEq, Eq, Structural, Clone, Copy, Debug)]
pub enum FieldKind {
    Number,
    Text,
    Picklist,
    Identity,
    DateTime,
}

impl FieldKind {
    /// The wire name of the kind.
    pub open spec fn spec_name(self) -> Seq<char> {
        match self {
            FieldKind::Number => "number"@,
            FieldKind::Text => "string"@,
            FieldKind::Picklist => "picklist"@,
            FieldKind::Identity => "identity"@,
            FieldKind::DateTime => "datetime"@,
        }
    }

    /// The wire name of the kind: `number`, `string`, `picklist`, `identity`
    /// or `datetime`.
    pub fn as_str(&self) -> (r: &'static str)
        ensures
            r@ == self.spec_name(),
    {
        match self {
            FieldKind::Number => "number",
            FieldKind::Text => "string",
            FieldKind::Picklist => "picklist",
            FieldKind::Identity => "identity",
            FieldKind::DateTime => "datetime",
        }
    }
}

/// A prompt for one field that a transition requires.
#[derive(Clone, Debug)]
pub struct UiFieldPrompt {
    pub ref_name: String,
    pub label: String,
    pub kind: FieldKind,
    pub required: bool,
    pub allowed_values: Option<Vec<String>>,
    pub placeholder: Option<String>,
    pub default_value: Option<serde_json::Value>,
}

/// The curated entry for a well-known reference name: label, kind and
/// placeholder.
pub open spec fn curated_entry(name: Seq<char>) -> Option<(Seq<char>, FieldKind, Seq<char>)> {
    if name == "Microsoft.VSTS.Scheduling.StoryPoints"@ {
        Some(("Story Points"@, FieldKind::Number, "Enter story points"@))
    } else if name == "System.AssignedTo"@ {
        Some(
            (
                "Assigned To"@,
                FieldKind::Identity,
                "Enter assignee or leave blank for current user"@,
            ),
        )
    } else if name == "Microsoft.VSTS.Common.Priority"@ {
        Some(("Priority"@, FieldKind::Number, "Enter priority (1-4)"@))
    } else if name == "Microsoft.VSTS.Scheduling.RemainingWork"@ {
        Some(("Remaining Work"@, FieldKind::Number, "Enter remaining work hours"@))
    } else if name == "Microsoft.VSTS.Common.AcceptanceCriteria"@ {
        Some(("Acceptance Criteria"@, FieldKind::Text, "Enter acceptance criteria"@))
    } else if name == "System.Description"@ {
        Some(("Description"@, FieldKind::Text, "Enter description"@))
    } else {
        None
    }
}

/// The kind guessed from the name's parts, rules tried top-down.
pub open spec fn guessed_kind(name: Seq<char>) -> FieldKind {
    if has_substring(name, "Points"@) || has_substring(name, "Priority"@) || has_substring(
        name,
        "Work"@,
    ) {
        FieldKind::Number
    } else if has_substring(name, "AssignedTo"@) || has_substring(name, "CreatedBy"@) {
        FieldKind::Identity
    } else if has_substring(name, "Date"@) || has_substring(name, "Time"@) {
        FieldKind::DateTime
    } else if has_substring(name, "State"@) || has_substring(name, "Reason"@) {
        FieldKind::Picklist
    } else {
        FieldKind::Text
    }
}

/// `p` is the prompt synthesized for the reference name `name`: curated
/// names get their label, kind and placeholder; any other name is its own
/// label, has the guessed kind and no placeholder. Every prompt is required
/// and carries neither allowed values nor a default.
pub open spec fn is_prompt_for(p: UiFieldPrompt, name: Seq<char>) -> bool {
    &&& p.ref_name@ == name
    &&& p.required
    &&& p.allowed_values is None
    &&& p.default_value is None
    &&& match curated_entry(name) {
        Some((label, kind, hint)) => {
            &&& p.label@ == label
            &&& p.kind == kind
            &&& p.placeholder is Some
            &&& p.placeholder->0@ == hint
        },
        None => {
            &&& p.label@ == name
            &&& p.kind == guessed_kind(name)
            &&& p.placeholder is None
        },
    }
}

fn curated_lookup(name: &str) -> (r: Option<(&'static str, FieldKind, &'static str)>)
    ensures
        match (curated_entry(name@), r) {
            (Some((label, kind, hint)), Some((l, k, h))) => l@ == label && k == kind && h@ == hint,
            (None, None) => true,
            _ => false,
        },
{
    if text_eq(name, "Microsoft.VSTS.Scheduling.StoryPoints") {
        Some(("Story Points", FieldKind::Number, "Enter story points"))
    } else if text_eq(name, "System.AssignedTo") {
        Some(
            (
                "Assigned To",
                FieldKind::Identity,
                "Enter assignee or leave blank for current user",
            ),
        )
    } else if text_eq(name, "Microsoft.VSTS.Common.Priority") {
        Some(("Priority", FieldKind::Number, "Enter priority (1-4)"))
    } else if text_eq(name, "Microsoft.VSTS.Scheduling.RemainingWork") {
        Some(("Remaining Work", FieldKind::Number, "Enter remaining work hours"))
    } else if text_eq(name, "Microsoft.VSTS.Common.AcceptanceCriteria") {
        Some(("Acceptance Criteria", FieldKind::Text, "Enter acceptance criteria"))
    } else if text_eq(name, "System.Description") {
        Some(("Description", FieldKind::Text, "Enter description"))
    } else {
        None
    }
}

fn guess_kind(name: &str) -> (r: FieldKind)
    ensures
        r == guessed_kind(name@),
{
    if contains_text(name, "Points") || contains_text(name, "Priority") || contains_text(
        name,
        "Work",
    ) {
        FieldKind::Number
    } else if contains_text(name, "AssignedTo") || contains_text(name, "CreatedBy") {
        FieldKind::Identity
    } else if contains_text(name, "Date") || contains_text(name, "Time") {
        FieldKind::DateTime
    } else if contains_text(name, "State") || contains_text(name, "Reason") {
        FieldKind::Picklist
    } else {
        FieldKind::Text
    }
}

/// Builds the prompt for one required field reference name.
pub fn create_simple_field_prompt(field_ref_name: &str) -> (r: UiFieldPrompt)
    ensures
        is_prompt_for(r, field_ref_name@),
{
    let (label, kind, placeholder) = match curated_lookup(field_ref_name) {
        Some((label, kind, hint)) => (String::from_str(label), kind, Some(String::from_str(hint))),
        None => (String::from_str(field_ref_name), guess_kind(field_ref_name), None),
    };
    UiFieldPrompt {
        ref_name: String::from_str(field_ref_name),
        label,
        kind,
        required: true,
        allowed_values: None,
        placeholder,
        default_value: None,
    }
}

/// Builds one prompt per name, in the order of the names.
pub fn prompts_for(names: &Vec<String>) -> (r: Vec<UiFieldPrompt>)
    ensures
        r.len() == names.len(),
        forall|i: int| 0 <= i < names.len() ==> is_prompt_for(#[trigger] r[i], names[i]@),
{
    let mut out: Vec<UiFieldPrompt> = Vec::new();
    let mut i: usize = 0;
    while i < names.len()
        invariant
            i <= names.len(),
            out.len() == i,
            forall|j: int| 0 <= j < i ==> is_prompt_for(#[trigger] out[j], names[j]@),
        decreases names.len() - i,
    {
        out.push(create_simple_field_prompt(names[i].as_str()));
        i = i + 1;
    }
    out
}

} // verus!
