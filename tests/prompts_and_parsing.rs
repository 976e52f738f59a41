use ado_transitions::patch::{field_path_of, probe_operations, state_change_operations, PatchOpKind, PatchValue};
use ado_transitions::parse::{merge_required_field_names, parse_required_fields_from_validation_error};
use ado_transitions::prompt::{create_simple_field_prompt, prompts_for, FieldKind};
use ado_transitions::text::{contains_text, split_commas, text_eq, trim_text};

fn owned(v: &[&str]) -> Vec<String> {
    v.iter().map(|s| s.to_string()).collect()
}

#[test]
fn curated_story_points_prompt() {
    let p = create_simple_field_prompt("Microsoft.VSTS.Scheduling.StoryPoints");
    assert_eq!(p.ref_name, "Microsoft.VSTS.Scheduling.StoryPoints");
    assert_eq!(p.label, "Story Points");
    assert_eq!(p.kind, FieldKind::Number);
    assert_eq!(p.kind.as_str(), "number");
    assert_eq!(p.placeholder.as_deref(), Some("Enter story points"));
    assert!(p.required);
    assert!(p.allowed_values.is_none());
    assert!(p.default_value.is_none());
}

#[test]
fn curated_entries_cover_the_table() {
    let assigned = create_simple_field_prompt("System.AssignedTo");
    assert_eq!(assigned.label, "Assigned To");
    assert_eq!(assigned.kind, FieldKind::Identity);
    assert_eq!(
        assigned.placeholder.as_deref(),
        Some("Enter assignee or leave blank for current user")
    );
    let priority = create_simple_field_prompt("Microsoft.VSTS.Common.Priority");
    assert_eq!(priority.label, "Priority");
    assert_eq!(priority.placeholder.as_deref(), Some("Enter priority (1-4)"));
    let remaining = create_simple_field_prompt("Microsoft.VSTS.Scheduling.RemainingWork");
    assert_eq!(remaining.label, "Remaining Work");
    assert_eq!(remaining.kind, FieldKind::Number);
    let criteria = create_simple_field_prompt("Microsoft.VSTS.Common.AcceptanceCriteria");
    assert_eq!(criteria.label, "Acceptance Criteria");
    assert_eq!(criteria.kind, FieldKind::Text);
    assert_eq!(criteria.kind.as_str(), "string");
    let description = create_simple_field_prompt("System.Description");
    assert_eq!(description.label, "Description");
    assert_eq!(description.placeholder.as_deref(), Some("Enter description"));
}

#[test]
fn unknown_names_fall_back_to_guessed_kinds() {
    let cases = [
        ("Custom.EffortPoints", FieldKind::Number, "number"),
        ("Custom.WorkLeft", FieldKind::Number, "number"),
        ("Custom.ReviewedBy.CreatedBy", FieldKind::Identity, "identity"),
        ("Custom.AssignedToTeam", FieldKind::Identity, "identity"),
        ("Microsoft.VSTS.Common.ResolvedDate", FieldKind::DateTime, "datetime"),
        ("Custom.StartTime", FieldKind::DateTime, "datetime"),
        ("Microsoft.VSTS.Common.ResolvedReason", FieldKind::Picklist, "picklist"),
        ("Custom.SubState", FieldKind::Picklist, "picklist"),
        ("Resolution", FieldKind::Text, "string"),
    ];
    for (name, kind, wire) in cases {
        let p = create_simple_field_prompt(name);
        assert_eq!(p.ref_name, name);
        assert_eq!(p.label, name);
        assert_eq!(p.kind, kind, "{}", name);
        assert_eq!(p.kind.as_str(), wire);
        assert!(p.placeholder.is_none());
        assert!(p.required);
    }
}

#[test]
fn guessing_follows_rule_order() {
    // "Priority" is tested before "Date": a name holding both is a number.
    assert_eq!(create_simple_field_prompt("Custom.PriorityDate").kind, FieldKind::Number);
    // "CreatedBy" is tested before "Time".
    assert_eq!(create_simple_field_prompt("Custom.TimeCreatedBy").kind, FieldKind::Identity);
    assert_eq!(FieldKind::Picklist.as_str(), "picklist");
}

#[test]
fn prompts_keep_name_order() {
    let ps = prompts_for(&owned(&["System.Description", "Resolution"]));
    assert_eq!(ps.len(), 2);
    assert_eq!(ps[0].ref_name, "System.Description");
    assert_eq!(ps[1].ref_name, "Resolution");
}

#[test]
fn example_rejection_yields_both_names() {
    let names = parse_required_fields_from_validation_error(
        "Field 'Resolution' is required (Microsoft.VSTS.Common.ResolvedReason)",
    );
    let mut sorted = names.clone();
    sorted.sort();
    assert_eq!(sorted, owned(&["Microsoft.VSTS.Common.ResolvedReason", "Resolution"]));
    assert_eq!(names, owned(&["Microsoft.VSTS.Common.ResolvedReason", "Resolution"]));
}

#[test]
fn parenthesised_names_need_a_dot() {
    let names = parse_required_fields_from_validation_error(
        "TF401320: Rule error for field Foo (Custom.Severity) (Severity) (System.State)",
    );
    assert_eq!(names, owned(&["Custom.Severity", "System.State"]));
}

#[test]
fn repeated_names_are_kept_once_where_first_seen() {
    let names = parse_required_fields_from_validation_error(
        "field 'Custom.A' is required; (Custom.B) (Custom.A) Field 'Custom.B' is required, field  'Other Name'  is  required",
    );
    assert_eq!(names, owned(&["Custom.B", "Custom.A", "Other Name"]));
}

#[test]
fn text_without_field_names_gives_none() {
    assert!(parse_required_fields_from_validation_error("").is_empty());
    assert!(parse_required_fields_from_validation_error(
        "TF401289: The state transition from Active to Closed is not allowed"
    )
    .is_empty());
    assert!(parse_required_fields_from_validation_error("FIELD 'X' is required").is_empty());
}

#[test]
fn merge_joins_in_first_seen_order() {
    let paren = vec![
        Some("Microsoft.VSTS.Common.ResolvedReason".to_string()),
        None,
        Some("NoDot".to_string()),
        Some("Custom.X".to_string()),
    ];
    let phrase = vec![Some("Resolution".to_string()), Some("Custom.X".to_string()), None];
    assert_eq!(
        merge_required_field_names(&paren, &phrase),
        owned(&["Microsoft.VSTS.Common.ResolvedReason", "Custom.X", "Resolution"])
    );
    assert!(merge_required_field_names(&vec![], &vec![]).is_empty());
}

#[test]
fn text_helpers() {
    assert!(text_eq("abc", "abc"));
    assert!(!text_eq("abc", "abd"));
    assert!(!text_eq("abc", "ab"));
    assert!(contains_text("Custom.StoryPoints", "Points"));
    assert!(contains_text("abc", ""));
    assert!(!contains_text("Poi", "Points"));
    assert_eq!(trim_text("  a b \t\n"), "a b");
    assert_eq!(trim_text(" \u{3000} "), "");
    assert_eq!(trim_text("\u{a0}x\u{2003}"), "x");
    assert_eq!(split_commas("a,,b, c"), owned(&["a", "", "b", " c"]));
    assert_eq!(split_commas(""), owned(&[""]));
    assert_eq!(split_commas(","), owned(&["", ""]));
}

#[test]
fn field_paths_and_probe_operations() {
    assert_eq!(field_path_of("System.State"), "/fields/System.State");
    let probe = probe_operations("Closed");
    assert_eq!(probe.len(), 1);
    assert_eq!(probe[0].op, PatchOpKind::Replace);
    assert!(matches!(&probe[0].value, PatchValue::Text(s) if s == "Closed"));
    let ops = state_change_operations(11, "Closed", Some("Done"));
    assert_eq!(ops.len(), 3);
    assert_eq!(ops[0].path, "/rev");
    assert!(matches!(ops[0].value, PatchValue::Int(11)));
    assert_eq!(ops[2].path, "/fields/System.Reason");
    assert!(matches!(&ops[2].value, PatchValue::Text(s) if s == "Done"));
}
