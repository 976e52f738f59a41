use ado_transitions::config::{
    credentials_from, default_project, project_list, token_error_message, user_profile_from,
    AccountSummary, CredentialError, TokenCheckError,
};

fn s(v: &str) -> Option<String> {
    Some(v.to_string())
}

#[test]
fn credentials_are_trimmed() {
    let c = credentials_from(s("  contoso "), s("\tpat-0042\n"), s(" Web ")).unwrap();
    assert_eq!(c.organization, "contoso");
    assert_eq!(c.personal_access_token, "pat-0042");
    assert_eq!(c.project.as_deref(), Some("Web"));
    let blank = credentials_from(s("o"), s("p"), s("   ")).unwrap();
    assert_eq!(blank.project, None);
    assert_eq!(credentials_from(s("o"), s("p"), None).unwrap().project, None);
}

#[test]
fn credential_problems_are_reported_in_order() {
    assert_eq!(credentials_from(None, None, None).err(), Some(CredentialError::MissingOrganization));
    assert_eq!(credentials_from(s(" "), None, None).err(), Some(CredentialError::MissingToken));
    assert_eq!(credentials_from(s(" "), s(" "), None).err(), Some(CredentialError::EmptyOrganization));
    assert_eq!(credentials_from(s("o"), s(""), None).err(), Some(CredentialError::EmptyToken));
    assert_eq!(
        CredentialError::MissingOrganization.message(),
        "ADO_ORGANIZATION environment variable not found"
    );
    assert_eq!(CredentialError::MissingToken.message(), "ADO_PAT environment variable not found");
    assert_eq!(CredentialError::EmptyOrganization.message(), "ADO_ORGANIZATION cannot be empty");
    assert_eq!(CredentialError::EmptyToken.message(), "ADO_PAT cannot be empty");
}

#[test]
fn project_setting_is_split_and_trimmed() {
    assert_eq!(project_list(" Web , ,Api,, Mobile "), vec!["Web", "Api", "Mobile"]);
    assert_eq!(project_list("Solo"), vec!["Solo"]);
    assert!(project_list("").is_empty());
    assert!(project_list(" , ").is_empty());
}

#[test]
fn default_project_is_first_piece() {
    assert_eq!(default_project(None), "DefaultProject");
    assert_eq!(default_project(s(" Web , Api")), "Web");
    assert_eq!(default_project(s(",Api")), "");
}

#[test]
fn token_errors_are_explained() {
    assert_eq!(
        token_error_message("HttpError { status: 401 }", "contoso"),
        "Invalid or expired Personal Access Token. Please check your PAT in Azure DevOps settings."
    );
    assert_eq!(
        token_error_message("Unauthorized", "contoso"),
        "Invalid or expired Personal Access Token. Please check your PAT in Azure DevOps settings."
    );
    assert_eq!(
        token_error_message("status 404", "contoso"),
        "Organization 'contoso' not found. Please verify the organization name."
    );
    assert_eq!(token_error_message("timeout", "contoso"), "Azure DevOps API error: timeout");
}

#[test]
fn profile_comes_from_first_account() {
    let accounts = vec![
        AccountSummary { account_name: s("First"), account_id: s("id-1") },
        AccountSummary { account_name: s("Second"), account_id: s("id-2") },
    ];
    let p = user_profile_from(accounts).unwrap();
    assert_eq!(p.display_name.as_deref(), Some("First"));
    assert_eq!(p.id.as_deref(), Some("id-1"));
    assert!(p.email_address.is_none());
    assert!(p.public_alias.is_none());
    let e = user_profile_from(vec![]).err().unwrap();
    assert_eq!(e, TokenCheckError::NoAccounts);
    assert_eq!(e.message(), "No user accounts found - PAT may not have proper permissions");
}
