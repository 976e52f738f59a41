//! The connection settings: credentials, the configured projects, and what
//! a check of the access token reports.

use vstd::prelude::*;
use crate::text::{comma_pieces, contains_text, has_substring, is_trim_of, split_commas, trim_text};

verus! {

/// Credentials for the service.
pub struct AdoCredentials {
    pub organization: String,
    pub personal_access_token: String,
    pub project: Option<String>,
}

/// The profile of the account that a token belongs to.
pub struct UserProfile {
    pub display_name: Option<String>,
    pub email_address: Option<String>,
    pub id: Option<String>,
    pub public_alias: Option<String>,
}

/// An account as the service lists it.
pub struct AccountSummary {
    pub account_name: Option<String>,
    pub account_id: Option<String>,
}

/// Why the credential settings are unusable.
#[derive(PartialEq, Eq, Structural, Clone, Copy, Debug)]
pub enum CredentialError {
    MissingOrganization,
    MissingToken,
    EmptyOrganization,
    EmptyToken,
}

/// Why a token check failed.
#[derive(PartialEq, Eq, Structural, Clone, Copy, Debug)]
pub enum TokenCheckError {
    NoAccounts,
}

pub open spec fn credential_error_message(e: CredentialError) -> Seq<char> {
    match e {
        CredentialError::MissingOrganization => "ADO_ORGANIZATION environment variable not found"@,
        CredentialError::MissingToken => "ADO_PAT environment variable not found"@,
        CredentialError::EmptyOrganization => "ADO_ORGANIZATION cannot be empty"@,
        CredentialError::EmptyToken => "ADO_PAT cannot be empty"@,
    }
}

impl CredentialError {
    /// The text of the error, for the caller.
    pub fn message(&self) -> (r: String)
        ensures
            r@ == credential_error_message(*self),
    {
        match self {
            CredentialError::MissingOrganization => String::from_str(
                "ADO_ORGANIZATION environment variable not found",
            ),
            CredentialError::MissingToken => String::from_str("ADO_PAT environment variable not found"),
            CredentialError::EmptyOrganization => String::from_str("ADO_ORGANIZATION cannot be empty"),
            CredentialError::EmptyToken => String::from_str("ADO_PAT cannot be empty"),
        }
    }
}

impl TokenCheckError {
    /// The text of the error, for the caller.
    pub fn message(&self) -> (r: String)
        ensures
            r@ == "No user accounts found - PAT may not have proper permissions"@,
    {
        String::from_str("No user accounts found - PAT may not have proper permissions")
    }
}

/// The trimmed form of a setting, when there is one.
pub open spec fn trimmed_is(t: Seq<char>, s: Option<String>) -> bool {
    s is Some && is_trim_of(t, s->0@)
}

/// Builds the credentials from the organization, token and project
/// settings, each as read (absent when unset). The first problem found is
/// reported: a missing organization, a missing token, then an organization
/// or a token that is only white space. The values are kept trimmed; a
/// project that is only white space counts as none.
pub fn credentials_from(
    organization: Option<String>,
    personal_access_token: Option<String>,
    project: Option<String>,
) -> (r: Result<AdoCredentials, CredentialError>)
    ensures
        organization is None ==> r == Err::<AdoCredentials, CredentialError>(
            CredentialError::MissingOrganization,
        ),
        organization is Some && personal_access_token is None ==> r == Err::<
            AdoCredentials,
            CredentialError,
        >(CredentialError::MissingToken),
        organization is Some && personal_access_token is Some ==> match r {
            Err(e) => {
                ||| e == CredentialError::EmptyOrganization && trimmed_is(Seq::empty(), organization)
                ||| e == CredentialError::EmptyToken && !trimmed_is(Seq::empty(), organization)
                    && trimmed_is(Seq::empty(), personal_access_token)
            },
            Ok(c) => {
                &&& trimmed_is(c.organization@, organization)
                &&& trimmed_is(c.personal_access_token@, personal_access_token)
                &&& c.organization@.len() > 0
                &&& c.personal_access_token@.len() > 0
                &&& match c.project {
                    Some(p) => trimmed_is(p@, project) && p@.len() > 0,
                    None => project is None || trimmed_is(Seq::empty(), project),
                }
            },
        },
{
    let ghost org_setting = organization;
    let ghost token_setting = personal_access_token;
    let organization = match organization {
        Some(o) => o,
        None => {
            return Err(CredentialError::MissingOrganization);
        },
    };
    let token = match personal_access_token {
        Some(t) => t,
        None => {
            return Err(CredentialError::MissingToken);
        },
    };
    let org = trim_text(organization.as_str());
    let pat = trim_text(token.as_str());
    proof {
        lemma_trim_unique(organization@);
        lemma_trim_unique(token@);
        assert(org_setting->0 == organization);
        assert(token_setting->0 == token);
        if org@.len() == 0 {
            assert(org@ =~= Seq::<char>::empty());
        }
        if pat@.len() == 0 {
            assert(pat@ =~= Seq::<char>::empty());
        }
        assert(trimmed_is(org@, org_setting));
        assert(trimmed_is(pat@, token_setting));
    }
    if org.unicode_len() == 0 {
        return Err(CredentialError::EmptyOrganization);
    }
    if pat.unicode_len() == 0 {
        return Err(CredentialError::EmptyToken);
    }
    let project = match project {
        Some(p) => {
            let t = trim_text(p.as_str());
            proof {
                lemma_trim_unique(p@);
            }
            if t.unicode_len() == 0 {
                proof {
                    assert(t@ =~= Seq::<char>::empty());
                }
                None
            } else {
                Some(t)
            }
        },
        None => None,
    };
    Ok(AdoCredentials { organization: org, personal_access_token: pat, project })
}

/// `s` has one trimmed form.
pub proof fn lemma_trim_unique(s: Seq<char>)
    ensures
        forall|t1: Seq<char>, t2: Seq<char>|
            is_trim_of(t1, s) && is_trim_of(t2, s) ==> t1 == t2,
{
    assert forall|t1: Seq<char>, t2: Seq<char>| is_trim_of(t1, s) && is_trim_of(t2, s) implies t1
        == t2 by {
        let (i1, j1) = choose|i: int, j: int|
            {
                &&& 0 <= i <= j <= s.len()
                &&& t1 == s.subrange(i, j)
                &&& forall|k: int| 0 <= k < i ==> crate::text::is_white_space(#[trigger] s[k])
                &&& forall|k: int| j <= k < s.len() ==> crate::text::is_white_space(#[trigger] s[k])
                &&& i < j ==> !crate::text::is_white_space(s[i]) && !crate::text::is_white_space(
                    s[j - 1],
                )
                &&& i == j ==> i == s.len()
            };
        let (i2, j2) = choose|i: int, j: int|
            {
                &&& 0 <= i <= j <= s.len()
                &&& t2 == s.subrange(i, j)
                &&& forall|k: int| 0 <= k < i ==> crate::text::is_white_space(#[trigger] s[k])
                &&& forall|k: int| j <= k < s.len() ==> crate::text::is_white_space(#[trigger] s[k])
                &&& i < j ==> !crate::text::is_white_space(s[i]) && !crate::text::is_white_space(
                    s[j - 1],
                )
                &&& i == j ==> i == s.len()
            };
        if i1 < j1 && i2 < j2 {
            if i1 < i2 {
                assert(crate::text::is_white_space(s[i1]));
            }
            if i2 < i1 {
                assert(crate::text::is_white_space(s[i2]));
            }
            if j1 < j2 {
                assert(crate::text::is_white_space(s[j2 - 1]));
            }
            if j2 < j1 {
                assert(crate::text::is_white_space(s[j1 - 1]));
            }
        } else if i1 < j1 {
            assert(crate::text::is_white_space(s[i1]));
        } else if i2 < j2 {
            assert(crate::text::is_white_space(s[i2]));
        }
    }
}

/// The trimmed form of `s`.
pub open spec fn trimmed(s: Seq<char>) -> Seq<char> {
    choose|t: Seq<char>| is_trim_of(t, s)
}

/// Trims `s`, with the result stated by `trimmed`.
fn trim_setting(s: &str) -> (r: String)
    ensures
        r@ == trimmed(s@),
{
    let r = trim_text(s);
    proof {
        lemma_trim_unique(s@);
    }
    r
}

/// The trimmed pieces that are not empty, in order.
pub open spec fn nonempty_trimmed(pieces: Seq<Seq<char>>) -> Seq<Seq<char>>
    decreases pieces.len(),
{
    if pieces.len() == 0 {
        Seq::empty()
    } else {
        let p = nonempty_trimmed(pieces.drop_last());
        if trimmed(pieces.last()).len() > 0 {
            p.push(trimmed(pieces.last()))
        } else {
            p
        }
    }
}

/// The projects a comma-separated setting names.
pub open spec fn configured_projects(setting: Seq<char>) -> Seq<Seq<char>> {
    nonempty_trimmed(comma_pieces(setting))
}

/// The projects named by a comma-separated setting: each piece trimmed,
/// empty ones dropped, in order.
pub fn project_list(setting: &str) -> (r: Vec<String>)
    ensures
        r@.map_values(|p: String| p@) == configured_projects(setting@),
{
    let pieces = split_commas(setting);
    let ghost pv = pieces@.map_values(|p: String| p@);
    let mut out: Vec<String> = Vec::new();
    let mut i: usize = 0;
    while i < pieces.len()
        invariant
            i <= pieces.len(),
            pv == pieces@.map_values(|p: String| p@),
            out@.map_values(|p: String| p@) == nonempty_trimmed(pv.take(i as int)),
        decreases pieces.len() - i,
    {
        proof {
            assert(pv.take(i + 1).drop_last() =~= pv.take(i as int));
            assert(pv.take(i + 1).last() == pieces[i as int]@);
        }
        let t = trim_setting(pieces[i].as_str());
        if t.unicode_len() > 0 {
            let ghost before = out@;
            out.push(t);
            proof {
                assert(out@.map_values(|p: String| p@) =~= before.map_values(|p: String| p@).push(
                    t@,
                ));
            }
        }
        i = i + 1;
    }
    proof {
        assert(pv.take(pieces.len() as int) =~= pv);
    }
    out
}

/// The project a transition works in: the first piece of the setting,
/// trimmed, where the setting is `DefaultProject` when unset.
pub fn default_project(setting: Option<String>) -> (r: String)
    ensures
        r@ == trimmed(
            comma_pieces(
                match setting {
                    Some(s) => s@,
                    None => "DefaultProject"@,
                },
            )[0],
        ),
{
    let s = match setting {
        Some(s) => s,
        None => String::from_str("DefaultProject"),
    };
    let pieces = split_commas(s.as_str());
    proof {
        assert(comma_pieces(s@).len() > 0);
        assert(pieces@.map_values(|p: String| p@).len() == pieces.len());
        assert(pieces@.map_values(|p: String| p@)[0] == pieces[0]@);
    }
    trim_setting(pieces[0].as_str())
}

/// The text of a failed token check, from the failure's debug text: an
/// unauthorized answer means a bad token, a missing one a wrong
/// organization.
pub open spec fn token_failure_message(detail: Seq<char>, organization: Seq<char>) -> Seq<char> {
    if has_substring(detail, "401"@) || has_substring(detail, "Unauthorized"@) {
        "Invalid or expired Personal Access Token. Please check your PAT in Azure DevOps settings."@
    } else if has_substring(detail, "404"@) {
        "Organization '"@ + organization + "' not found. Please verify the organization name."@
    } else {
        "Azure DevOps API error: "@ + detail
    }
}

/// The text of a failed token check; see `token_failure_message`.
pub fn token_error_message(detail: &str, organization: &str) -> (r: String)
    ensures
        r@ == token_failure_message(detail@, organization@),
{
    if contains_text(detail, "401") || contains_text(detail, "Unauthorized") {
        String::from_str(
            "Invalid or expired Personal Access Token. Please check your PAT in Azure DevOps settings.",
        )
    } else if contains_text(detail, "404") {
        String::from_str("Organization '").concat(organization).concat(
            "' not found. Please verify the organization name.",
        )
    } else {
        String::from_str("Azure DevOps API error: ").concat(detail)
    }
}

/// The profile of the first account listed: its name and id; no mail
/// address or alias is known. With no account the check fails.
pub fn user_profile_from(accounts: Vec<AccountSummary>) -> (r: Result<UserProfile, TokenCheckError>)
    ensures
        accounts.len() == 0 ==> r == Err::<UserProfile, TokenCheckError>(TokenCheckError::NoAccounts),
        accounts.len() > 0 ==> r is Ok && r->Ok_0.display_name == accounts[0].account_name
            && r->Ok_0.id == accounts[0].account_id && r->Ok_0.email_address is None
            && r->Ok_0.public_alias is None,
{
    let mut accounts = accounts;
    if accounts.len() == 0 {
        return Err(TokenCheckError::NoAccounts);
    }
    let first = accounts.remove(0);
    Ok(
        UserProfile {
            display_name: first.account_name,
            email_address: None,
            id: first.account_id,
            public_alias: None,
        },
    )
}

} // verus!
