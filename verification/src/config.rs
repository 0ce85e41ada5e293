//! The config writer and the credential check: what the configure command
//! persists (the whole file, replaced wholesale), and how a remote
//! credential verification outcome is judged for each auth variant. Writing
//! the file itself, and calling the verification endpoints, stay with the
//! caller.

use vstd::prelude::*;
use crate::global_user::{GlobalConfig, GlobalConfigView, GlobalUser, GlobalUserView};
use crate::text::str_eq;

verus! {

/// The text of a flat TOML table of string values, keyed and valued as
/// given.
pub uninterp spec fn toml_of_pairs(keys: Seq<Seq<char>>, vals: Seq<Seq<char>>) -> Seq<char>;

/// Relies on toml::to_string over a table built with toml::map::Map::insert:
/// serialising the flat string table depends on the keys and values alone.
#[verifier::external_body]
fn encode_string_table(keys: &Vec<String>, vals: &Vec<String>) -> (r: String)
    requires
        keys@.len() == vals@.len(),
    ensures
        r@ == toml_of_pairs(keys.deep_view(), vals.deep_view()),
{
    let mut table = toml::map::Map::new();
    for i in 0..keys.len() {
        table.insert(keys[i].clone(), toml::Value::String(vals[i].clone()));
    }
    match toml::to_string(&toml::Value::Table(table)) {
        Ok(text) => text,
        Err(_) => String::new(),
    }
}

/// The persisted file contents for a config: the populated variant's fields
/// and the default project name, nothing else.
pub open spec fn config_text_spec(c: GlobalConfigView) -> Seq<char> {
    match c.global_user {
        GlobalUserView::TokenAuth { api_token } => toml_of_pairs(
            seq!["api_token"@, "next_default_project"@],
            seq![api_token, c.next_default_project],
        ),
        GlobalUserView::GlobalKeyAuth { email, api_key } => toml_of_pairs(
            seq!["email"@, "api_key"@, "next_default_project"@],
            seq![email, api_key, c.next_default_project],
        ),
    }
}

/// Renders the file contents that the config writer persists: a full-file
/// replacement, never a partial patch. The caller writes the text to the
/// fixed config path and restricts the file to owner read/write where the
/// platform enforces permissions.
pub fn write_global_config(global_config: &GlobalConfig) -> (r: String)
    ensures
        r@ == config_text_spec(global_config@),
{
    let mut keys: Vec<String> = Vec::new();
    let mut vals: Vec<String> = Vec::new();
    match &global_config.global_user {
        GlobalUser::TokenAuth { api_token } => {
            keys.push(String::from_str("api_token"));
            vals.push(api_token.clone());
            keys.push(String::from_str("next_default_project"));
            vals.push(global_config.next_default_project.clone());
            proof {
                assert(keys.deep_view() =~~= seq!["api_token"@, "next_default_project"@]);
                assert(vals.deep_view() =~~= seq![
                    api_token@,
                    global_config.next_default_project@,
                ]);
            }
        },
        GlobalUser::GlobalKeyAuth { email, api_key } => {
            keys.push(String::from_str("email"));
            vals.push(email.clone());
            keys.push(String::from_str("api_key"));
            vals.push(api_key.clone());
            keys.push(String::from_str("next_default_project"));
            vals.push(global_config.next_default_project.clone());
            proof {
                assert(keys.deep_view() =~~= seq![
                    "email"@,
                    "api_key"@,
                    "next_default_project"@,
                ]);
                assert(vals.deep_view() =~~= seq![
                    email@,
                    api_key@,
                    global_config.next_default_project@,
                ]);
            }
        },
    }
    encode_string_table(&keys, &vals)
}

/// Builds the global config that the configure command persists for an
/// email and global API key pair, with the default project name sentinel.
pub fn global_config(email: &str, api_key: &str) -> (r: GlobalConfig)
    ensures
        r@ == (GlobalConfigView {
            global_user: GlobalUserView::GlobalKeyAuth { email: email@, api_key: api_key@ },
            next_default_project: "worker"@,
        }),
{
    let r = GlobalConfig {
        global_user: GlobalUser::GlobalKeyAuth {
            email: String::from_str(email),
            api_key: String::from_str(api_key),
        },
        next_default_project: GlobalConfig::default_project_name(),
    };
    proof {
        assert(r@ =~~= (GlobalConfigView {
            global_user: GlobalUserView::GlobalKeyAuth { email: email@, api_key: api_key@ },
            next_default_project: "worker"@,
        }));
    }
    r
}

pub open spec fn token_status_message_spec(status: Seq<char>) -> Seq<char> {
    "Authentication check failed. Your token has status \""@ + status
        + "\", not \"active\". Try rolling your token on the Cloudflare dashboard."@
}

pub open spec fn token_failure_message_spec(detail: Seq<char>) -> Seq<char> {
    "Authentication check failed. Please make sure your API token is correct. "@ + detail
}

pub open spec fn key_failure_message_spec(detail: Seq<char>) -> Seq<char> {
    "Authentication check failed. Please make sure your email and global API key pair are correct. (https://developers.cloudflare.com/workers/quickstart/#global-api-key) "@
        + detail
}

/// Judges a remote credential verification outcome. For token auth, the
/// token-status endpoint's answer counts as verified only when the token's
/// status is "active"; for key auth, any successful user-detail fetch does.
/// The failure messages distinguish the two variants, since remediation
/// differs. `detail` is the token status on a successful token check, and
/// the verbatim error detail on a failed call.
pub fn validate_credentials(user: &GlobalUser, outcome_ok: bool, detail: &str) -> (r: Result<
    (),
    String,
>)
    ensures
        match user@ {
            GlobalUserView::TokenAuth { .. } => {
                if outcome_ok {
                    if detail@ == "active"@ {
                        r is Ok
                    } else {
                        r matches Err(m) && m@ == token_status_message_spec(detail@)
                    }
                } else {
                    r matches Err(m) && m@ == token_failure_message_spec(detail@)
                }
            },
            GlobalUserView::GlobalKeyAuth { .. } => {
                if outcome_ok {
                    r is Ok
                } else {
                    r matches Err(m) && m@ == key_failure_message_spec(detail@)
                }
            },
        },
{
    match user {
        GlobalUser::TokenAuth { .. } => {
            if outcome_ok {
                if str_eq(detail, "active") {
                    Ok(())
                } else {
                    let mut m = String::from_str(
                        "Authentication check failed. Your token has status \"",
                    );
                    m.append(detail);
                    m.append("\", not \"active\". Try rolling your token on the Cloudflare dashboard.");
                    Err(m)
                }
            } else {
                let mut m = String::from_str(
                    "Authentication check failed. Please make sure your API token is correct. ",
                );
                m.append(detail);
                Err(m)
            }
        },
        GlobalUser::GlobalKeyAuth { .. } => {
            if outcome_ok {
                Ok(())
            } else {
                let mut m = String::from_str(
                    "Authentication check failed. Please make sure your email and global API key pair are correct. (https://developers.cloudflare.com/workers/quickstart/#global-api-key) ",
                );
                m.append(detail);
                Err(m)
            }
        },
    }
}

} // verus!
