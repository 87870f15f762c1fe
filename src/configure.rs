use vstd::prelude::*;
use vstd::string::*;
use crate::json::{Json, JsonModel};
use crate::config::{opt_string_view, reconcile_config, reconciled_document, AgentConfig};
use crate::profiles::{upsert_profile, upserted, ProfileKind};
use crate::secret::{is_fresh_token, opt_view};
use crate::error::SetupError;

verus! {

/// Reconciles both persisted documents for one configuration: the main
/// configuration gets the settings and the gateway token, the profile
/// document gets the provider's credential.
pub fn configure_documents(
    config_doc: &Json,
    profile_doc: &Json,
    config: &AgentConfig,
    workspace: &str,
    env_override: Option<&str>,
) -> (r: Result<(Json, Json), SetupError>)
    ensures
        match (config_doc.object_entries(), profile_doc.object_entries()) {
            (Some(c), Some(p)) => {
                &&& r is Ok
                &&& exists|fresh: Seq<char>|
                    is_fresh_token(fresh) && r->Ok_0.0.model() == JsonModel::Object(
                        reconciled_document(
                            c,
                            config.provider@,
                            config.model@,
                            workspace@,
                            opt_string_view(config.telegram_token),
                            opt_view(env_override),
                            fresh,
                        ),
                    )
                &&& r->Ok_0.1.model() == JsonModel::Object(
                    upserted(p, config.provider@, config.api_key@, ProfileKind::Token),
                )
            },
            _ => r is Err && r->Err_0 is MalformedDocument,
        },
{
    let merged = match reconcile_config(config_doc, config, workspace, env_override) {
        Ok(m) => m,
        Err(e) => return Err(e),
    };
    let profiles = match upsert_profile(
        profile_doc,
        config.provider.as_str(),
        config.api_key.as_str(),
        ProfileKind::Token,
    ) {
        Ok(p) => p,
        Err(e) => return Err(e),
    };
    Ok((merged, profiles))
}

/// The agent's identity note.
pub fn identity_text(agent_name: &str, vibe: &str) -> (r: String)
    ensures
        r@ == "# IDENTITY.md\n\nI am "@ + agent_name@ + ", an AI agent powered by OpenClaw.\n\nVibe: "@
            + vibe@,
{
    String::from_str("# IDENTITY.md\n\nI am ").concat(agent_name).concat(
        ", an AI agent powered by OpenClaw.\n\nVibe: ",
    ).concat(vibe)
}

/// The note about the agent's user.
pub fn user_text(user_name: &str) -> (r: String)
    ensures
        r@ == "# USER.md\n\nAbout my human: "@ + user_name@ + "\n"@,
{
    String::from_str("# USER.md\n\nAbout my human: ").concat(user_name).concat("\n")
}

/// The agent's mission note.
pub fn soul_text() -> (r: String)
    ensures
        r@ == "# SOUL.md\n\n## Mission\nProvide excellent assistance and maintain a helpful attitude.\n"@,
{
    String::from_str(
        "# SOUL.md\n\n## Mission\nProvide excellent assistance and maintain a helpful attitude.\n",
    )
}

/// A file name whose extension is `md`: it ends in `.md` and is more than that.
pub open spec fn is_markdown_name(name: Seq<char>) -> bool {
    name.len() > 3 && name.subrange(name.len() - 3, name.len() as int) == ".md"@
}

/// Whether a workspace file is one of the agent's markdown notes.
pub fn is_markdown_file_name(name: &str) -> (r: bool)
    ensures
        r == is_markdown_name(name@),
{
    let n = name.unicode_len();
    if n <= 3 {
        return false;
    }
    let a = name.get_char(n - 3);
    let b = name.get_char(n - 2);
    let c = name.get_char(n - 1);
    proof {
        reveal_strlit(".md");
        let tail = name@.subrange(n - 3, n as int);
        if a == '.' && b == 'm' && c == 'd' {
            assert(tail =~= ".md"@);
        } else {
            assert(tail[0] == a && tail[1] == b && tail[2] == c);
        }
    }
    a == '.' && b == 'm' && c == 'd'
}

} // verus!
