use vstd::prelude::*;
use vstd::string::*;
use crate::json::{
    copy_entries, entries_model, entries_of, field, group_field_lemmas, lemma_object_model,
    get_field, lemma_put_present, object_at, put, put_default, set_default, set_field, str_of, string_at, text, Entries,
    Json, JsonModel,
};
use crate::secret::{is_fresh_token, opt_view, resolve_token, resolved_token, usable};
use crate::error::SetupError;
use crate::gateway::SERVICE_PORT;
use crate::text::{decimal, decimal_text};

verus! {

broadcast use group_field_lemmas;

/// The settings a user asks for when configuring the agent.
pub struct AgentConfig {
    pub provider: String,
    pub api_key: String,
    pub model: String,
    pub user_name: String,
    pub agent_name: String,
    pub agent_vibe: String,
    pub telegram_token: Option<String>,
}

pub open spec fn opt_string_view(s: Option<String>) -> Option<Seq<char>> {
    match s {
        Some(t) => Some(t@),
        None => None,
    }
}

/// `"{provider}:default"`.
pub open spec fn profile_id(provider: Seq<char>) -> Seq<char> {
    provider + ":default"@
}

pub open spec fn str_model(s: &str) -> JsonModel {
    JsonModel::Str(s@)
}

pub open spec fn meta_model() -> JsonModel {
    JsonModel::Object(
        seq![("lastTouchedVersion"@, str_model("2026.2.6-3")), ("lastTouchedAt"@, str_model(""))],
    )
}

pub open spec fn messages_model() -> JsonModel {
    JsonModel::Object(seq![("ackReactionScope"@, str_model("group-mentions"))])
}

pub open spec fn subagents_model() -> JsonModel {
    JsonModel::Object(seq![("maxConcurrent"@, JsonModel::Number("8"@))])
}

pub open spec fn compaction_model() -> JsonModel {
    JsonModel::Object(seq![("mode"@, str_model("safeguard"))])
}

pub open spec fn tailscale_model() -> JsonModel {
    JsonModel::Object(seq![("mode"@, str_model("off")), ("resetOnExit"@, JsonModel::Bool(false))])
}

/// The entry `auth.profiles[profile_id]` of the main document.
pub open spec fn profile_ref_model(provider: Seq<char>) -> JsonModel {
    JsonModel::Object(seq![("provider"@, JsonModel::Str(provider)), ("mode"@, str_model("token"))])
}

pub open spec fn telegram_plugin_model() -> JsonModel {
    JsonModel::Object(seq![("enabled"@, JsonModel::Bool(true))])
}

pub open spec fn telegram_account_model(bot_token: Seq<char>) -> JsonModel {
    JsonModel::Object(
        seq![
            ("botToken"@, JsonModel::Str(bot_token)),
            ("name"@, str_model("Primary Bot")),
            ("dmPolicy"@, str_model("pairing")),
        ],
    )
}

/// `agents.defaults` after a pass: scaffolding where absent, workspace and
/// primary model overwritten, the model added to the model map.
pub open spec fn merged_defaults(d: Entries, workspace: Seq<char>, model: Seq<char>) -> Entries {
    let d1 = put_default(d, "maxConcurrent"@, JsonModel::Number("4"@));
    let d2 = put_default(d1, "subagents"@, subagents_model());
    let d3 = put_default(d2, "compaction"@, compaction_model());
    let d4 = put(d3, "workspace"@, JsonModel::Str(workspace));
    let d5 = put(
        d4,
        "model"@,
        JsonModel::Object(put(entries_of(field(d4, "model"@)), "primary"@, JsonModel::Str(model))),
    );
    put(
        d5,
        "models"@,
        JsonModel::Object(
            put_default(entries_of(field(d5, "models"@)), model, JsonModel::Object(Seq::empty())),
        ),
    )
}

pub open spec fn merged_agents(a: Entries, workspace: Seq<char>, model: Seq<char>) -> Entries {
    put(
        a,
        "defaults"@,
        JsonModel::Object(merged_defaults(entries_of(field(a, "defaults"@)), workspace, model)),
    )
}

pub open spec fn merged_gateway_auth(a: Entries, token: Seq<char>) -> Entries {
    put(put(a, "mode"@, str_model("token")), "token"@, JsonModel::Str(token))
}

pub open spec fn merged_gateway(g: Entries, token: Seq<char>) -> Entries {
    let g1 = put(g, "mode"@, str_model("local"));
    let g2 = put(g1, "port"@, JsonModel::Number(decimal(SERVICE_PORT as nat)));
    let g3 = put(g2, "bind"@, str_model("loopback"));
    let g4 = put(g3, "tailscale"@, tailscale_model());
    put(g4, "auth"@, JsonModel::Object(merged_gateway_auth(entries_of(field(g4, "auth"@)), token)))
}

pub open spec fn merged_auth(a: Entries, provider: Seq<char>) -> Entries {
    put(
        a,
        "profiles"@,
        JsonModel::Object(
            put(
                entries_of(field(a, "profiles"@)),
                profile_id(provider),
                profile_ref_model(provider),
            ),
        ),
    )
}

pub open spec fn merged_plugins(p: Entries) -> Entries {
    put(
        p,
        "entries"@,
        JsonModel::Object(put(entries_of(field(p, "entries"@)), "telegram"@, telegram_plugin_model())),
    )
}

pub open spec fn merged_channels(c: Entries, bot_token: Seq<char>) -> Entries {
    let t = entries_of(field(c, "telegram"@));
    put(
        c,
        "telegram"@,
        JsonModel::Object(
            put(
                t,
                "accounts"@,
                JsonModel::Object(
                    put(entries_of(field(t, "accounts"@)), "main"@, telegram_account_model(bot_token)),
                ),
            ),
        ),
    )
}

/// The messaging-bot sections, written only for a non-empty bot token.
pub open spec fn merged_telegram(doc: Entries, bot_token: Option<Seq<char>>) -> Entries {
    if usable(bot_token) {
        let d1 = put(doc, "plugins"@, JsonModel::Object(merged_plugins(entries_of(field(doc, "plugins"@)))));
        put(
            d1,
            "channels"@,
            JsonModel::Object(merged_channels(entries_of(field(d1, "channels"@)), bot_token->0)),
        )
    } else {
        doc
    }
}

/// The whole document after a pass that settled on `token`.
pub open spec fn merged_document(
    doc: Entries,
    provider: Seq<char>,
    model: Seq<char>,
    workspace: Seq<char>,
    bot_token: Option<Seq<char>>,
    token: Seq<char>,
) -> Entries {
    let e1 = put_default(doc, "meta"@, meta_model());
    let e2 = put_default(e1, "messages"@, messages_model());
    let e3 = put(
        e2,
        "agents"@,
        JsonModel::Object(merged_agents(entries_of(field(e2, "agents"@)), workspace, model)),
    );
    let e4 = put(
        e3,
        "gateway"@,
        JsonModel::Object(merged_gateway(entries_of(field(e3, "gateway"@)), token)),
    );
    let e5 = put(
        e4,
        "auth"@,
        JsonModel::Object(merged_auth(entries_of(field(e4, "auth"@)), provider)),
    );
    merged_telegram(e5, bot_token)
}

/// `gateway.auth.token` of a document, where it is a string.
pub open spec fn persisted_token(doc: Entries) -> Option<Seq<char>> {
    str_of(field(entries_of(field(entries_of(field(doc, "gateway"@)), "auth"@)), "token"@))
}

/// A reconciliation pass: the token is resolved from the override, the
/// persisted token and a fresh candidate, then merged in with the settings.
pub open spec fn reconciled_document(
    doc: Entries,
    provider: Seq<char>,
    model: Seq<char>,
    workspace: Seq<char>,
    bot_token: Option<Seq<char>>,
    env_override: Option<Seq<char>>,
    fresh: Seq<char>,
) -> Entries {
    merged_document(
        doc,
        provider,
        model,
        workspace,
        bot_token,
        resolved_token(env_override, persisted_token(doc), fresh),
    )
}

fn object1(k: &str, v: Json) -> (r: Json)
    ensures
        r.model() == JsonModel::Object(seq![(k@, v.model())]),
{
    let mut es: Vec<(String, Json)> = Vec::new();
    es.push((text(k), v));
    proof {
        assert(entries_model(es@) =~= seq![(k@, es@[0].1.model())]);
    }
    Json::object(es)
}

fn object2(k1: &str, v1: Json, k2: &str, v2: Json) -> (r: Json)
    ensures
        r.model() == JsonModel::Object(seq![(k1@, v1.model()), (k2@, v2.model())]),
{
    let mut es: Vec<(String, Json)> = Vec::new();
    es.push((text(k1), v1));
    es.push((text(k2), v2));
    proof {
        assert(entries_model(es@) =~= seq![(k1@, es@[0].1.model()), (k2@, es@[1].1.model())]);
    }
    Json::object(es)
}

fn object3(k1: &str, v1: Json, k2: &str, v2: Json, k3: &str, v3: Json) -> (r: Json)
    ensures
        r.model() == JsonModel::Object(
            seq![(k1@, v1.model()), (k2@, v2.model()), (k3@, v3.model())],
        ),
{
    let mut es: Vec<(String, Json)> = Vec::new();
    es.push((text(k1), v1));
    es.push((text(k2), v2));
    es.push((text(k3), v3));
    proof {
        assert(entries_model(es@) =~= seq![
            (k1@, es@[0].1.model()),
            (k2@, es@[1].1.model()),
            (k3@, es@[2].1.model()),
        ]);
    }
    Json::object(es)
}

fn number(s: &str) -> (r: Json)
    ensures
        r.model() == JsonModel::Number(s@),
{
    Json::Number(text(s))
}

fn merge_defaults(d: &mut Vec<(String, Json)>, workspace: &str, model: &str)
    ensures
        entries_model(final(d)@) == merged_defaults(entries_model(old(d)@), workspace@, model@),
{
    set_default(d, text("maxConcurrent"), number("4"));
    set_default(d, text("subagents"), object1("maxConcurrent", number("8")));
    set_default(d, text("compaction"), object1("mode", Json::string("safeguard")));
    set_field(d, text("workspace"), Json::string(workspace));
    let mut m = object_at(d, &text("model"));
    set_field(&mut m, text("primary"), Json::string(model));
    set_field(d, text("model"), Json::object(m));
    let mut ms = object_at(d, &text("models"));
    set_default(&mut ms, text(model), Json::empty_object());
    set_field(d, text("models"), Json::object(ms));
}

fn merge_gateway(g: &mut Vec<(String, Json)>, token: &str)
    ensures
        entries_model(final(g)@) == merged_gateway(entries_model(old(g)@), token@),
{
    set_field(g, text("mode"), Json::string("local"));
    set_field(g, text("port"), Json::Number(decimal_text(SERVICE_PORT as u64)));
    set_field(g, text("bind"), Json::string("loopback"));
    set_field(
        g,
        text("tailscale"),
        object2("mode", Json::string("off"), "resetOnExit", Json::Bool(false)),
    );
    let mut a = object_at(g, &text("auth"));
    set_field(&mut a, text("mode"), Json::string("token"));
    set_field(&mut a, text("token"), Json::string(token));
    set_field(g, text("auth"), Json::object(a));
}

/// `"{provider}:default"`.
pub fn make_profile_id(provider: &str) -> (r: String)
    ensures
        r@ == profile_id(provider@),
{
    String::from_str(provider).concat(":default")
}

fn merge_auth(a: &mut Vec<(String, Json)>, provider: &str)
    ensures
        entries_model(final(a)@) == merged_auth(entries_model(old(a)@), provider@),
{
    let mut ps = object_at(a, &text("profiles"));
    set_field(
        &mut ps,
        make_profile_id(provider),
        object2("provider", Json::string(provider), "mode", Json::string("token")),
    );
    set_field(a, text("profiles"), Json::object(ps));
}

fn merge_telegram(doc: &mut Vec<(String, Json)>, bot_token: Option<&str>)
    ensures
        entries_model(final(doc)@) == merged_telegram(entries_model(old(doc)@), opt_view(bot_token)),
{
    match bot_token {
        Some(t) => {
            if t.unicode_len() > 0 {
                let mut p = object_at(doc, &text("plugins"));
                let mut pe = object_at(&p, &text("entries"));
                set_field(&mut pe, text("telegram"), object1("enabled", Json::Bool(true)));
                set_field(&mut p, text("entries"), Json::object(pe));
                set_field(doc, text("plugins"), Json::object(p));
                let mut c = object_at(doc, &text("channels"));
                let mut ct = object_at(&c, &text("telegram"));
                let mut acc = object_at(&ct, &text("accounts"));
                set_field(
                    &mut acc,
                    text("main"),
                    object3(
                        "botToken",
                        Json::string(t),
                        "name",
                        Json::string("Primary Bot"),
                        "dmPolicy",
                        Json::string("pairing"),
                    ),
                );
                set_field(&mut ct, text("accounts"), Json::object(acc));
                set_field(&mut c, text("telegram"), Json::object(ct));
                set_field(doc, text("channels"), Json::object(c));
            }
        },
        None => {},
    }
}

/// The entries of a document that must be a JSON object.
pub fn document_entries(doc: &Json) -> (r: Result<&Vec<(String, Json)>, SetupError>)
    ensures
        match r {
            Ok(es) => doc.object_entries() == Some(entries_model(es@)),
            Err(e) => doc.object_entries() is None && e is MalformedDocument,
        },
{
    match doc {
        Json::Object(es) => {
            proof {
                lemma_object_model(*es);
            }
            Ok(es)
        },
        _ => Err(SetupError::MalformedDocument(text("configuration document is not a JSON object"))),
    }
}

/// Merges the settings into a copy of `existing`, with `token` as the gateway token.
pub fn merge_config(existing: &Json, config: &AgentConfig, workspace: &str, token: &str) -> (r:
    Result<Json, SetupError>)
    ensures
        match existing.object_entries() {
            Some(es) => r is Ok && r->Ok_0.model() == JsonModel::Object(
                merged_document(
                    es,
                    config.provider@,
                    config.model@,
                    workspace@,
                    opt_string_view(config.telegram_token),
                    token@,
                ),
            ),
            None => r is Err && r->Err_0 is MalformedDocument,
        },
{
    let src = match document_entries(existing) {
        Ok(es) => es,
        Err(e) => return Err(e),
    };
    let mut doc = copy_entries(src);
    set_default(
        &mut doc,
        text("meta"),
        object2("lastTouchedVersion", Json::string("2026.2.6-3"), "lastTouchedAt", Json::string("")),
    );
    set_default(&mut doc, text("messages"), object1("ackReactionScope", Json::string("group-mentions")));
    let mut agents = object_at(&doc, &text("agents"));
    let mut defaults = object_at(&agents, &text("defaults"));
    merge_defaults(&mut defaults, workspace, config.model.as_str());
    set_field(&mut agents, text("defaults"), Json::object(defaults));
    set_field(&mut doc, text("agents"), Json::object(agents));
    let mut gateway = object_at(&doc, &text("gateway"));
    merge_gateway(&mut gateway, token);
    set_field(&mut doc, text("gateway"), Json::object(gateway));
    let mut auth = object_at(&doc, &text("auth"));
    merge_auth(&mut auth, config.provider.as_str());
    set_field(&mut doc, text("auth"), Json::object(auth));
    let bot = match &config.telegram_token {
        Some(t) => Some(t.as_str()),
        None => None,
    };
    merge_telegram(&mut doc, bot);
    Ok(Json::object(doc))
}

/// `gateway.auth.token` of a document, where it is a string.
pub fn persisted_token_of(es: &Vec<(String, Json)>) -> (r: Option<&String>)
    ensures
        match r {
            Some(t) => persisted_token(entries_model(es@)) == Some(t@),
            None => persisted_token(entries_model(es@)) is None,
        },
{
    match get_field(es, &text("gateway")) {
        Some(Json::Object(g)) => {
            proof {
                lemma_object_model(*g);
            }
            match get_field(g, &text("auth")) {
                Some(Json::Object(a)) => {
                    proof {
                        lemma_object_model(*a);
                    }
                    string_at(a, &text("token"))
                },
                _ => None,
            }
        },
        _ => None,
    }
}

/// One reconciliation pass over a persisted document: the gateway token is the
/// override where usable, else the persisted token where usable, else freshly
/// minted; the settings are then merged into a copy of the document.
pub fn reconcile_config(
    existing: &Json,
    config: &AgentConfig,
    workspace: &str,
    env_override: Option<&str>,
) -> (r: Result<Json, SetupError>)
    ensures
        match existing.object_entries() {
            Some(es) => {
                &&& r is Ok
                &&& exists|fresh: Seq<char>|
                    is_fresh_token(fresh) && r->Ok_0.model() == JsonModel::Object(
                        reconciled_document(
                            es,
                            config.provider@,
                            config.model@,
                            workspace@,
                            opt_string_view(config.telegram_token),
                            opt_view(env_override),
                            fresh,
                        ),
                    )
                &&& usable(opt_view(env_override)) ==> r->Ok_0.model() == JsonModel::Object(
                    merged_document(
                        es,
                        config.provider@,
                        config.model@,
                        workspace@,
                        opt_string_view(config.telegram_token),
                        env_override.unwrap()@,
                    ),
                )
                &&& !usable(opt_view(env_override)) && usable(persisted_token(es))
                    ==> r->Ok_0.model() == JsonModel::Object(
                    merged_document(
                        es,
                        config.provider@,
                        config.model@,
                        workspace@,
                        opt_string_view(config.telegram_token),
                        persisted_token(es)->0,
                    ),
                )
            },
            None => r is Err && r->Err_0 is MalformedDocument,
        },
{
    let es = match document_entries(existing) {
        Ok(es) => es,
        Err(e) => return Err(e),
    };
    let persisted = match persisted_token_of(es) {
        Some(t) => Some(t.as_str()),
        None => None,
    };
    let token = resolve_token(env_override, persisted);
    merge_config(existing, config, workspace, token.as_str())
}

/// Puts back section `k` of the snapshot where the snapshot has it.
pub open spec fn restored_section(post: Entries, pre: Entries, k: Seq<char>) -> Entries {
    match field(pre, k) {
        Some(v) => put(post, k, v),
        None => post,
    }
}

/// `gateway.auth` of a document, as entries.
pub open spec fn gateway_auth(doc: Entries) -> Entries {
    entries_of(field(entries_of(field(doc, "gateway"@)), "auth"@))
}

/// The document the installer wrote, with the sections this library owns put
/// back from the snapshot taken before installing. The installer's
/// `gateway.auth` stays, except that a usable token of the snapshot replaces
/// its token.
pub open spec fn restored_document(pre: Entries, post: Entries) -> Entries {
    let p1 = restored_section(post, pre, "agents"@);
    let p2 = restored_section(p1, pre, "auth"@);
    let p3 = restored_section(p2, pre, "messages"@);
    let p4 = restored_section(p3, pre, "plugins"@);
    let p5 = restored_section(p4, pre, "channels"@);
    let pre_token = persisted_token(pre);
    if usable(pre_token) {
        let g = entries_of(field(p5, "gateway"@));
        put(
            p5,
            "gateway"@,
            JsonModel::Object(
                put(
                    g,
                    "auth"@,
                    JsonModel::Object(
                        put(entries_of(field(g, "auth"@)), "token"@, JsonModel::Str(pre_token->0)),
                    ),
                ),
            ),
        )
    } else {
        p5
    }
}

fn restore_section(post: &mut Vec<(String, Json)>, pre: &Vec<(String, Json)>, k: &str)
    ensures
        entries_model(final(post)@) == restored_section(
            entries_model(old(post)@),
            entries_model(pre@),
            k@,
        ),
{
    let key = text(k);
    match get_field(pre, &key) {
        Some(v) => {
            let c = v.deep_copy();
            set_field(post, key, c);
        },
        None => {},
    }
}

/// Reapplies the snapshot taken before installing onto the document the
/// installer wrote. Either one not being a JSON object is a corrupt configuration.
pub fn reconcile_after_install(pre: &Json, post: &Json) -> (r: Result<Json, SetupError>)
    ensures
        match (pre.object_entries(), post.object_entries()) {
            (Some(a), Some(b)) => r is Ok && r->Ok_0.model() == JsonModel::Object(
                restored_document(a, b),
            ),
            _ => r is Err && r->Err_0 is ConfigCorrupt,
        },
{
    let (a, b) = match (pre, post) {
        (Json::Object(a), Json::Object(b)) => (a, b),
        _ => {
            return Err(
                SetupError::ConfigCorrupt(
                    text("configuration before or after installing is not a JSON object"),
                ),
            );
        },
    };
    proof {
        lemma_object_model(*a);
        lemma_object_model(*b);
    }
    let mut doc = copy_entries(b);
    restore_section(&mut doc, a, "agents");
    restore_section(&mut doc, a, "auth");
    restore_section(&mut doc, a, "messages");
    restore_section(&mut doc, a, "plugins");
    restore_section(&mut doc, a, "channels");
    match persisted_token_of(a) {
        Some(t) => {
            if t.as_str().unicode_len() > 0 {
                let mut g = object_at(&doc, &text("gateway"));
                let mut auth = object_at(&g, &text("auth"));
                set_field(&mut auth, text("token"), Json::string(t.as_str()));
                set_field(&mut g, text("auth"), Json::object(auth));
                set_field(&mut doc, text("gateway"), Json::object(g));
            }
        },
        None => {},
    }
    Ok(Json::object(doc))
}

/// The dashboard address: with the persisted token where the document has one.
pub open spec fn dashboard_url_of(doc: JsonModel) -> Seq<char> {
    let token = match doc {
        JsonModel::Object(es) => persisted_token(es),
        _ => None,
    };
    match token {
        Some(t) => "http://127.0.0.1:"@ + decimal(SERVICE_PORT as nat) + "/?token="@ + t,
        None => "http://127.0.0.1:"@ + decimal(SERVICE_PORT as nat),
    }
}

/// The dashboard address for a persisted configuration document.
pub fn dashboard_url(doc: &Json) -> (r: String)
    ensures
        r@ == dashboard_url_of(doc.model()),
{
    let token = match doc {
        Json::Object(es) => {
            proof {
                lemma_object_model(*es);
            }
            persisted_token_of(es)
        },
        _ => None,
    };
    match token {
        Some(t) => text("http://127.0.0.1:").concat(decimal_text(SERVICE_PORT as u64).as_str()).concat(
            "/?token=",
        ).concat(t.as_str()),
        None => text("http://127.0.0.1:").concat(decimal_text(SERVICE_PORT as u64).as_str()),
    }
}

/// The keys this library writes differ from one another in length or first letter.
proof fn lemma_literal_keys()
    ensures
        "meta"@.len() == 4 && "meta"@[0] == 'm',
        "messages"@.len() == 8 && "messages"@[0] == 'm',
        "agents"@.len() == 6 && "agents"@[0] == 'a',
        "gateway"@.len() == 7 && "gateway"@[0] == 'g',
        "auth"@.len() == 4 && "auth"@[0] == 'a',
        "plugins"@.len() == 7 && "plugins"@[0] == 'p',
        "channels"@.len() == 8 && "channels"@[0] == 'c',
        "maxConcurrent"@.len() == 13 && "maxConcurrent"@[0] == 'm',
        "subagents"@.len() == 9 && "subagents"@[0] == 's',
        "compaction"@.len() == 10 && "compaction"@[0] == 'c',
        "workspace"@.len() == 9 && "workspace"@[0] == 'w',
        "model"@.len() == 5 && "model"@[0] == 'm',
        "models"@.len() == 6 && "models"@[0] == 'm',
        "primary"@.len() == 7 && "primary"@[0] == 'p',
        "mode"@.len() == 4 && "mode"@[0] == 'm',
        "port"@.len() == 4 && "port"@[0] == 'p',
        "bind"@.len() == 4 && "bind"@[0] == 'b',
        "tailscale"@.len() == 9 && "tailscale"@[0] == 't',
        "token"@.len() == 5 && "token"@[0] == 't',
        "profiles"@.len() == 8 && "profiles"@[0] == 'p',
        "entries"@.len() == 7 && "entries"@[0] == 'e',
        "telegram"@.len() == 8 && "telegram"@[0] == 't',
        "accounts"@.len() == 8 && "accounts"@[0] == 'a',
        "main"@.len() == 4 && "main"@[0] == 'm',
{
    reveal_strlit("meta");
    reveal_strlit("messages");
    reveal_strlit("agents");
    reveal_strlit("gateway");
    reveal_strlit("auth");
    reveal_strlit("plugins");
    reveal_strlit("channels");
    reveal_strlit("maxConcurrent");
    reveal_strlit("subagents");
    reveal_strlit("compaction");
    reveal_strlit("workspace");
    reveal_strlit("model");
    reveal_strlit("models");
    reveal_strlit("primary");
    reveal_strlit("mode");
    reveal_strlit("port");
    reveal_strlit("bind");
    reveal_strlit("tailscale");
    reveal_strlit("token");
    reveal_strlit("profiles");
    reveal_strlit("entries");
    reveal_strlit("telegram");
    reveal_strlit("accounts");
    reveal_strlit("main");
}

proof fn lemma_defaults_stable(d: Entries, workspace: Seq<char>, model: Seq<char>)
    ensures
        merged_defaults(merged_defaults(d, workspace, model), workspace, model) == merged_defaults(
            d,
            workspace,
            model,
        ),
{
    lemma_literal_keys();
    let dd = merged_defaults(d, workspace, model);
    let d1 = put_default(d, "maxConcurrent"@, JsonModel::Number("4"@));
    let d2 = put_default(d1, "subagents"@, subagents_model());
    let d3 = put_default(d2, "compaction"@, compaction_model());
    let d4 = put(d3, "workspace"@, JsonModel::Str(workspace));
    let pm = put(entries_of(field(d4, "model"@)), "primary"@, JsonModel::Str(model));
    let d5 = put(d4, "model"@, JsonModel::Object(pm));
    let mm = put_default(entries_of(field(d5, "models"@)), model, JsonModel::Object(Seq::empty()));
    assert(field(dd, "maxConcurrent"@) is Some);
    assert(field(dd, "subagents"@) is Some);
    assert(field(dd, "compaction"@) is Some);
    assert(field(dd, "workspace"@) == Some(JsonModel::Str(workspace)));
    lemma_put_present(dd, "workspace"@, JsonModel::Str(workspace));
    assert(field(dd, "model"@) == Some(JsonModel::Object(pm)));
    lemma_put_present(pm, "primary"@, JsonModel::Str(model));
    lemma_put_present(dd, "model"@, JsonModel::Object(pm));
    assert(field(dd, "models"@) == Some(JsonModel::Object(mm)));
    assert(field(mm, model) is Some);
    lemma_put_present(dd, "models"@, JsonModel::Object(mm));
}

proof fn lemma_gateway_stable(g: Entries, token: Seq<char>)
    ensures
        merged_gateway(merged_gateway(g, token), token) == merged_gateway(g, token),
{
    lemma_literal_keys();
    let gg = merged_gateway(g, token);
    let g1 = put(g, "mode"@, str_model("local"));
    let g2 = put(g1, "port"@, JsonModel::Number(decimal(SERVICE_PORT as nat)));
    let g3 = put(g2, "bind"@, str_model("loopback"));
    let g4 = put(g3, "tailscale"@, tailscale_model());
    let au = merged_gateway_auth(entries_of(field(g4, "auth"@)), token);
    lemma_put_present(gg, "mode"@, str_model("local"));
    lemma_put_present(gg, "port"@, JsonModel::Number(decimal(SERVICE_PORT as nat)));
    lemma_put_present(gg, "bind"@, str_model("loopback"));
    lemma_put_present(gg, "tailscale"@, tailscale_model());
    assert(field(gg, "auth"@) == Some(JsonModel::Object(au)));
    lemma_put_present(au, "mode"@, str_model("token"));
    lemma_put_present(au, "token"@, JsonModel::Str(token));
    lemma_put_present(gg, "auth"@, JsonModel::Object(au));
}

proof fn lemma_agents_stable(a: Entries, workspace: Seq<char>, model: Seq<char>)
    ensures
        merged_agents(merged_agents(a, workspace, model), workspace, model) == merged_agents(
            a,
            workspace,
            model,
        ),
{
    lemma_literal_keys();
    let aa = merged_agents(a, workspace, model);
    let dd = merged_defaults(entries_of(field(a, "defaults"@)), workspace, model);
    lemma_defaults_stable(entries_of(field(a, "defaults"@)), workspace, model);
    lemma_put_present(aa, "defaults"@, JsonModel::Object(dd));
}

proof fn lemma_auth_stable(a: Entries, provider: Seq<char>)
    ensures
        merged_auth(merged_auth(a, provider), provider) == merged_auth(a, provider),
{
    lemma_literal_keys();
    let aa = merged_auth(a, provider);
    let ps = put(entries_of(field(a, "profiles"@)), profile_id(provider), profile_ref_model(provider));
    lemma_put_present(ps, profile_id(provider), profile_ref_model(provider));
    lemma_put_present(aa, "profiles"@, JsonModel::Object(ps));
}

proof fn lemma_telegram_stable(doc: Entries, bot_token: Option<Seq<char>>)
    ensures
        merged_telegram(merged_telegram(doc, bot_token), bot_token) == merged_telegram(doc, bot_token),
{
    lemma_literal_keys();
    if usable(bot_token) {
        let tt = merged_telegram(doc, bot_token);
        let pl = merged_plugins(entries_of(field(doc, "plugins"@)));
        let d1 = put(doc, "plugins"@, JsonModel::Object(pl));
        let ch = merged_channels(entries_of(field(d1, "channels"@)), bot_token->0);
        let pe = put(entries_of(field(entries_of(field(doc, "plugins"@)), "entries"@)), "telegram"@, telegram_plugin_model());
        lemma_put_present(pe, "telegram"@, telegram_plugin_model());
        lemma_put_present(pl, "entries"@, JsonModel::Object(pe));
        assert(field(tt, "plugins"@) == Some(JsonModel::Object(pl)));
        lemma_put_present(tt, "plugins"@, JsonModel::Object(pl));
        let c0 = entries_of(field(d1, "channels"@));
        let t0 = entries_of(field(c0, "telegram"@));
        let acc = put(entries_of(field(t0, "accounts"@)), "main"@, telegram_account_model(bot_token->0));
        let t1 = put(t0, "accounts"@, JsonModel::Object(acc));
        lemma_put_present(acc, "main"@, telegram_account_model(bot_token->0));
        lemma_put_present(t1, "accounts"@, JsonModel::Object(acc));
        lemma_put_present(ch, "telegram"@, JsonModel::Object(t1));
        lemma_put_present(tt, "channels"@, JsonModel::Object(ch));
    }
}

/// The token a pass settles on is what the resulting document persists.
pub proof fn lemma_token_persisted(
    doc: Entries,
    provider: Seq<char>,
    model: Seq<char>,
    workspace: Seq<char>,
    bot_token: Option<Seq<char>>,
    token: Seq<char>,
)
    ensures
        persisted_token(merged_document(doc, provider, model, workspace, bot_token, token)) == Some(
            token,
        ),
{
    lemma_literal_keys();
}

/// Running a reconciliation pass a second time, with the same settings and the
/// same override, gives back exactly the document of the first pass.
pub proof fn law_reconcile_idempotent(
    doc: Entries,
    provider: Seq<char>,
    model: Seq<char>,
    workspace: Seq<char>,
    bot_token: Option<Seq<char>>,
    env_override: Option<Seq<char>>,
    fresh1: Seq<char>,
    fresh2: Seq<char>,
)
    requires
        is_fresh_token(fresh1),
    ensures
        ({
            let once = reconciled_document(
                doc,
                provider,
                model,
                workspace,
                bot_token,
                env_override,
                fresh1,
            );
            reconciled_document(once, provider, model, workspace, bot_token, env_override, fresh2)
                == once
        }),
{
    lemma_literal_keys();
    let t = resolved_token(env_override, persisted_token(doc), fresh1);
    let r = merged_document(doc, provider, model, workspace, bot_token, t);
    lemma_token_persisted(doc, provider, model, workspace, bot_token, t);
    assert(resolved_token(env_override, persisted_token(r), fresh2) == t);
    let e1 = put_default(doc, "meta"@, meta_model());
    let e2 = put_default(e1, "messages"@, messages_model());
    let ag = merged_agents(entries_of(field(e2, "agents"@)), workspace, model);
    let e3 = put(e2, "agents"@, JsonModel::Object(ag));
    let gw = merged_gateway(entries_of(field(e3, "gateway"@)), t);
    let e4 = put(e3, "gateway"@, JsonModel::Object(gw));
    let au = merged_auth(entries_of(field(e4, "auth"@)), provider);
    let e5 = put(e4, "auth"@, JsonModel::Object(au));
    assert(field(r, "meta"@) is Some);
    assert(field(r, "messages"@) is Some);
    assert(field(r, "agents"@) == Some(JsonModel::Object(ag)));
    lemma_agents_stable(entries_of(field(e2, "agents"@)), workspace, model);
    lemma_put_present(r, "agents"@, JsonModel::Object(ag));
    assert(field(r, "gateway"@) == Some(JsonModel::Object(gw)));
    lemma_gateway_stable(entries_of(field(e3, "gateway"@)), t);
    lemma_put_present(r, "gateway"@, JsonModel::Object(gw));
    assert(field(r, "auth"@) == Some(JsonModel::Object(au)));
    lemma_auth_stable(entries_of(field(e4, "auth"@)), provider);
    lemma_put_present(r, "auth"@, JsonModel::Object(au));
    lemma_telegram_stable(e5, bot_token);
}

/// A persisted, non-empty gateway token survives a pass that has no usable
/// override, whatever provider and model the pass configures.
pub proof fn law_secret_stable(
    doc: Entries,
    provider: Seq<char>,
    model: Seq<char>,
    workspace: Seq<char>,
    bot_token: Option<Seq<char>>,
    env_override: Option<Seq<char>>,
    fresh: Seq<char>,
)
    requires
        usable(persisted_token(doc)),
        !usable(env_override),
    ensures
        persisted_token(
            reconciled_document(doc, provider, model, workspace, bot_token, env_override, fresh),
        ) == persisted_token(doc),
{
    lemma_token_persisted(
        doc,
        provider,
        model,
        workspace,
        bot_token,
        resolved_token(env_override, persisted_token(doc), fresh),
    );
}

/// A usable override is the token that a pass persists, over any stored token.
pub proof fn law_override_wins(
    doc: Entries,
    provider: Seq<char>,
    model: Seq<char>,
    workspace: Seq<char>,
    bot_token: Option<Seq<char>>,
    env_override: Option<Seq<char>>,
    fresh: Seq<char>,
)
    requires
        usable(env_override),
    ensures
        persisted_token(
            reconciled_document(doc, provider, model, workspace, bot_token, env_override, fresh),
        ) == env_override,
{
    lemma_token_persisted(
        doc,
        provider,
        model,
        workspace,
        bot_token,
        resolved_token(env_override, persisted_token(doc), fresh),
    );
}

/// `agents.defaults.models` of a document, as entries.
pub open spec fn models_of(doc: Entries) -> Entries {
    entries_of(field(entries_of(field(entries_of(field(doc, "agents"@)), "defaults"@)), "models"@))
}

/// A pass adds the configured model to the model map and keeps every model
/// that was there, with its settings.
pub proof fn law_models_additive(
    doc: Entries,
    provider: Seq<char>,
    model: Seq<char>,
    workspace: Seq<char>,
    bot_token: Option<Seq<char>>,
    token: Seq<char>,
    kept: Seq<char>,
)
    requires
        field(models_of(doc), kept) is Some,
    ensures
        ({
            let r = merged_document(doc, provider, model, workspace, bot_token, token);
            &&& field(models_of(r), kept) == field(models_of(doc), kept)
            &&& field(models_of(r), model) is Some
        }),
{
    lemma_literal_keys();
}

/// Each section this library owns comes back from the snapshot taken before
/// installing, whatever the installer wrote in its place.
pub proof fn law_sections_survive_reinstall(pre: Entries, post: Entries, k: Seq<char>)
    requires
        k == "agents"@ || k == "auth"@ || k == "messages"@ || k == "plugins"@ || k == "channels"@,
        field(pre, k) is Some,
    ensures
        field(restored_document(pre, post), k) == field(pre, k),
{
    lemma_literal_keys();
}

/// After reinstalling, the gateway token is the snapshot's where that one was
/// usable, and every other key of the installer's `gateway` and `gateway.auth`
/// stays as written; otherwise the installer's gateway section stays whole.
pub proof fn law_gateway_token_after_reinstall(pre: Entries, post: Entries, k: Seq<char>)
    ensures
        usable(persisted_token(pre)) ==> persisted_token(restored_document(pre, post))
            == persisted_token(pre),
        usable(persisted_token(pre)) && k != "token"@ ==> field(
            gateway_auth(restored_document(pre, post)),
            k,
        ) == field(gateway_auth(post), k),
        usable(persisted_token(pre)) && k != "auth"@ ==> field(
            entries_of(field(restored_document(pre, post), "gateway"@)),
            k,
        ) == field(entries_of(field(post, "gateway"@)), k),
        !usable(persisted_token(pre)) ==> field(restored_document(pre, post), "gateway"@) == field(
            post,
            "gateway"@,
        ),
{
    lemma_literal_keys();
}

} // verus!
