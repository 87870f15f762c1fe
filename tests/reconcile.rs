use openclaw_setup::config::{dashboard_url, merge_config, reconcile_after_install, reconcile_config, AgentConfig};
use openclaw_setup::configure::{
    configure_documents, identity_text, is_markdown_file_name, soul_text, user_text,
};
use openclaw_setup::error::SetupError;
use openclaw_setup::json::Json;
use openclaw_setup::secret::{choose_token, resolve_token};

fn s(x: &str) -> Json {
    Json::Str(x.to_string())
}

fn n(x: &str) -> Json {
    Json::Number(x.to_string())
}

fn obj(entries: Vec<(&str, Json)>) -> Json {
    Json::Object(entries.into_iter().map(|(k, v)| (k.to_string(), v)).collect())
}

fn keys(v: &Json) -> Vec<String> {
    match v {
        Json::Object(es) => es.iter().map(|(k, _)| k.clone()).collect(),
        _ => panic!("not an object"),
    }
}

fn at<'a>(v: &'a Json, path: &[&str]) -> Option<&'a Json> {
    let mut cur = v;
    for k in path {
        cur = cur.get(k)?;
    }
    Some(cur)
}

fn settings(provider: &str, model: &str, telegram: Option<&str>) -> AgentConfig {
    AgentConfig {
        provider: provider.to_string(),
        api_key: "sk-test".to_string(),
        model: model.to_string(),
        user_name: "Ada".to_string(),
        agent_name: "Claw".to_string(),
        agent_vibe: "calm".to_string(),
        telegram_token: telegram.map(|t| t.to_string()),
    }
}

fn doc_with_token(token: &str) -> Json {
    obj(vec![("gateway", obj(vec![("auth", obj(vec![("mode", s("token")), ("token", s(token))]))]))])
}

#[test]
fn merge_twice_is_identical() {
    let cfg = settings("anthropic", "llama-4", Some("bot-123"));
    let start = obj(vec![("custom", obj(vec![("x", n("1"))]))]);
    let once = reconcile_config(&start, &cfg, "/home/u/.openclaw/workspace", None).unwrap();
    let twice = reconcile_config(&once, &cfg, "/home/u/.openclaw/workspace", None).unwrap();
    assert_eq!(once, twice);
}

#[test]
fn merge_twice_with_override_is_identical() {
    let cfg = settings("openai", "gpt-5", None);
    let once = reconcile_config(&obj(vec![]), &cfg, "/w", Some("T9")).unwrap();
    let twice = reconcile_config(&once, &cfg, "/w", Some("T9")).unwrap();
    assert_eq!(once, twice);
}

#[test]
fn persisted_token_survives_other_settings() {
    let cfg = settings("openai", "gpt-5", None);
    let out = reconcile_config(&doc_with_token("T1"), &cfg, "/w", None).unwrap();
    assert_eq!(at(&out, &["gateway", "auth", "token"]), Some(&s("T1")));
}

#[test]
fn override_beats_persisted_token() {
    let r = resolve_token(Some("T2"), Some("T1"));
    assert_eq!(r, "T2");
    let cfg = settings("openai", "gpt-5", None);
    let out = reconcile_config(&doc_with_token("T1"), &cfg, "/w", Some("T2")).unwrap();
    assert_eq!(at(&out, &["gateway", "auth", "token"]), Some(&s("T2")));
}

#[test]
fn empty_override_is_ignored() {
    assert_eq!(resolve_token(Some(""), Some("T1")), "T1");
    assert_eq!(choose_token(Some(""), None, "fresh".to_string()), "fresh");
}

#[test]
fn fresh_token_is_32_alphanumerics() {
    let t = resolve_token(None, Some(""));
    assert_eq!(t.chars().count(), 32);
    assert!(t.chars().all(|c| c.is_ascii_alphanumeric()));
    let cfg = settings("openai", "gpt-5", None);
    let out = reconcile_config(&obj(vec![]), &cfg, "/w", None).unwrap();
    let tok = at(&out, &["gateway", "auth", "token"]).and_then(|t| t.as_str()).unwrap();
    assert_eq!(tok.len(), 32);
}

#[test]
fn model_map_is_additive() {
    let start = obj(vec![(
        "agents",
        obj(vec![("defaults", obj(vec![("models", obj(vec![("gpt-5", obj(vec![]))]))]))]),
    )]);
    let cfg = settings("anthropic", "llama-4", None);
    let out = reconcile_config(&start, &cfg, "/w", Some("T")).unwrap();
    let models = at(&out, &["agents", "defaults", "models"]).unwrap();
    assert_eq!(models, &obj(vec![("gpt-5", obj(vec![])), ("llama-4", obj(vec![]))]));
    assert_eq!(at(&out, &["agents", "defaults", "model", "primary"]), Some(&s("llama-4")));
}

#[test]
fn scaffolding_is_written_once_and_identity_fields_overwritten() {
    let start = obj(vec![
        ("meta", obj(vec![("lastTouchedVersion", s("old"))])),
        (
            "agents",
            obj(vec![(
                "defaults",
                obj(vec![("maxConcurrent", n("2")), ("workspace", s("/old"))]),
            )]),
        ),
        ("gateway", obj(vec![("port", n("1")), ("mode", s("remote"))])),
    ]);
    let cfg = settings("openai", "gpt-5", None);
    let out = merge_config(&start, &cfg, "/new", "TOK").unwrap();
    assert_eq!(at(&out, &["meta", "lastTouchedVersion"]), Some(&s("old")));
    assert_eq!(at(&out, &["messages", "ackReactionScope"]), Some(&s("group-mentions")));
    assert_eq!(at(&out, &["agents", "defaults", "maxConcurrent"]), Some(&n("2")));
    assert_eq!(at(&out, &["agents", "defaults", "subagents", "maxConcurrent"]), Some(&n("8")));
    assert_eq!(at(&out, &["agents", "defaults", "compaction", "mode"]), Some(&s("safeguard")));
    assert_eq!(at(&out, &["agents", "defaults", "workspace"]), Some(&s("/new")));
    assert_eq!(at(&out, &["gateway", "port"]), Some(&n("18789")));
    assert_eq!(at(&out, &["gateway", "mode"]), Some(&s("local")));
    assert_eq!(at(&out, &["gateway", "bind"]), Some(&s("loopback")));
    assert_eq!(at(&out, &["gateway", "tailscale", "mode"]), Some(&s("off")));
    assert_eq!(at(&out, &["gateway", "tailscale", "resetOnExit"]), Some(&Json::Bool(false)));
    assert_eq!(at(&out, &["gateway", "auth", "mode"]), Some(&s("token")));
    assert_eq!(at(&out, &["gateway", "auth", "token"]), Some(&s("TOK")));
    assert_eq!(
        at(&out, &["auth", "profiles", "openai:default"]),
        Some(&obj(vec![("provider", s("openai")), ("mode", s("token"))]))
    );
}

#[test]
fn foreign_sections_pass_through_in_place() {
    let start = obj(vec![("zeta", s("keep")), ("auth", obj(vec![("other", Json::Null)]))]);
    let cfg = settings("openai", "gpt-5", None);
    let out = merge_config(&start, &cfg, "/w", "T").unwrap();
    assert_eq!(keys(&out)[0], "zeta");
    assert_eq!(out.get("zeta"), Some(&s("keep")));
    assert_eq!(at(&out, &["auth", "other"]), Some(&Json::Null));
    assert_eq!(start, obj(vec![("zeta", s("keep")), ("auth", obj(vec![("other", Json::Null)]))]));
}

#[test]
fn other_profile_refs_are_kept() {
    let start = obj(vec![(
        "auth",
        obj(vec![("profiles", obj(vec![("anthropic:default", obj(vec![("mode", s("token"))]))]))]),
    )]);
    let cfg = settings("openai", "gpt-5", None);
    let out = merge_config(&start, &cfg, "/w", "T").unwrap();
    assert_eq!(
        at(&out, &["auth", "profiles", "anthropic:default"]),
        Some(&obj(vec![("mode", s("token"))]))
    );
}

#[test]
fn telegram_sections_need_a_token() {
    let cfg = settings("openai", "gpt-5", Some("bot-1"));
    let out = merge_config(&obj(vec![]), &cfg, "/w", "T").unwrap();
    assert_eq!(at(&out, &["plugins", "entries", "telegram", "enabled"]), Some(&Json::Bool(true)));
    assert_eq!(
        at(&out, &["channels", "telegram", "accounts", "main"]),
        Some(&obj(vec![
            ("botToken", s("bot-1")),
            ("name", s("Primary Bot")),
            ("dmPolicy", s("pairing")),
        ]))
    );
    let empty = settings("openai", "gpt-5", Some(""));
    let kept = merge_config(&out, &empty, "/w", "T").unwrap();
    assert_eq!(kept, out);
    let none = merge_config(&obj(vec![]), &settings("openai", "gpt-5", None), "/w", "T").unwrap();
    assert_eq!(none.get("plugins"), None);
    assert_eq!(none.get("channels"), None);
}

#[test]
fn non_object_document_is_malformed() {
    let cfg = settings("openai", "gpt-5", None);
    let r = reconcile_config(&Json::Array(vec![]), &cfg, "/w", None);
    assert!(matches!(r, Err(SetupError::MalformedDocument(_))));
    let r = merge_config(&s("x"), &cfg, "/w", "T");
    assert!(matches!(r, Err(SetupError::MalformedDocument(_))));
}

#[test]
fn reinstall_restores_owned_sections() {
    let pre = obj(vec![
        ("auth", obj(vec![("profiles", obj(vec![("anthropic:default", obj(vec![("mode", s("token"))]))]))])),
        ("agents", obj(vec![("defaults", obj(vec![("workspace", s("/w"))]))])),
        ("gateway", obj(vec![("auth", obj(vec![("mode", s("token")), ("token", s("OLD"))]))])),
    ]);
    let post = obj(vec![
        ("auth", obj(vec![("profiles", obj(vec![("fresh:default", obj(vec![]))]))])),
        (
            "gateway",
            obj(vec![
                ("port", n("18789")),
                ("auth", obj(vec![("token", s("NEW")), ("scope", s("installer"))])),
            ]),
        ),
        ("wizard", s("done")),
    ]);
    let out = reconcile_after_install(&pre, &post).unwrap();
    assert_eq!(out.get("auth"), pre.get("auth"));
    assert_eq!(out.get("agents"), pre.get("agents"));
    assert_eq!(
        at(&out, &["gateway", "auth"]),
        Some(&obj(vec![("token", s("OLD")), ("scope", s("installer"))]))
    );
    assert_eq!(at(&out, &["gateway", "port"]), Some(&n("18789")));
    assert_eq!(out.get("wizard"), Some(&s("done")));
}

#[test]
fn reinstall_keeps_installer_token_without_usable_snapshot_token() {
    let pre = obj(vec![("gateway", obj(vec![("auth", obj(vec![("token", s(""))]))]))]);
    let post = obj(vec![("gateway", obj(vec![("auth", obj(vec![("token", s("NEW"))]))]))]);
    let out = reconcile_after_install(&pre, &post).unwrap();
    assert_eq!(out, post);
}

#[test]
fn reinstall_rejects_non_objects() {
    let r = reconcile_after_install(&Json::Null, &obj(vec![]));
    assert!(matches!(r, Err(SetupError::ConfigCorrupt(_))));
    let r = reconcile_after_install(&obj(vec![]), &n("3"));
    assert!(matches!(r, Err(SetupError::ConfigCorrupt(_))));
}

#[test]
fn dashboard_url_reads_token_back() {
    assert_eq!(dashboard_url(&doc_with_token("abc")), "http://127.0.0.1:18789/?token=abc");
    assert_eq!(dashboard_url(&obj(vec![])), "http://127.0.0.1:18789");
    assert_eq!(dashboard_url(&Json::Null), "http://127.0.0.1:18789");
}

#[test]
fn configure_fills_both_documents() {
    let cfg = settings("openai", "gpt-5", None);
    let (c, p) = configure_documents(&obj(vec![]), &obj(vec![("version", n("1"))]), &cfg, "/w", Some("T"))
        .unwrap();
    assert_eq!(at(&c, &["gateway", "auth", "token"]), Some(&s("T")));
    assert_eq!(
        at(&p, &["profiles", "openai:default"]),
        Some(&obj(vec![("type", s("token")), ("provider", s("openai")), ("token", s("sk-test"))]))
    );
    assert_eq!(at(&p, &["lastGood", "openai"]), Some(&s("openai:default")));
    let r = configure_documents(&obj(vec![]), &Json::Null, &cfg, "/w", None);
    assert!(matches!(r, Err(SetupError::MalformedDocument(_))));
}

#[test]
fn workspace_notes() {
    assert_eq!(
        identity_text("Claw", "calm"),
        "# IDENTITY.md\n\nI am Claw, an AI agent powered by OpenClaw.\n\nVibe: calm"
    );
    assert_eq!(user_text("Ada"), "# USER.md\n\nAbout my human: Ada\n");
    assert!(soul_text().starts_with("# SOUL.md\n\n## Mission\n"));
    assert!(is_markdown_file_name("SOUL.md"));
    assert!(!is_markdown_file_name(".md"));
    assert!(!is_markdown_file_name("notes.txt"));
    assert!(!is_markdown_file_name("md"));
}

#[test]
fn repeated_key_reads_first_entry() {
    let doc = obj(vec![("a", s("first")), ("a", s("second"))]);
    assert_eq!(doc.get("a"), Some(&s("first")));
    let cfg = settings("openai", "gpt-5", None);
    let dup = obj(vec![("meta", s("one")), ("meta", s("two"))]);
    let out = merge_config(&dup, &cfg, "/w", "T").unwrap();
    assert_eq!(out.get("meta"), Some(&s("one")));
}
