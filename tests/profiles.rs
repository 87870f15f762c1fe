use openclaw_setup::error::SetupError;
use openclaw_setup::json::Json;
use openclaw_setup::profiles::{new_profile_document, upsert_profile, upsert_service_profiles, ProfileKind};

fn s(x: &str) -> Json {
    Json::Str(x.to_string())
}

fn obj(entries: Vec<(&str, Json)>) -> Json {
    Json::Object(entries.into_iter().map(|(k, v)| (k.to_string(), v)).collect())
}

#[test]
fn upsert_keeps_other_profiles() {
    let anthropic = obj(vec![("type", s("token")), ("provider", s("anthropic")), ("token", s("a"))]);
    let doc = obj(vec![
        ("version", Json::Number("1".to_string())),
        ("profiles", obj(vec![("anthropic:default", anthropic.deep_copy())])),
        ("lastGood", obj(vec![("anthropic", s("anthropic:default"))])),
    ]);
    let out = upsert_profile(&doc, "openai", "sk-1", ProfileKind::Token).unwrap();
    let profiles = out.get("profiles").unwrap();
    assert_eq!(profiles.get("anthropic:default"), Some(&anthropic));
    assert_eq!(
        profiles.get("openai:default"),
        Some(&obj(vec![("type", s("token")), ("provider", s("openai")), ("token", s("sk-1"))]))
    );
    let last_good = out.get("lastGood").unwrap();
    assert_eq!(last_good.get("openai"), Some(&s("openai:default")));
    assert_eq!(last_good.get("anthropic"), Some(&s("anthropic:default")));
}

#[test]
fn upsert_overwrites_same_profile() {
    let doc = new_profile_document();
    let once = upsert_profile(&doc, "openai", "old", ProfileKind::Token).unwrap();
    let twice = upsert_profile(&once, "openai", "new", ProfileKind::ApiKey).unwrap();
    let p = twice.get("profiles").unwrap().get("openai:default").unwrap();
    assert_eq!(p.get("token"), Some(&s("new")));
    assert_eq!(p.get("type"), Some(&s("apiKey")));
    assert_eq!(twice.get("version"), Some(&Json::Number("1".to_string())));
}

#[test]
fn service_profiles_get_synthesized_ids() {
    let services = vec![
        ("brave".to_string(), "k1".to_string()),
        ("elevenlabs".to_string(), "k2".to_string()),
    ];
    let out = upsert_service_profiles(&new_profile_document(), &services, ProfileKind::ApiKey).unwrap();
    let profiles = out.get("profiles").unwrap();
    assert_eq!(profiles.get("brave:default").unwrap().get("token"), Some(&s("k1")));
    assert_eq!(profiles.get("elevenlabs:default").unwrap().get("token"), Some(&s("k2")));
    assert_eq!(out.get("lastGood").unwrap().get("brave"), Some(&s("brave:default")));
}

#[test]
fn profile_document_must_be_object() {
    let r = upsert_profile(&Json::Bool(true), "openai", "k", ProfileKind::Token);
    assert!(matches!(r, Err(SetupError::MalformedDocument(_))));
}
