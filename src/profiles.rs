use vstd::prelude::*;
use vstd::string::*;
use crate::json::{
    entries_model, entries_of, field, group_field_lemmas, lemma_object_model, object_at, put,
    set_field, text, Entries, Json, JsonModel,
};
use crate::config::{make_profile_id, profile_id};
use crate::error::SetupError;

verus! {

broadcast use group_field_lemmas;

/// How a stored credential authenticates.
pub enum ProfileKind {
    Token,
    ApiKey,
}

pub open spec fn kind_name(kind: ProfileKind) -> Seq<char> {
    match kind {
        ProfileKind::Token => "token"@,
        ProfileKind::ApiKey => "apiKey"@,
    }
}

/// The stored entry of one profile.
pub open spec fn profile_model(kind: ProfileKind, provider: Seq<char>, secret: Seq<char>) -> JsonModel {
    JsonModel::Object(
        seq![
            ("type"@, JsonModel::Str(kind_name(kind))),
            ("provider"@, JsonModel::Str(provider)),
            ("token"@, JsonModel::Str(secret)),
        ],
    )
}

/// The profile document after writing one profile: only that profile and the
/// provider's `lastGood` entry change.
pub open spec fn upserted(doc: Entries, provider: Seq<char>, secret: Seq<char>, kind: ProfileKind) -> Entries {
    let id = profile_id(provider);
    let d1 = put(
        doc,
        "profiles"@,
        JsonModel::Object(put(entries_of(field(doc, "profiles"@)), id, profile_model(kind, provider, secret))),
    );
    put(
        d1,
        "lastGood"@,
        JsonModel::Object(put(entries_of(field(d1, "lastGood"@)), provider, JsonModel::Str(id))),
    )
}

/// Writing each (service, secret) pair in turn.
pub open spec fn upserted_all(doc: Entries, services: Seq<(Seq<char>, Seq<char>)>, kind: ProfileKind) -> Entries
    decreases services.len(),
{
    if services.len() == 0 {
        doc
    } else {
        let last = services.last();
        upserted(upserted_all(doc, services.drop_last(), kind), last.0, last.1, kind)
    }
}

pub open spec fn profiles_of(doc: Entries) -> Entries {
    entries_of(field(doc, "profiles"@))
}

pub open spec fn last_good_of(doc: Entries) -> Entries {
    entries_of(field(doc, "lastGood"@))
}

/// The document written where none exists yet: `{"version": 1}`.
pub fn new_profile_document() -> (r: Json)
    ensures
        r.model() == JsonModel::Object(seq![("version"@, JsonModel::Number("1"@))]),
{
    let mut es: Vec<(String, Json)> = Vec::new();
    es.push((text("version"), Json::Number(text("1"))));
    proof {
        assert(entries_model(es@) =~= seq![("version"@, JsonModel::Number("1"@))]);
    }
    Json::object(es)
}

fn kind_text(kind: &ProfileKind) -> (r: String)
    ensures
        r@ == kind_name(*kind),
{
    match kind {
        ProfileKind::Token => text("token"),
        ProfileKind::ApiKey => text("apiKey"),
    }
}

fn upsert_entries(doc: &mut Vec<(String, Json)>, provider: &str, secret: &str, kind: &ProfileKind)
    ensures
        entries_model(final(doc)@) == upserted(entries_model(old(doc)@), provider@, secret@, *kind),
{
    let id = make_profile_id(provider);
    let mut entry: Vec<(String, Json)> = Vec::new();
    entry.push((text("type"), Json::Str(kind_text(kind))));
    entry.push((text("provider"), Json::string(provider)));
    entry.push((text("token"), Json::string(secret)));
    proof {
        assert(entries_model(entry@) =~= seq![
            ("type"@, JsonModel::Str(kind_name(*kind))),
            ("provider"@, JsonModel::Str(provider@)),
            ("token"@, JsonModel::Str(secret@)),
        ]);
    }
    let mut profiles = object_at(doc, &text("profiles"));
    set_field(&mut profiles, id.clone(), Json::object(entry));
    set_field(doc, text("profiles"), Json::object(profiles));
    let mut last_good = object_at(doc, &text("lastGood"));
    set_field(&mut last_good, String::from_str(provider), Json::Str(id));
    set_field(doc, text("lastGood"), Json::object(last_good));
}

/// Writes the profile `"{provider}:default"` and marks it as the provider's
/// last good profile, leaving every other entry as it was.
pub fn upsert_profile(existing: &Json, provider: &str, secret: &str, kind: ProfileKind) -> (r:
    Result<Json, SetupError>)
    ensures
        match existing.object_entries() {
            Some(es) => r is Ok && r->Ok_0.model() == JsonModel::Object(
                upserted(es, provider@, secret@, kind),
            ),
            None => r is Err && r->Err_0 is MalformedDocument,
        },
{
    match existing {
        Json::Object(src) => {
            proof {
                lemma_object_model(*src);
            }
            let mut doc = crate::json::copy_entries(src);
            upsert_entries(&mut doc, provider, secret, &kind);
            Ok(Json::object(doc))
        },
        _ => Err(SetupError::MalformedDocument(text("profile document is not a JSON object"))),
    }
}

/// Writes one profile `"{service}:default"` for each (service, secret) pair, in order.
pub fn upsert_service_profiles(
    existing: &Json,
    services: &Vec<(String, String)>,
    kind: ProfileKind,
) -> (r: Result<Json, SetupError>)
    ensures
        match existing.object_entries() {
            Some(es) => r is Ok && r->Ok_0.model() == JsonModel::Object(
                upserted_all(es, services@.map_values(|p: (String, String)| (p.0@, p.1@)), kind),
            ),
            None => r is Err && r->Err_0 is MalformedDocument,
        },
{
    let src = match existing {
        Json::Object(src) => src,
        _ => {
            return Err(SetupError::MalformedDocument(text("profile document is not a JSON object")));
        },
    };
    proof {
        lemma_object_model(*src);
    }
    let ghost pairs = services@.map_values(|p: (String, String)| (p.0@, p.1@));
    let ghost start = entries_model(src@);
    let mut doc = crate::json::copy_entries(src);
    let mut i: usize = 0;
    while i < services.len()
        invariant
            i <= services.len(),
            pairs == services@.map_values(|p: (String, String)| (p.0@, p.1@)),
            entries_model(doc@) == upserted_all(start, pairs.subrange(0, i as int), kind),
        decreases services.len() - i,
    {
        upsert_entries(&mut doc, services[i].0.as_str(), services[i].1.as_str(), &kind);
        proof {
            let next = pairs.subrange(0, i + 1);
            assert(next.drop_last() =~= pairs.subrange(0, i as int));
        }
        i = i + 1;
    }
    proof {
        assert(pairs.subrange(0, i as int) =~= pairs);
    }
    Ok(Json::object(doc))
}

/// Writing one profile leaves every other profile as it was and records it as
/// the provider's last good profile.
pub proof fn law_profile_isolation(
    doc: Entries,
    provider: Seq<char>,
    secret: Seq<char>,
    kind: ProfileKind,
    other: Seq<char>,
    other_provider: Seq<char>,
)
    requires
        other != profile_id(provider),
        other_provider != provider,
    ensures
        ({
            let r = upserted(doc, provider, secret, kind);
            &&& field(profiles_of(r), other) == field(profiles_of(doc), other)
            &&& field(last_good_of(r), other_provider) == field(last_good_of(doc), other_provider)
            &&& field(profiles_of(r), profile_id(provider)) == Some(profile_model(kind, provider, secret))
            &&& field(last_good_of(r), provider) == Some(JsonModel::Str(profile_id(provider)))
        }),
{
    reveal_strlit("profiles");
    reveal_strlit("lastGood");
    assert("profiles"@[0] != "lastGood"@[0]);
}

} // verus!
