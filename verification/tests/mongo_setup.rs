use crewlist::mongo::{
    detail_validator, first_setup_step, is_namespace_exists, next_setup_action, setup_command,
    validator_document, Bson, BsonType, CommandOutcome, SetupAction, SetupStep, DB_NAME,
    DETAILS_COLLECTION, NAMESPACE_EXISTS,
};
use crewlist::store::StoreError;

#[test]
fn validator_shape() {
    let v = detail_validator();
    assert!(!v.additional_properties);
    assert_eq!(v.required, vec!["task_id", "schema_version", "created_at", "updated_at"]);
    let names: Vec<&str> = v.properties.iter().map(|f| f.name).collect();
    assert_eq!(
        names,
        vec!["_id", "task_id", "schema_version", "description", "summary", "created_at", "updated_at"]
    );
    let version = &v.properties[2];
    assert_eq!(version.types, vec![BsonType::Int]);
    assert_eq!(version.minimum, Some(1));
    assert_eq!(v.properties[1].types, vec![BsonType::Long]);
    assert_eq!(v.properties[4].types, vec![BsonType::String, BsonType::Null]);
    for f in &v.properties {
        assert!(!f.types.is_empty());
    }
    let arrays: Vec<&str> = v.arrays.iter().map(|a| a.name).collect();
    assert_eq!(arrays, vec!["notes", "sources", "contacts"]);
    for a in &v.arrays {
        assert!(!a.items.additional_properties);
        for r in &a.items.required {
            assert!(a.items.properties.iter().any(|p| p.name == *r));
        }
    }
    assert_eq!(v.arrays[1].items.required, vec!["url", "retrieved_at"]);
    assert_eq!(v.arrays[2].items.required, vec!["name"]);
    assert_eq!(BsonType::ObjectId.as_str(), "objectId");
    assert_eq!(BsonType::Date.as_str(), "date");
}

#[test]
fn names_and_codes() {
    assert_eq!(DB_NAME, "crewlist");
    assert_eq!(DETAILS_COLLECTION, "task_details");
    assert_eq!(NAMESPACE_EXISTS, 48);
    assert!(is_namespace_exists(Some(48)));
    assert!(!is_namespace_exists(Some(13)));
    assert!(!is_namespace_exists(None));
}

fn failed(code: Option<i32>, message: &str) -> CommandOutcome {
    CommandOutcome::Failed { code, message: message.to_string() }
}

fn is_run(a: &SetupAction, step: SetupStep) -> bool {
    matches!(a, SetupAction::Run(s) if *s == step)
}

#[test]
fn fresh_setup_runs_three_steps() {
    let step = first_setup_step();
    assert_eq!(step, SetupStep::CreateCollection);
    let a = next_setup_action(step, CommandOutcome::Succeeded);
    assert!(is_run(&a, SetupStep::ApplyValidator));
    let a = next_setup_action(SetupStep::ApplyValidator, CommandOutcome::Succeeded);
    assert!(is_run(&a, SetupStep::CreateIndexes));
    let a = next_setup_action(SetupStep::CreateIndexes, CommandOutcome::Succeeded);
    assert!(matches!(a, SetupAction::Finished));
}

#[test]
fn setup_is_idempotent_on_an_existing_collection() {
    let a = next_setup_action(SetupStep::CreateCollection, failed(Some(48), "exists"));
    assert!(is_run(&a, SetupStep::ApplyValidator));
}

#[test]
fn other_failures_abort_setup() {
    let a = next_setup_action(SetupStep::CreateCollection, failed(Some(13), "unauthorized"));
    match a {
        SetupAction::Abort(StoreError::Init { store, source }) => {
            assert_eq!(store, "mongo");
            assert_eq!(source, "unauthorized");
        }
        other => panic!("expected abort, got {other:?}"),
    }
    let a = next_setup_action(SetupStep::ApplyValidator, failed(Some(48), "odd"));
    assert!(matches!(a, SetupAction::Abort(_)));
    let a = next_setup_action(SetupStep::CreateIndexes, failed(None, "network"));
    match a {
        SetupAction::Abort(e) => assert_eq!(e.to_string(), "cannot initialize mongo: network"),
        other => panic!("expected abort, got {other:?}"),
    }
}

fn render(b: &Bson) -> String {
    match b {
        Bson::Str(s) => format!("{s:?}"),
        Bson::Int(i) => i.to_string(),
        Bson::Bool(b) => b.to_string(),
        Bson::Array(items) => {
            let parts: Vec<String> = items.iter().map(render).collect();
            format!("[{}]", parts.join(","))
        }
        Bson::Doc(entries) => render_doc(entries),
    }
}

fn render_doc(entries: &[(&'static str, Bson)]) -> String {
    let parts: Vec<String> = entries.iter().map(|(k, v)| format!("{k:?}:{}", render(v))).collect();
    format!("{{{}}}", parts.join(","))
}

#[test]
fn create_and_index_commands() {
    assert_eq!(
        render_doc(&setup_command(SetupStep::CreateCollection)),
        r#"{"create":"task_details"}"#
    );
    assert_eq!(
        render_doc(&setup_command(SetupStep::CreateIndexes)),
        r#"{"createIndexes":"task_details","indexes":[{"key":{"task_id":1},"name":"task_id_unique","unique":true}]}"#
    );
}

#[test]
fn collmod_command_installs_the_validator_strictly() {
    let cmd = setup_command(SetupStep::ApplyValidator);
    let keys: Vec<&str> = cmd.iter().map(|(k, _)| *k).collect();
    assert_eq!(keys, vec!["collMod", "validator", "validationLevel", "validationAction"]);
    assert_eq!(render(&cmd[0].1), r#""task_details""#);
    assert_eq!(render(&cmd[2].1), r#""strict""#);
    assert_eq!(render(&cmd[3].1), r#""error""#);
    assert_eq!(render(&cmd[1].1), render(&validator_document(&detail_validator())));
}

#[test]
fn validator_document_rendering() {
    let expected: String = [
        r#"{"$jsonSchema":{"bsonType":"object","#,
        r#""required":["task_id","schema_version","created_at","updated_at"],"#,
        r#""additionalProperties":false,"properties":{"#,
        r#""_id":{"bsonType":"objectId"},"task_id":{"bsonType":"long"},"#,
        r#""schema_version":{"bsonType":"int","minimum":1},"#,
        r#""description":{"bsonType":"string"},"summary":{"bsonType":["string","null"]},"#,
        r#""created_at":{"bsonType":"date"},"updated_at":{"bsonType":"date"},"#,
        r#""notes":{"bsonType":"array","items":{"bsonType":"object","required":["author","body","at"],"#,
        r#""additionalProperties":false,"properties":{"author":{"bsonType":"string"},"#,
        r#""body":{"bsonType":"string"},"at":{"bsonType":"date"}}}},"#,
        r#""sources":{"bsonType":"array","items":{"bsonType":"object","required":["url","retrieved_at"],"#,
        r#""additionalProperties":false,"properties":{"url":{"bsonType":"string"},"#,
        r#""title":{"bsonType":["string","null"]},"retrieved_at":{"bsonType":"date"}}}},"#,
        r#""contacts":{"bsonType":"array","items":{"bsonType":"object","required":["name"],"#,
        r#""additionalProperties":false,"properties":{"name":{"bsonType":"string"},"#,
        r#""phone":{"bsonType":["string","null"]},"email":{"bsonType":["string","null"]},"#,
        r#""url":{"bsonType":["string","null"]}}}}}}}"#,
    ]
    .concat();
    assert_eq!(render(&validator_document(&detail_validator())), expected);
}
