//! The Mongo side of the detail store: where the documents live, the
//! `$jsonSchema` validator that rejects drift, and the order of the commands
//! that set the collection up on boot.
use vstd::prelude::*;

use crate::store::StoreError;

verus! {

pub const DB_NAME: &'static str = "crewlist";

pub const DETAILS_COLLECTION: &'static str = "task_details";

/// Mongo's error code for "collection already exists".
pub const NAMESPACE_EXISTS: i32 = 48;

/// A BSON type a validator can pin a field to.
#[derive(Debug, Clone, Copy, PartialEq, Eq, Structural)]
pub enum BsonType {
    ObjectId,
    Long,
    Int,
    String,
    Null,
    Date,
}

impl BsonType {
    /// The `bsonType` alias of the type.
    pub open spec fn alias(self) -> Seq<char> {
        match self {
            BsonType::ObjectId => "objectId"@,
            BsonType::Long => "long"@,
            BsonType::Int => "int"@,
            BsonType::String => "string"@,
            BsonType::Null => "null"@,
            BsonType::Date => "date"@,
        }
    }

    pub fn as_str(self) -> (s: &'static str)
        ensures
            s@ == self.alias(),
    {
        match self {
            BsonType::ObjectId => "objectId",
            BsonType::Long => "long",
            BsonType::Int => "int",
            BsonType::String => "string",
            BsonType::Null => "null",
            BsonType::Date => "date",
        }
    }
}

/// A scalar field: the types it may have, and a lower bound for a number.
#[derive(Debug)]
pub struct FieldSchema {
    pub name: &'static str,
    pub types: Vec<BsonType>,
    pub minimum: Option<i32>,
}

/// The shape of each element of an array field: an object.
#[derive(Debug)]
pub struct ElementSchema {
    pub required: Vec<&'static str>,
    pub additional_properties: bool,
    pub properties: Vec<FieldSchema>,
}

/// An array field whose elements are objects.
#[derive(Debug)]
pub struct ArrayField {
    pub name: &'static str,
    pub items: ElementSchema,
}

/// The validator of a document: an object with scalar fields and arrays of
/// objects.
#[derive(Debug)]
pub struct DocumentSchema {
    pub required: Vec<&'static str>,
    pub additional_properties: bool,
    pub properties: Vec<FieldSchema>,
    pub arrays: Vec<ArrayField>,
}

/// A field as the contracts see it.
#[verifier::ext_equal]
pub struct FieldSpec {
    pub name: Seq<char>,
    pub types: Seq<BsonType>,
    pub minimum: Option<i32>,
}

#[verifier::ext_equal]
pub struct ElementSpec {
    pub required: Seq<Seq<char>>,
    pub additional_properties: bool,
    pub properties: Seq<FieldSpec>,
}

#[verifier::ext_equal]
pub struct ArraySpec {
    pub name: Seq<char>,
    pub items: ElementSpec,
}

#[verifier::ext_equal]
pub struct DocumentSpec {
    pub required: Seq<Seq<char>>,
    pub additional_properties: bool,
    pub properties: Seq<FieldSpec>,
    pub arrays: Seq<ArraySpec>,
}

pub open spec fn names_view(names: Seq<&'static str>) -> Seq<Seq<char>> {
    names.map_values(|n: &'static str| n@)
}

impl View for FieldSchema {
    type V = FieldSpec;

    open spec fn view(&self) -> FieldSpec {
        FieldSpec { name: self.name@, types: self.types@, minimum: self.minimum }
    }
}

impl View for ElementSchema {
    type V = ElementSpec;

    open spec fn view(&self) -> ElementSpec {
        ElementSpec {
            required: names_view(self.required@),
            additional_properties: self.additional_properties,
            properties: self.properties@.map_values(|f: FieldSchema| f@),
        }
    }
}

impl View for ArrayField {
    type V = ArraySpec;

    open spec fn view(&self) -> ArraySpec {
        ArraySpec { name: self.name@, items: self.items@ }
    }
}

impl View for DocumentSchema {
    type V = DocumentSpec;

    open spec fn view(&self) -> DocumentSpec {
        DocumentSpec {
            required: names_view(self.required@),
            additional_properties: self.additional_properties,
            properties: self.properties@.map_values(|f: FieldSchema| f@),
            arrays: self.arrays@.map_values(|a: ArrayField| a@),
        }
    }
}

pub open spec fn field(name: Seq<char>, types: Seq<BsonType>) -> FieldSpec {
    FieldSpec { name, types, minimum: None }
}

/// The validator of the detail collection.
pub open spec fn detail_schema() -> DocumentSpec {
    DocumentSpec {
        required: seq!["task_id"@, "schema_version"@, "created_at"@, "updated_at"@],
        additional_properties: false,
        properties: seq![
            field("_id"@, seq![BsonType::ObjectId]),
            field("task_id"@, seq![BsonType::Long]),
            FieldSpec { name: "schema_version"@, types: seq![BsonType::Int], minimum: Some(1) },
            field("description"@, seq![BsonType::String]),
            field("summary"@, seq![BsonType::String, BsonType::Null]),
            field("created_at"@, seq![BsonType::Date]),
            field("updated_at"@, seq![BsonType::Date]),
        ],
        arrays: seq![
            ArraySpec {
                name: "notes"@,
                items: ElementSpec {
                    required: seq!["author"@, "body"@, "at"@],
                    additional_properties: false,
                    properties: seq![
                        field("author"@, seq![BsonType::String]),
                        field("body"@, seq![BsonType::String]),
                        field("at"@, seq![BsonType::Date]),
                    ],
                },
            },
            ArraySpec {
                name: "sources"@,
                items: ElementSpec {
                    required: seq!["url"@, "retrieved_at"@],
                    additional_properties: false,
                    properties: seq![
                        field("url"@, seq![BsonType::String]),
                        field("title"@, seq![BsonType::String, BsonType::Null]),
                        field("retrieved_at"@, seq![BsonType::Date]),
                    ],
                },
            },
            ArraySpec {
                name: "contacts"@,
                items: ElementSpec {
                    required: seq!["name"@],
                    additional_properties: false,
                    properties: seq![
                        field("name"@, seq![BsonType::String]),
                        field("phone"@, seq![BsonType::String, BsonType::Null]),
                        field("email"@, seq![BsonType::String, BsonType::Null]),
                        field("url"@, seq![BsonType::String, BsonType::Null]),
                    ],
                },
            },
        ],
    }
}

fn scalar(name: &'static str, types: Vec<BsonType>) -> (f: FieldSchema)
    ensures
        f@ == field(name@, types@),
{
    FieldSchema { name, types, minimum: None }
}

fn notes_items() -> (e: ElementSchema)
    ensures
        e@ == detail_schema().arrays[0].items,
{
    let e = ElementSchema {
        required: vec!["author", "body", "at"],
        additional_properties: false,
        properties: vec![
            scalar("author", vec![BsonType::String]),
            scalar("body", vec![BsonType::String]),
            scalar("at", vec![BsonType::Date]),
        ],
    };
    assert(e@.required =~= detail_schema().arrays[0].items.required);
    assert(e@.properties =~~= detail_schema().arrays[0].items.properties);
    e
}

fn sources_items() -> (e: ElementSchema)
    ensures
        e@ == detail_schema().arrays[1].items,
{
    let e = ElementSchema {
        required: vec!["url", "retrieved_at"],
        additional_properties: false,
        properties: vec![
            scalar("url", vec![BsonType::String]),
            scalar("title", vec![BsonType::String, BsonType::Null]),
            scalar("retrieved_at", vec![BsonType::Date]),
        ],
    };
    assert(e@.required =~= detail_schema().arrays[1].items.required);
    assert(e@.properties =~~= detail_schema().arrays[1].items.properties);
    e
}

fn contacts_items() -> (e: ElementSchema)
    ensures
        e@ == detail_schema().arrays[2].items,
{
    let e = ElementSchema {
        required: vec!["name"],
        additional_properties: false,
        properties: vec![
            scalar("name", vec![BsonType::String]),
            scalar("phone", vec![BsonType::String, BsonType::Null]),
            scalar("email", vec![BsonType::String, BsonType::Null]),
            scalar("url", vec![BsonType::String, BsonType::Null]),
        ],
    };
    assert(e@.required =~= detail_schema().arrays[2].items.required);
    assert(e@.properties =~~= detail_schema().arrays[2].items.properties);
    e
}

/// The `$jsonSchema` validator of the detail collection.
pub fn detail_validator() -> (v: DocumentSchema)
    ensures
        v@ == detail_schema(),
{
    let arrays = vec![
        ArrayField { name: "notes", items: notes_items() },
        ArrayField { name: "sources", items: sources_items() },
        ArrayField { name: "contacts", items: contacts_items() },
    ];
    let v = DocumentSchema {
        required: vec!["task_id", "schema_version", "created_at", "updated_at"],
        additional_properties: false,
        properties: vec![
            scalar("_id", vec![BsonType::ObjectId]),
            scalar("task_id", vec![BsonType::Long]),
            FieldSchema { name: "schema_version", types: vec![BsonType::Int], minimum: Some(1) },
            scalar("description", vec![BsonType::String]),
            scalar("summary", vec![BsonType::String, BsonType::Null]),
            scalar("created_at", vec![BsonType::Date]),
            scalar("updated_at", vec![BsonType::Date]),
        ],
        arrays,
    };
    assert(v@.required =~= detail_schema().required);
    assert(v@.properties =~~= detail_schema().properties);
    assert(v@.arrays =~= detail_schema().arrays);
    v
}

/// The validator rejects drift: no property outside the schema is allowed at
/// the document root or inside any array element.
pub proof fn lemma_validator_rejects_extra_properties()
    ensures
        !detail_schema().additional_properties,
        forall|i: int|
            0 <= i < detail_schema().arrays.len()
                ==> !(#[trigger] detail_schema().arrays[i]).items.additional_properties,
{
}

/// Every field the validator knows, at the root and in array elements, is
/// pinned to at least one type.
pub proof fn lemma_validator_pins_every_field()
    ensures
        forall|i: int|
            0 <= i < detail_schema().properties.len() ==> (#[trigger] detail_schema().properties[
                i]).types.len() > 0,
        forall|i: int, j: int|
            0 <= i < detail_schema().arrays.len() && 0 <= j < detail_schema().arrays[i].items.properties.len()
                ==> (#[trigger] detail_schema().arrays[i].items.properties[j]).types.len() > 0,
{
}

/// Every field the validator requires, at the root and in array elements, is
/// one it describes.
pub proof fn lemma_validator_requires_described_fields()
    ensures
        forall|i: int|
            0 <= i < detail_schema().required.len() ==> exists|j: int|
                0 <= j < detail_schema().properties.len() && detail_schema().properties[j].name
                    == #[trigger] detail_schema().required[i],
        forall|a: int, i: int|
            0 <= a < detail_schema().arrays.len() && 0 <= i < detail_schema().arrays[a].items.required.len()
                ==> exists|j: int|
                0 <= j < detail_schema().arrays[a].items.properties.len() && detail_schema().arrays[
                    a].items.properties[j].name == #[trigger] detail_schema().arrays[a].items.required[i],
{
    let d = detail_schema();
    assert(d.required[0] == d.properties[1].name);
    assert(d.required[1] == d.properties[2].name);
    assert(d.required[2] == d.properties[5].name);
    assert(d.required[3] == d.properties[6].name);
    let n = d.arrays[0].items;
    assert(n.required[0] == n.properties[0].name);
    assert(n.required[1] == n.properties[1].name);
    assert(n.required[2] == n.properties[2].name);
    let s = d.arrays[1].items;
    assert(s.required[0] == s.properties[0].name);
    assert(s.required[1] == s.properties[2].name);
    let c = d.arrays[2].items;
    assert(c.required[0] == c.properties[0].name);
}

/// A setup command of the detail collection, in the order they run.
#[derive(Debug, Clone, Copy, PartialEq, Eq, Structural)]
pub enum SetupStep {
    /// `create` the collection.
    CreateCollection,
    /// `collMod` with the validator, strict level, error action.
    ApplyValidator,
    /// `createIndexes`: the unique index on `task_id`.
    CreateIndexes,
}

/// How a setup command came back: success, or failure with the server's
/// error code when it gave one.
#[derive(Debug)]
pub enum CommandOutcome {
    Succeeded,
    Failed { code: Option<i32>, message: String },
}

/// What setup does next.
#[derive(Debug)]
pub enum SetupAction {
    Run(SetupStep),
    Finished,
    Abort(StoreError),
}

/// Setup starts by creating the collection.
pub fn first_setup_step() -> (s: SetupStep)
    ensures
        s == SetupStep::CreateCollection,
{
    SetupStep::CreateCollection
}

/// Whether a command failed only because the collection already exists.
pub fn is_namespace_exists(code: Option<i32>) -> (b: bool)
    ensures
        b == (code == Some(NAMESPACE_EXISTS)),
{
    match code {
        Some(c) => c == NAMESPACE_EXISTS,
        None => false,
    }
}

/// The step after `step`, when there is one.
pub open spec fn following_step(step: SetupStep) -> Option<SetupStep> {
    match step {
        SetupStep::CreateCollection => Some(SetupStep::ApplyValidator),
        SetupStep::ApplyValidator => Some(SetupStep::CreateIndexes),
        SetupStep::CreateIndexes => None,
    }
}

/// Whether a setup command counts as done: it succeeded, or it was the
/// `create` of a collection that already exists.
pub open spec fn step_completed(step: SetupStep, outcome: CommandOutcome) -> bool {
    match outcome {
        CommandOutcome::Succeeded => true,
        CommandOutcome::Failed { code, .. } => step == SetupStep::CreateCollection && code == Some(
            NAMESPACE_EXISTS,
        ),
    }
}

/// The only failure setup tolerates is a `create` refused because the
/// collection already exists; every other failed command leaves its step
/// undone.
pub proof fn lemma_only_an_existing_collection_is_tolerated(
    step: SetupStep,
    code: Option<i32>,
    message: String,
)
    ensures
        step_completed(step, CommandOutcome::Failed { code, message }) ==> step
            == SetupStep::CreateCollection && code == Some(NAMESPACE_EXISTS),
        step == SetupStep::CreateCollection && code == Some(NAMESPACE_EXISTS) ==> step_completed(
            step,
            CommandOutcome::Failed { code, message },
        ),
        step_completed(step, CommandOutcome::Succeeded),
{
}

/// Setup runs `create`, then `collMod`, then `createIndexes`, and finishes
/// only after the last of them.
pub proof fn lemma_setup_order()
    ensures
        following_step(SetupStep::CreateCollection) == Some(SetupStep::ApplyValidator),
        following_step(SetupStep::ApplyValidator) == Some(SetupStep::CreateIndexes),
        following_step(SetupStep::CreateIndexes) is None,
{
}

/// Decides what follows a setup command. Each step runs once, in order; a
/// `create` that fails because the collection exists counts as done, so a
/// restart re-applies the validator and the index to an existing collection;
/// any other failure aborts setup as an `Init` error of `mongo`.
pub fn next_setup_action(step: SetupStep, outcome: CommandOutcome) -> (a: SetupAction)
    ensures
        step_completed(step, outcome) ==> a == match following_step(step) {
            Some(next) => SetupAction::Run(next),
            None => SetupAction::Finished,
        },
        !step_completed(step, outcome) ==> (outcome matches CommandOutcome::Failed { message, .. }
            && a == SetupAction::Abort(StoreError::Init { store: "mongo", source: message })),
        a is Finished ==> step == SetupStep::CreateIndexes && outcome is Succeeded,
        match outcome {
            CommandOutcome::Failed { code, message } => !(step == SetupStep::CreateCollection
                && code == Some(NAMESPACE_EXISTS)) ==> a == SetupAction::Abort(
                StoreError::Init { store: "mongo", source: message },
            ),
            CommandOutcome::Succeeded => !(a is Abort),
        },
{
    let proceed = match &outcome {
        CommandOutcome::Succeeded => true,
        CommandOutcome::Failed { code, .. } => step == SetupStep::CreateCollection
            && is_namespace_exists(*code),
    };
    if proceed {
        match step {
            SetupStep::CreateCollection => SetupAction::Run(SetupStep::ApplyValidator),
            SetupStep::ApplyValidator => SetupAction::Run(SetupStep::CreateIndexes),
            SetupStep::CreateIndexes => SetupAction::Finished,
        }
    } else {
        match outcome {
            CommandOutcome::Failed { message, .. } => SetupAction::Abort(
                StoreError::Init { store: "mongo", source: message },
            ),
            CommandOutcome::Succeeded => SetupAction::Finished,
        }
    }
}

/// A BSON value, as the setup commands are built from them.
#[derive(Debug)]
pub enum Bson {
    Str(&'static str),
    Int(i32),
    Bool(bool),
    Array(Vec<Bson>),
    /// Keys and values, in order.
    Doc(Vec<(&'static str, Bson)>),
}

pub open spec fn is_str(b: Bson, s: Seq<char>) -> bool {
    match b {
        Bson::Str(x) => x@ == s,
        _ => false,
    }
}

pub open spec fn items_of(b: Bson) -> Seq<Bson> {
    match b {
        Bson::Array(v) => v@,
        _ => Seq::empty(),
    }
}

pub open spec fn entries_of(b: Bson) -> Seq<(&'static str, Bson)> {
    match b {
        Bson::Doc(v) => v@,
        _ => Seq::empty(),
    }
}

/// The key of the `i`th entry of a document.
pub open spec fn key_at(b: Bson, i: int) -> Seq<char> {
    entries_of(b)[i].0@
}

/// The value of the `i`th entry of a document.
pub open spec fn value_at(b: Bson, i: int) -> Bson {
    entries_of(b)[i].1
}

/// A document whose keys are exactly `keys`, in order.
pub open spec fn has_keys(b: Bson, keys: Seq<Seq<char>>) -> bool {
    &&& b is Doc
    &&& entries_of(b).len() == keys.len()
    &&& forall|i: int| 0 <= i < keys.len() ==> #[trigger] key_at(b, i) == keys[i]
}

/// A list of names is an array of their strings.
pub open spec fn renders_names(b: Bson, names: Seq<Seq<char>>) -> bool {
    &&& b is Array
    &&& items_of(b).len() == names.len()
    &&& forall|i: int| 0 <= i < names.len() ==> is_str(#[trigger] items_of(b)[i], names[i])
}

/// `bsonType`: one type is written as its alias; several as an array of
/// aliases.
pub open spec fn renders_types(b: Bson, types: Seq<BsonType>) -> bool {
    if types.len() == 1 {
        is_str(b, types[0].alias())
    } else {
        &&& b is Array
        &&& items_of(b).len() == types.len()
        &&& forall|i: int|
            0 <= i < types.len() ==> is_str(#[trigger] items_of(b)[i], types[i].alias())
    }
}

/// A scalar field: `{ bsonType }`, and `minimum` after it when there is one.
pub open spec fn renders_field(b: Bson, f: FieldSpec) -> bool {
    &&& has_keys(
        b,
        if f.minimum is Some {
            seq!["bsonType"@, "minimum"@]
        } else {
            seq!["bsonType"@]
        },
    )
    &&& renders_types(value_at(b, 0), f.types)
    &&& f.minimum matches Some(m) ==> value_at(b, 1) == Bson::Int(m)
}

/// The `properties` of an array element: each field under its name, in order.
pub open spec fn renders_fields(b: Bson, fields: Seq<FieldSpec>) -> bool {
    &&& b is Doc
    &&& entries_of(b).len() == fields.len()
    &&& forall|i: int|
        0 <= i < fields.len() ==> #[trigger] key_at(b, i) == fields[i].name && renders_field(
            value_at(b, i),
            fields[i],
        )
}

/// An array element: an object with its required fields, its
/// `additionalProperties`, and its properties.
pub open spec fn renders_element(b: Bson, e: ElementSpec) -> bool {
    &&& has_keys(b, seq!["bsonType"@, "required"@, "additionalProperties"@, "properties"@])
    &&& is_str(value_at(b, 0), "object"@)
    &&& renders_names(value_at(b, 1), e.required)
    &&& value_at(b, 2) == Bson::Bool(e.additional_properties)
    &&& renders_fields(value_at(b, 3), e.properties)
}

/// An array field: `{ bsonType: "array", items: <element> }`.
pub open spec fn renders_array(b: Bson, a: ArraySpec) -> bool {
    &&& has_keys(b, seq!["bsonType"@, "items"@])
    &&& is_str(value_at(b, 0), "array"@)
    &&& renders_element(value_at(b, 1), a.items)
}

/// The root `properties`: the scalar fields, then the array fields, each
/// under its name.
pub open spec fn renders_properties(b: Bson, d: DocumentSpec) -> bool {
    &&& b is Doc
    &&& entries_of(b).len() == d.properties.len() + d.arrays.len()
    &&& forall|i: int|
        0 <= i < d.properties.len() ==> #[trigger] key_at(b, i) == d.properties[i].name
            && renders_field(value_at(b, i), d.properties[i])
    &&& forall|j: int|
        0 <= j < d.arrays.len() ==> #[trigger] key_at(b, d.properties.len() + j)
            == d.arrays[j].name && renders_array(value_at(b, d.properties.len() + j), d.arrays[j])
}

/// The validator: `{ $jsonSchema: { bsonType: "object", required,
/// additionalProperties, properties } }`.
pub open spec fn renders_validator(b: Bson, d: DocumentSpec) -> bool {
    &&& has_keys(b, seq!["$jsonSchema"@])
    &&& has_keys(
        value_at(b, 0),
        seq!["bsonType"@, "required"@, "additionalProperties"@, "properties"@],
    )
    &&& is_str(value_at(value_at(b, 0), 0), "object"@)
    &&& renders_names(value_at(value_at(b, 0), 1), d.required)
    &&& value_at(value_at(b, 0), 2) == Bson::Bool(d.additional_properties)
    &&& renders_properties(value_at(value_at(b, 0), 3), d)
}

/// The unique index on `task_id`:
/// `{ key: { task_id: 1 }, name: "task_id_unique", unique: true }`.
pub open spec fn renders_task_id_index(b: Bson) -> bool {
    &&& has_keys(b, seq!["key"@, "name"@, "unique"@])
    &&& has_keys(value_at(b, 0), seq!["task_id"@])
    &&& value_at(value_at(b, 0), 0) == Bson::Int(1)
    &&& is_str(value_at(b, 1), "task_id_unique"@)
    &&& value_at(b, 2) == Bson::Bool(true)
}

/// The command each setup step sends to the `crewlist` database.
pub open spec fn renders_setup_command(b: Bson, step: SetupStep) -> bool {
    match step {
        SetupStep::CreateCollection => {
            &&& has_keys(b, seq!["create"@])
            &&& is_str(value_at(b, 0), DETAILS_COLLECTION@)
        },
        SetupStep::ApplyValidator => {
            &&& has_keys(
                b,
                seq!["collMod"@, "validator"@, "validationLevel"@, "validationAction"@],
            )
            &&& is_str(value_at(b, 0), DETAILS_COLLECTION@)
            &&& renders_validator(value_at(b, 1), detail_schema())
            &&& is_str(value_at(b, 2), "strict"@)
            &&& is_str(value_at(b, 3), "error"@)
        },
        SetupStep::CreateIndexes => {
            &&& has_keys(b, seq!["createIndexes"@, "indexes"@])
            &&& is_str(value_at(b, 0), DETAILS_COLLECTION@)
            &&& value_at(b, 1) is Array
            &&& items_of(value_at(b, 1)).len() == 1
            &&& renders_task_id_index(items_of(value_at(b, 1))[0])
        },
    }
}

fn names_value(names: &Vec<&'static str>) -> (b: Bson)
    ensures
        renders_names(b, names_view(names@)),
{
    let mut items: Vec<Bson> = Vec::new();
    let len: usize = names.len();
    for i in 0..len
        invariant
            len == names@.len(),
            items@.len() == i,
            forall|k: int| 0 <= k < i ==> is_str(#[trigger] items@[k], names@[k]@),
    {
        items.push(Bson::Str(names[i]));
    }
    Bson::Array(items)
}

fn types_value(types: &Vec<BsonType>) -> (b: Bson)
    ensures
        renders_types(b, types@),
{
    if types.len() == 1 {
        Bson::Str(types[0].as_str())
    } else {
        let mut items: Vec<Bson> = Vec::new();
        let len: usize = types.len();
        for i in 0..len
            invariant
                len == types@.len(),
                items@.len() == i,
                forall|k: int| 0 <= k < i ==> is_str(#[trigger] items@[k], types@[k].alias()),
        {
            items.push(Bson::Str(types[i].as_str()));
        }
        Bson::Array(items)
    }
}

fn field_value(f: &FieldSchema) -> (b: Bson)
    ensures
        renders_field(b, f@),
{
    let mut entries: Vec<(&'static str, Bson)> = Vec::new();
    entries.push(("bsonType", types_value(&f.types)));
    match f.minimum {
        Some(m) => entries.push(("minimum", Bson::Int(m))),
        None => {},
    }
    let b = Bson::Doc(entries);
    assert(f@.minimum is Some ==> key_at(b, 1) == "minimum"@);
    b
}

fn fields_value(fields: &Vec<FieldSchema>) -> (b: Bson)
    ensures
        renders_fields(b, fields@.map_values(|f: FieldSchema| f@)),
{
    let ghost spec_fields = fields@.map_values(|f: FieldSchema| f@);
    let mut entries: Vec<(&'static str, Bson)> = Vec::new();
    let len: usize = fields.len();
    for i in 0..len
        invariant
            len == fields@.len(),
            spec_fields == fields@.map_values(|f: FieldSchema| f@),
            entries@.len() == i,
            forall|k: int|
                0 <= k < i ==> (#[trigger] entries@[k]).0@ == spec_fields[k].name && renders_field(
                    entries@[k].1,
                    spec_fields[k],
                ),
    {
        let f = &fields[i];
        entries.push((f.name, field_value(f)));
    }
    let b = Bson::Doc(entries);
    assert forall|k: int| 0 <= k < len implies #[trigger] key_at(b, k) == spec_fields[k].name
        && renders_field(value_at(b, k), spec_fields[k]) by {
        assert(entries@[k] == entries_of(b)[k]);
    }
    b
}

fn element_value(e: &ElementSchema) -> (b: Bson)
    ensures
        renders_element(b, e@),
{
    Bson::Doc(
        vec![
            ("bsonType", Bson::Str("object")),
            ("required", names_value(&e.required)),
            ("additionalProperties", Bson::Bool(e.additional_properties)),
            ("properties", fields_value(&e.properties)),
        ],
    )
}

fn array_value(a: &ArrayField) -> (b: Bson)
    ensures
        renders_array(b, a@),
{
    Bson::Doc(vec![("bsonType", Bson::Str("array")), ("items", element_value(&a.items))])
}

fn properties_value(d: &DocumentSchema) -> (b: Bson)
    ensures
        renders_properties(b, d@),
{
    let ghost dv = d@;
    let mut entries: Vec<(&'static str, Bson)> = Vec::new();
    let plen: usize = d.properties.len();
    for i in 0..plen
        invariant
            plen == d.properties@.len(),
            dv == d@,
            entries@.len() == i,
            forall|k: int|
                0 <= k < i ==> (#[trigger] entries@[k]).0@ == dv.properties[k].name
                    && renders_field(entries@[k].1, dv.properties[k]),
    {
        let f = &d.properties[i];
        entries.push((f.name, field_value(f)));
    }
    let alen: usize = d.arrays.len();
    for j in 0..alen
        invariant
            plen == d.properties@.len(),
            alen == d.arrays@.len(),
            dv == d@,
            entries@.len() == plen + j,
            forall|k: int|
                0 <= k < plen ==> (#[trigger] entries@[k]).0@ == dv.properties[k].name
                    && renders_field(entries@[k].1, dv.properties[k]),
            forall|k: int|
                0 <= k < j ==> (#[trigger] entries@[plen + k]).0@ == dv.arrays[k].name
                    && renders_array(entries@[plen + k].1, dv.arrays[k]),
    {
        let a = &d.arrays[j];
        entries.push((a.name, array_value(a)));
    }
    let b = Bson::Doc(entries);
    assert forall|k: int| 0 <= k < plen implies #[trigger] key_at(b, k) == dv.properties[k].name
        && renders_field(value_at(b, k), dv.properties[k]) by {
        assert(entries@[k] == entries_of(b)[k]);
    }
    assert forall|k: int| 0 <= k < alen implies #[trigger] key_at(b, plen + k)
        == dv.arrays[k].name && renders_array(value_at(b, plen + k), dv.arrays[k]) by {
        assert(entries@[plen + k] == entries_of(b)[plen + k]);
    }
    b
}

/// The validator as the `$jsonSchema` document Mongo reads.
pub fn validator_document(d: &DocumentSchema) -> (b: Bson)
    ensures
        renders_validator(b, d@),
{
    let schema = Bson::Doc(
        vec![
            ("bsonType", Bson::Str("object")),
            ("required", names_value(&d.required)),
            ("additionalProperties", Bson::Bool(d.additional_properties)),
            ("properties", properties_value(d)),
        ],
    );
    Bson::Doc(vec![("$jsonSchema", schema)])
}

/// The command a setup step sends, as the entries of its document:
/// `create` of the detail collection; `collMod` installing the validator at
/// strict level with the error action; `createIndexes` with the unique
/// `task_id_unique` index on `task_id`.
pub fn setup_command(step: SetupStep) -> (command: Vec<(&'static str, Bson)>)
    ensures
        renders_setup_command(Bson::Doc(command), step),
{
    match step {
        SetupStep::CreateCollection => vec![("create", Bson::Str(DETAILS_COLLECTION))],
        SetupStep::ApplyValidator => vec![
            ("collMod", Bson::Str(DETAILS_COLLECTION)),
            ("validator", validator_document(&detail_validator())),
            ("validationLevel", Bson::Str("strict")),
            ("validationAction", Bson::Str("error")),
        ],
        SetupStep::CreateIndexes => {
            let index = Bson::Doc(
                vec![
                    ("key", Bson::Doc(vec![("task_id", Bson::Int(1))])),
                    ("name", Bson::Str("task_id_unique")),
                    ("unique", Bson::Bool(true)),
                ],
            );
            vec![("createIndexes", Bson::Str(DETAILS_COLLECTION)), ("indexes", Bson::Array(vec![index]))]
        },
    }
}

} // verus!
