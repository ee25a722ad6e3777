//! How an accepted message is laid out for the store.
use vstd::prelude::*;
use vstd::string::StringExecFns;
use std::collections::HashMap;
use crate::entity::ContactMessage;
use crate::exceptions::RepositoryError;
use crate::json::{is_json_of_map, json_of_map_is_an_object};

verus! {

/// One stored message: the values in the order of the store's columns.
/// The category is stored by its name, the metadata as one text.
#[derive(Clone, Debug)]
pub struct ContactMessageRecord {
    pub id: String,
    pub category: String,
    pub email: String,
    pub name: String,
    pub message: String,
    pub data: String,
    pub created_at: i64,
}

/// `serde_json::Error`, the error of the JSON encoder. It is carried from
/// the encoder to its printing, and nothing is read from it.
#[verifier::external_type_specification]
#[verifier::external_body]
pub struct ExJsonError(serde_json::Error);

/// `serde_json::to_string` on a map from strings to strings. The encoder
/// writes into memory and every key is a string, so it cannot fail. It
/// writes `{`, then the entries in the order in which the map is walked,
/// each as the key's JSON string, a colon and the value's JSON string, with
/// a comma between each two, then `}`.
#[verifier::external_body]
fn json_of_map(m: &HashMap<String, String>) -> (r: Result<String, serde_json::Error>)
    ensures
        r is Ok,
        is_json_of_map(r->Ok_0@, m@),
{
    serde_json::to_string(m)
}

/// The text that `serde_json::Error` prints itself as. Nothing is claimed
/// of it.
#[verifier::external_body]
fn json_error_text(e: &serde_json::Error) -> (r: String) {
    e.to_string()
}

/// `chrono::Utc::now`, as seconds since the Unix epoch. Nothing is claimed
/// of the value.
#[verifier::external_body]
fn current_timestamp() -> (seconds: i64) {
    chrono::Utc::now().timestamp()
}

/// The statement that inserts one record, its seven values in the order of
/// the record's fields.
pub fn insert_statement() -> (r: String)
    ensures
        r@ == "INSERT INTO contact_messages (id, category, email, name, message, data, created_at) VALUES (?1, ?2, ?3, ?4, ?5, ?6, ?7)"@,
{
    String::from_str(
        "INSERT INTO contact_messages (id, category, email, name, message, data, created_at) VALUES (?1, ?2, ?3, ?4, ?5, ?6, ?7)",
    )
}

/// A database error whose description is `stage` followed by `detail`.
pub fn database_error(stage: &str, detail: &str) -> (r: RepositoryError)
    ensures
        r matches RepositoryError::DatabaseError(reason) && reason@ == stage@ + detail@,
{
    RepositoryError::DatabaseError(String::from_str(stage).concat(detail))
}

/// What the metadata is stored as, given what encoding it as JSON came to:
/// the encoded text, or a database error that carries the encoder's words.
pub fn serialized_or_error(encoded: Result<String, String>) -> (r: Result<String, RepositoryError>)
    ensures
        match encoded {
            Ok(text) => r == Ok::<String, RepositoryError>(text),
            Err(detail) => r matches Err(RepositoryError::DatabaseError(reason)) && reason@
                == "JSON serialization failed: "@ + detail@,
        },
{
    match encoded {
        Ok(text) => Ok(text),
        Err(detail) => Err(database_error("JSON serialization failed: ", detail.as_str())),
    }
}

/// The text that metadata is stored as: for none the literal `null`, for a
/// map the JSON text of an object with the map's entries.
pub open spec fn is_metadata_text(data: Option<HashMap<String, String>>, text: Seq<char>) -> bool {
    match data {
        None => text == "null"@,
        Some(m) => is_json_of_map(text, m@),
    }
}

/// The metadata as one text: the literal `null` where there is none, else
/// its JSON encoding, which is an object also for an empty map. It always
/// succeeds.
pub fn serialize_data(data: &Option<HashMap<String, String>>) -> (r: Result<
    String,
    RepositoryError,
>)
    ensures
        r matches Ok(text) && is_metadata_text(*data, text@),
{
    match data {
        Some(m) => {
            let encoded = match json_of_map(m) {
                Ok(text) => Ok(text),
                Err(e) => Err(json_error_text(&e)),
            };
            serialized_or_error(encoded)
        },
        None => Ok(String::from_str("null")),
    }
}

/// The text stored for absent metadata is not the text of any map: "no
/// metadata" and "empty metadata" are told apart in the store.
pub proof fn absent_metadata_differs_from_any_map(
    m: HashMap<String, String>,
    absent: Seq<char>,
    present: Seq<char>,
)
    requires
        is_metadata_text(None, absent),
        is_metadata_text(Some(m), present),
    ensures
        absent != present,
{
    reveal_strlit("null");
    json_of_map_is_an_object(present, m@);
    assert(absent[0] == 'n');
}

/// The error of a statement whose values could not be bound.
pub fn binding_error(detail: &str) -> (r: RepositoryError)
    ensures
        r matches RepositoryError::DatabaseError(reason) && reason@
            == "Failed to bind parameters: "@ + detail@,
{
    database_error("Failed to bind parameters: ", detail)
}

/// The error of a statement that the store could not run.
pub fn execution_error(detail: &str) -> (r: RepositoryError)
    ensures
        r matches RepositoryError::DatabaseError(reason) && reason@
            == "Failed to execute query: "@ + detail@,
{
    database_error("Failed to execute query: ", detail)
}

/// How sending the one insert statement of a record went.
#[derive(Debug)]
pub enum StatementOutcome {
    /// The values could not be bound; the statement was not sent.
    BindFailed(String),
    /// The store could not run the statement.
    RunFailed(String),
    /// The store ran the statement and says whether it acknowledged it.
    Ran(bool),
}

/// What `save` answers for the outcome of the one statement: a failure is
/// a database error under its label and never a success; otherwise the
/// store's acknowledgement.
pub fn save_answer(outcome: StatementOutcome) -> (r: Result<bool, RepositoryError>)
    ensures
        match outcome {
            StatementOutcome::BindFailed(detail) => r matches Err(
                RepositoryError::DatabaseError(reason),
            ) && reason@ == "Failed to bind parameters: "@ + detail@,
            StatementOutcome::RunFailed(detail) => r matches Err(
                RepositoryError::DatabaseError(reason),
            ) && reason@ == "Failed to execute query: "@ + detail@,
            StatementOutcome::Ran(acknowledged) => r == Ok::<bool, RepositoryError>(acknowledged),
        },
{
    match outcome {
        StatementOutcome::BindFailed(detail) => Err(binding_error(detail.as_str())),
        StatementOutcome::RunFailed(detail) => Err(execution_error(detail.as_str())),
        StatementOutcome::Ran(acknowledged) => Ok(acknowledged),
    }
}

impl ContactMessageRecord {
    /// Whether this record lays out `contact` with the metadata text
    /// `data` and the time `created_at`.
    pub open spec fn lays_out(self, contact: ContactMessage, data: Seq<char>, created_at: i64) -> bool {
        &&& self.id@ == contact.id@
        &&& self.category@ == contact.category.name()
        &&& self.email@ == contact.email@
        &&& self.name@ == contact.name@
        &&& self.message@ == contact.message@
        &&& self.data@ == data
        &&& self.created_at == created_at
    }

    /// The record of `contact`, its metadata already encoded, as written
    /// at `created_at`.
    pub fn build(contact: &ContactMessage, data_json: String, created_at: i64) -> (r: Self)
        ensures
            r.lays_out(*contact, data_json@, created_at),
    {
        ContactMessageRecord {
            id: contact.id.clone(),
            category: contact.category.to_string(),
            email: contact.email.clone(),
            name: contact.name.clone(),
            message: contact.message.clone(),
            data: data_json,
            created_at,
        }
    }

    /// The record of `contact` as of now: the message's values, its
    /// metadata as one text, and the time of the call. It always succeeds.
    pub fn for_message(contact: &ContactMessage) -> (r: Result<Self, RepositoryError>)
        ensures
            r matches Ok(record) && record.lays_out(*contact, record.data@, record.created_at)
                && is_metadata_text(contact.data, record.data@),
    {
        match serialize_data(&contact.data) {
            Err(e) => Err(e),
            Ok(data_json) => Ok(ContactMessageRecord::build(contact, data_json, current_timestamp())),
        }
    }
}

} // verus!
