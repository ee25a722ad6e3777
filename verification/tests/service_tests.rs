use std::collections::HashMap;

use contact_messages::contact_message_repository::{
    binding_error, database_error, execution_error, insert_statement, save_answer, serialize_data,
    serialized_or_error, ContactMessageRecord, StatementOutcome,
};
use contact_messages::contact_message_service::{
    save_outcome, validated_message, ContactMessageService,
};
use contact_messages::entity::ContactMessage;
use contact_messages::enums::ContactMessageCategory;
use contact_messages::exceptions::{AppError, DomainError, RepositoryError};
use contact_messages::repository::ContactMessageRepository;

struct MockContactMessageRepository {
    contact_messages: Vec<ContactMessage>,
    should_save_fail: bool,
}

impl MockContactMessageRepository {
    fn new() -> Self {
        Self { contact_messages: Vec::new(), should_save_fail: false }
    }

    fn set_save_should_fail(&mut self, should_fail: bool) {
        self.should_save_fail = should_fail;
    }

    fn get_all_contact_messages(&self) -> Vec<ContactMessage> {
        self.contact_messages.clone()
    }
}

impl ContactMessageRepository for MockContactMessageRepository {
    fn save(&mut self, contact: &ContactMessage) -> Result<bool, RepositoryError> {
        if self.should_save_fail {
            return Err(RepositoryError::DatabaseError("Mock database error on save".into()));
        }
        if let Some(existing_index) =
            self.contact_messages.iter().position(|c| c.id == contact.id)
        {
            self.contact_messages[existing_index] = contact.clone();
        } else {
            self.contact_messages.push(contact.clone());
        }
        Ok(true)
    }
}

fn create_service() -> ContactMessageService<MockContactMessageRepository> {
    ContactMessageService::create(MockContactMessageRepository::new())
}

#[test]
fn test_create_message_success() {
    let mut service = create_service();

    let result = service.create_message(
        "ERROR".to_string(),
        "test@example.com".to_string(),
        "John Doe".to_string(),
        "Test message".to_string(),
        None,
    );

    assert!(result.is_ok());

    let saved_contact_messages = service.repo.get_all_contact_messages();
    assert_eq!(saved_contact_messages.len(), 1);

    let saved_contact = &saved_contact_messages[0];
    assert_eq!(saved_contact.category, ContactMessageCategory::ERROR);
    assert_eq!(saved_contact.email, "test@example.com");
    assert_eq!(saved_contact.name, "John Doe");
    assert_eq!(saved_contact.message, "Test message");
    assert_eq!(saved_contact.data, None);
}

#[test]
fn test_create_message_with_data() {
    let mut service = create_service();

    let mut data = HashMap::new();
    data.insert("rating".to_string(), "5".to_string());
    data.insert("testimonial".to_string(), "I love quest-lock".to_string());

    let result = service.create_message(
        "IDEA".to_string(),
        "user@example.com".to_string(),
        "Jane Smith".to_string(),
        "Feature request".to_string(),
        Some(data.clone()),
    );

    assert!(result.is_ok());

    let saved_contact_messages = service.repo.get_all_contact_messages();
    assert_eq!(saved_contact_messages.len(), 1);

    let saved_contact = &saved_contact_messages[0];
    assert_eq!(saved_contact.category, ContactMessageCategory::IDEA);
    assert_eq!(saved_contact.email, "user@example.com");
    assert_eq!(saved_contact.name, "Jane Smith");
    assert_eq!(saved_contact.message, "Feature request");
    assert_eq!(saved_contact.data, Some(data));
}

#[test]
fn test_create_message_invalid_category() {
    let mut service = create_service();

    let result = service.create_message(
        "INVALID_CATEGORY".to_string(),
        "test@example.com".to_string(),
        "John Doe".to_string(),
        "Test message".to_string(),
        None,
    );

    assert!(result.is_err());
    match result.unwrap_err() {
        AppError::ValidationError(reason) => {
            assert_eq!(reason, "Category 'INVALID_CATEGORY' is invalid");
        }
        _ => panic!("Expected ValidationError"),
    }
    assert_eq!(service.repo.get_all_contact_messages().len(), 0);
}

#[test]
fn test_create_message_database_error() {
    let mut service = create_service();

    service.repo.set_save_should_fail(true);

    let result = service.create_message(
        "OTHER".to_string(),
        "test@example.com".to_string(),
        "John Doe".to_string(),
        "Test message".to_string(),
        None,
    );

    assert!(result.is_err());
    match result.unwrap_err() {
        AppError::DatabaseError(detail) => {
            assert_eq!(detail, "Database error: Mock database error on save");
        }
        _ => panic!("Expected DatabaseError"),
    }

    let saved_contact_messages = service.repo.get_all_contact_messages();
    assert_eq!(saved_contact_messages.len(), 0);
}

#[test]
fn test_all_valid_categories() {
    let mut service = create_service();

    let categories = vec!["ERROR", "IDEA", "TESTIMONIAL", "OTHER"];

    for (i, category) in categories.iter().enumerate() {
        let result = service.create_message(
            category.to_string(),
            format!("test{}@example.com", i),
            format!("User {}", i),
            format!("This is test message number {}", i),
            None,
        );

        assert!(result.is_ok(), "Failed for category: {}", category);
    }

    let saved_contact_messages = service.repo.get_all_contact_messages();
    assert_eq!(saved_contact_messages.len(), 4);

    assert_eq!(saved_contact_messages[0].category, ContactMessageCategory::ERROR);
    assert_eq!(saved_contact_messages[1].category, ContactMessageCategory::IDEA);
    assert_eq!(saved_contact_messages[2].category, ContactMessageCategory::TESTIMONIAL);
    assert_eq!(saved_contact_messages[3].category, ContactMessageCategory::OTHER);
}

#[test]
fn test_case_insensitive_categories() {
    let mut service = create_service();

    let result = service.create_message(
        "error".to_string(),
        "test@example.com".to_string(),
        "John Doe".to_string(),
        "Test message".to_string(),
        None,
    );

    assert!(result.is_ok());

    let saved_contact_messages = service.repo.get_all_contact_messages();
    assert_eq!(saved_contact_messages.len(), 1);
    assert_eq!(saved_contact_messages[0].category, ContactMessageCategory::ERROR);
}

#[test]
fn repeated_submissions_get_distinct_ids() {
    let mut service = create_service();
    for _ in 0..3 {
        let result = service.create_message(
            "idea".to_string(),
            "same@example.com".to_string(),
            "Same".to_string(),
            "Same text".to_string(),
            None,
        );
        assert!(result.is_ok());
    }
    let saved = service.repo.get_all_contact_messages();
    assert_eq!(saved.len(), 3);
    assert_ne!(saved[0].id, saved[1].id);
    assert_ne!(saved[1].id, saved[2].id);
    assert_ne!(saved[0].id, saved[2].id);
    assert_eq!(saved[0].id.chars().count(), 36);
}

#[test]
fn category_parsing_accepts_every_case_variant() {
    let cases = vec![
        ("ERROR", ContactMessageCategory::ERROR),
        ("error", ContactMessageCategory::ERROR),
        ("Error", ContactMessageCategory::ERROR),
        ("IDEA", ContactMessageCategory::IDEA),
        ("idea", ContactMessageCategory::IDEA),
        ("iDeA", ContactMessageCategory::IDEA),
        ("TESTIMONIAL", ContactMessageCategory::TESTIMONIAL),
        ("testimonial", ContactMessageCategory::TESTIMONIAL),
        ("OTHER", ContactMessageCategory::OTHER),
        ("other", ContactMessageCategory::OTHER),
    ];
    for (text, expected) in cases {
        assert_eq!(ContactMessageCategory::from_str(text).unwrap(), expected);
        assert_eq!(
            ContactMessageCategory::from_str(&expected.to_string()).unwrap(),
            expected
        );
    }
}

#[test]
fn category_parsing_rejects_everything_else() {
    for text in ["", " ERROR", "ERROR ", "ERRORS", "ERRO", "BUG", "OTHER\n", "\u{131}dea", "id\u{e9}a"] {
        match ContactMessageCategory::from_str(text) {
            Err(DomainError::InvalidCategory(given)) => assert_eq!(given, text),
            Ok(_) => panic!("accepted {:?}", text),
        }
    }
}

#[test]
fn category_names_are_canonical() {
    assert_eq!(ContactMessageCategory::ERROR.to_string(), "ERROR");
    assert_eq!(ContactMessageCategory::IDEA.to_string(), "IDEA");
    assert_eq!(ContactMessageCategory::TESTIMONIAL.to_string(), "TESTIMONIAL");
    assert_eq!(ContactMessageCategory::OTHER.to_string(), "OTHER");
}

#[test]
fn validated_message_copies_values_verbatim() {
    let m = validated_message(
        "Testimonial".to_string(),
        "  not an email ".to_string(),
        "".to_string(),
        " spaced\ttext ".to_string(),
        None,
    )
    .unwrap();
    assert_eq!(m.category, ContactMessageCategory::TESTIMONIAL);
    assert_eq!(m.email, "  not an email ");
    assert_eq!(m.name, "");
    assert_eq!(m.message, " spaced\ttext ");
    assert_eq!(m.data, None);
}

#[test]
fn validated_message_names_the_offending_category() {
    match validated_message("bug'".to_string(), "e".to_string(), "n".to_string(), "m".to_string(), None) {
        Err(AppError::ValidationError(reason)) => assert_eq!(reason, "Category 'bug'' is invalid"),
        _ => panic!("Expected ValidationError"),
    }
}

#[test]
fn save_outcome_maps_each_answer() {
    assert!(save_outcome(Ok(true)).is_ok());
    assert!(save_outcome(Ok(false)).is_ok());
    match save_outcome(Err(RepositoryError::DatabaseError("disk full".to_string()))) {
        Err(AppError::DatabaseError(detail)) => assert_eq!(detail, "Database error: disk full"),
        _ => panic!("Expected DatabaseError"),
    }
}

#[test]
fn error_descriptions() {
    assert_eq!(AppError::DatabaseError("x".to_string()).to_string(), "Database error: x");
    assert_eq!(AppError::NotFound("x".to_string()).to_string(), "Not found: x");
    assert_eq!(AppError::Unauthorised("x".to_string()).to_string(), "Unauthorised: x");
    assert_eq!(AppError::InternalError.to_string(), "Internal server error");
    assert_eq!(AppError::ValidationError("x".to_string()).to_string(), "Validation error: x");
    assert_eq!(
        DomainError::InvalidCategory("x".to_string()).to_string(),
        "Category 'x' is invalid"
    );
    assert_eq!(RepositoryError::DatabaseError("x".to_string()).to_string(), "Database error: x");
}

#[test]
fn serialize_data_absent_is_null() {
    assert_eq!(serialize_data(&None).unwrap(), "null");
}

#[test]
fn serialize_data_present_is_json() {
    let mut data = HashMap::new();
    data.insert("rating".to_string(), "5 \"stars\"".to_string());
    assert_eq!(serialize_data(&Some(data)).unwrap(), "{\"rating\":\"5 \\\"stars\\\"\"}");
    assert_eq!(serialize_data(&Some(HashMap::new())).unwrap(), "{}");
}

#[test]
fn serialized_or_error_maps_each_answer() {
    assert_eq!(serialized_or_error(Ok("{}".to_string())).unwrap(), "{}");
    match serialized_or_error(Err("key must be a string".to_string())) {
        Err(RepositoryError::DatabaseError(reason)) => {
            assert_eq!(reason, "JSON serialization failed: key must be a string")
        }
        _ => panic!("Expected DatabaseError"),
    }
    match database_error("Failed to execute query: ", "no such table") {
        RepositoryError::DatabaseError(reason) => {
            assert_eq!(reason, "Failed to execute query: no such table")
        }
    }
}

#[test]
fn record_lays_out_the_message() {
    let contact = ContactMessage::create(
        ContactMessageCategory::IDEA,
        "user@example.com".to_string(),
        "Jane".to_string(),
        "More colours".to_string(),
        None,
    )
    .unwrap();
    let record = ContactMessageRecord::build(&contact, "null".to_string(), 1_700_000_000);
    assert_eq!(record.id, contact.id);
    assert_eq!(record.category, "IDEA");
    assert_eq!(record.email, "user@example.com");
    assert_eq!(record.name, "Jane");
    assert_eq!(record.message, "More colours");
    assert_eq!(record.data, "null");
    assert_eq!(record.created_at, 1_700_000_000);

    let now = ContactMessageRecord::for_message(&contact).unwrap();
    assert_eq!(now.id, contact.id);
    assert_eq!(now.data, "null");
    assert!(now.created_at > 1_600_000_000);
}

#[test]
fn insert_statement_names_seven_columns() {
    let statement = insert_statement();
    assert!(statement.starts_with("INSERT INTO contact_messages (id, category, email, name, message, data, created_at)"));
    assert!(statement.ends_with("VALUES (?1, ?2, ?3, ?4, ?5, ?6, ?7)"));
}

#[test]
fn serialize_data_present_is_an_object_that_decodes_to_the_map() {
    let mut data = HashMap::new();
    data.insert("quote\"d".to_string(), "back\\slash\nline".to_string());
    data.insert("caf\u{e9}".to_string(), "\u{2028}".to_string());
    data.insert("}".to_string(), "{".to_string());
    let text = serialize_data(&Some(data.clone())).unwrap();
    assert!(text.starts_with('{'));
    assert!(text.ends_with('}'));
    assert_ne!(text, "null");
    let decoded: HashMap<String, String> = serde_json::from_str(&text).unwrap();
    assert_eq!(decoded, data);
    assert_ne!(serialize_data(&Some(HashMap::new())).unwrap(), serialize_data(&None).unwrap());
}

#[test]
fn record_of_a_message_with_metadata() {
    let mut data = HashMap::new();
    data.insert("rating".to_string(), "5".to_string());
    let contact = ContactMessage::create(
        ContactMessageCategory::TESTIMONIAL,
        "user@example.com".to_string(),
        "Jane".to_string(),
        "Great".to_string(),
        Some(data),
    )
    .unwrap();
    let record = ContactMessageRecord::for_message(&contact).unwrap();
    assert_eq!(record.id, contact.id);
    assert_eq!(record.category, "TESTIMONIAL");
    assert_eq!(record.data, "{\"rating\":\"5\"}");
}

#[test]
fn statement_errors_carry_their_label() {
    match binding_error("wrong type") {
        RepositoryError::DatabaseError(reason) => {
            assert_eq!(reason, "Failed to bind parameters: wrong type")
        }
    }
    match execution_error("no such table") {
        RepositoryError::DatabaseError(reason) => {
            assert_eq!(reason, "Failed to execute query: no such table")
        }
    }
}

fn one_entry(key: &str, value: &str) -> String {
    let mut data = HashMap::new();
    data.insert(key.to_string(), value.to_string());
    serialize_data(&Some(data)).unwrap()
}

#[test]
fn serialize_data_escapes_as_json_strings() {
    assert_eq!(one_entry("", ""), "{\"\":\"\"}");
    assert_eq!(one_entry("k", "a\"b"), "{\"k\":\"a\\\"b\"}");
    assert_eq!(one_entry("k", "a\\b"), "{\"k\":\"a\\\\b\"}");
    assert_eq!(one_entry("k", "\u{8}"), "{\"k\":\"\\b\"}");
    assert_eq!(one_entry("k", "\t"), "{\"k\":\"\\t\"}");
    assert_eq!(one_entry("k", "\n"), "{\"k\":\"\\n\"}");
    assert_eq!(one_entry("k", "\u{c}"), "{\"k\":\"\\f\"}");
    assert_eq!(one_entry("k", "\r"), "{\"k\":\"\\r\"}");
    assert_eq!(one_entry("k", "\u{0}"), "{\"k\":\"\\u0000\"}");
    assert_eq!(one_entry("k", "\u{b}"), "{\"k\":\"\\u000b\"}");
    assert_eq!(one_entry("k", "\u{1f}"), "{\"k\":\"\\u001f\"}");
    assert_eq!(one_entry("k", " /\u{7f}"), "{\"k\":\" /\u{7f}\"}");
    assert_eq!(one_entry("caf\u{e9}", "\u{2028}\u{1f600}"), "{\"caf\u{e9}\":\"\u{2028}\u{1f600}\"}");
    assert_eq!(one_entry("a\nb", "c"), "{\"a\\nb\":\"c\"}");
}

#[test]
fn serialize_data_lists_every_entry_once() {
    let mut data = HashMap::new();
    data.insert("a".to_string(), "1".to_string());
    data.insert("b".to_string(), "2".to_string());
    let text = serialize_data(&Some(data)).unwrap();
    assert!(
        text == "{\"a\":\"1\",\"b\":\"2\"}" || text == "{\"b\":\"2\",\"a\":\"1\"}",
        "{}",
        text
    );
}

#[test]
fn save_answer_for_each_outcome() {
    match save_answer(StatementOutcome::BindFailed("wrong type".to_string())) {
        Err(RepositoryError::DatabaseError(reason)) => {
            assert_eq!(reason, "Failed to bind parameters: wrong type")
        }
        _ => panic!("Expected DatabaseError"),
    }
    match save_answer(StatementOutcome::RunFailed("no such table".to_string())) {
        Err(RepositoryError::DatabaseError(reason)) => {
            assert_eq!(reason, "Failed to execute query: no such table")
        }
        _ => panic!("Expected DatabaseError"),
    }
    assert_eq!(save_answer(StatementOutcome::Ran(true)).ok(), Some(true));
    assert_eq!(save_answer(StatementOutcome::Ran(false)).ok(), Some(false));
}
