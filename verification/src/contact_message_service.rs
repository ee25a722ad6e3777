//! Validation of a submission and its hand-over to the store.
use vstd::prelude::*;
use vstd::string::StringExecFns;
use std::collections::HashMap;
use crate::entity::ContactMessage;
use crate::enums::{category_named, ContactMessageCategory};
use crate::exceptions::{AppError, RepositoryError};
use crate::repository::ContactMessageRepository;

verus! {

/// The service that turns a submission into a stored message.
pub struct ContactMessageService<R> {
    pub repo: R,
}

/// The reason given for a category that is not recognised.
pub open spec fn invalid_category_reason(category: Seq<char>) -> Seq<char> {
    "Category '"@ + category + "' is invalid"@
}

/// Validates a submission and makes the message to store. A category that
/// is not recognised is a validation error that names it; any other
/// submission gives a message with the values as they came.
pub fn validated_message(
    category: String,
    email: String,
    name: String,
    message: String,
    data: Option<HashMap<String, String>>,
) -> (r: Result<ContactMessage, AppError>)
    ensures
        match category_named(category@) {
            Some(c) => r matches Ok(m) && m.carries(c, email@, name@, message@, data),
            None => r matches Err(AppError::ValidationError(reason)) && reason@
                == invalid_category_reason(category@),
        },
{
    match ContactMessageCategory::from_str(category.as_str()) {
        Err(_) => Err(
            AppError::ValidationError(
                String::from_str("Category '").concat(category.as_str()).concat("' is invalid"),
            ),
        ),
        Ok(parsed) => match ContactMessage::create(parsed, email, name, message, data) {
            Ok(m) => Ok(m),
            Err(e) => Err(AppError::ValidationError(e.to_string())),
        },
    }
}

/// Whether `r` is what a submission comes to once the store has answered
/// `saved`: any answer of the store is a success, a failure of the store is
/// a database error with the store's description.
pub open spec fn comes_to(saved: Result<bool, RepositoryError>, r: Result<(), AppError>) -> bool {
    match saved {
        Ok(_) => r is Ok,
        Err(e) => r matches Err(AppError::DatabaseError(detail)) && detail@ == e.description(),
    }
}

/// What a submission comes to once the store has answered.
pub fn save_outcome(saved: Result<bool, RepositoryError>) -> (r: Result<(), AppError>)
    ensures
        comes_to(saved, r),
{
    match saved {
        Ok(_) => Ok(()),
        Err(e) => Err(AppError::DatabaseError(e.to_string())),
    }
}

impl<R: ContactMessageRepository> ContactMessageService<R> {
    pub fn create(contact_repo: R) -> (r: Self)
        ensures
            r.repo == contact_repo,
    {
        ContactMessageService { repo: contact_repo }
    }

    /// Validates a submission and stores it. A submission with an
    /// unrecognised category fails with a validation error and leaves the
    /// store as it was. Any other is handed to the store exactly once, as a
    /// message that holds the values as they came under the category that
    /// the text names; the result is what the store's answer comes to.
    pub fn create_message(
        &mut self,
        category: String,
        email: String,
        name: String,
        message: String,
        data: Option<HashMap<String, String>>,
    ) -> (r: Result<(), AppError>)
        ensures
            match category_named(category@) {
                None => {
                    &&& r matches Err(AppError::ValidationError(reason)) && reason@
                        == invalid_category_reason(category@)
                    &&& final(self).repo == old(self).repo
                },
                Some(c) => exists|stored: ContactMessage, answer: Result<bool, RepositoryError>|
                    {
                        &&& stored.carries(c, email@, name@, message@, data)
                        &&& #[trigger] old(self).repo.save_effect(final(self).repo, stored, answer)
                        &&& comes_to(answer, r)
                    },
            },
    {
        match validated_message(category, email, name, message, data) {
            Err(e) => Err(e),
            Ok(contact_message) => {
                let saved = self.repo.save(&contact_message);
                let ghost answer = saved;
                let r = save_outcome(saved);
                assert(old(self).repo.save_effect(self.repo, contact_message, answer));
                r
            },
        }
    }
}

} // verus!
