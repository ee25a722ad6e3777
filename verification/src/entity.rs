//! The contact message, as accepted from a caller.
use vstd::prelude::*;
use std::collections::HashMap;
use crate::enums::ContactMessageCategory;
use crate::exceptions::DomainError;

verus! {

/// An accepted contact message. The identifier is given once, when the
/// message is made.
#[derive(Clone, Debug)]
pub struct ContactMessage {
    pub id: String,
    pub category: ContactMessageCategory,
    pub email: String,
    pub name: String,
    pub message: String,
    pub data: Option<HashMap<String, String>>,
}

/// `uuid::Uuid::new_v4`, printed in its hyphenated form, which has 36
/// characters. The value is drawn at random, so nothing more is claimed
/// of it.
#[verifier::external_body]
fn fresh_id() -> (id: String)
    ensures
        id@.len() == 36,
{
    uuid::Uuid::new_v4().to_string()
}

impl ContactMessage {
    /// Whether this message holds exactly the given values, under an
    /// identifier of 36 characters.
    pub open spec fn carries(
        self,
        category: ContactMessageCategory,
        email: Seq<char>,
        name: Seq<char>,
        message: Seq<char>,
        data: Option<HashMap<String, String>>,
    ) -> bool {
        &&& self.id@.len() == 36
        &&& self.category == category
        &&& self.email@ == email
        &&& self.name@ == name
        &&& self.message@ == message
        &&& self.data == data
    }

    /// Makes a message with a fresh identifier. The values are taken as they
    /// are: nothing is trimmed, cut or checked.
    pub fn create(
        category: ContactMessageCategory,
        email: String,
        name: String,
        message: String,
        data: Option<HashMap<String, String>>,
    ) -> (r: Result<ContactMessage, DomainError>)
        ensures
            r matches Ok(m) && m.carries(category, email@, name@, message@, data),
    {
        Ok(ContactMessage { id: fresh_id(), category, email, name, message, data })
    }
}

} // verus!
