//! The body of a submission, once decoded.
use vstd::prelude::*;
use std::collections::HashMap;

verus! {

/// A decoded submission: the bot-check token and the message's values.
#[derive(Clone, Debug)]
pub struct CreateContactMessageRequest {
    pub token: String,
    pub category: String,
    pub email: String,
    pub name: String,
    pub message: String,
    pub data: Option<HashMap<String, String>>,
}

} // verus!
