//! The collaborators that one submission works with.
use vstd::prelude::*;
use vstd::string::StringExecFns;
use crate::config::Config;
use crate::contact_message_service::ContactMessageService;
use crate::request_validation_service::CloudflareRequestValidationService;

verus! {

/// The bot check and the message service of one submission.
pub struct AppState<V, R> {
    pub contact_message_service: ContactMessageService<R>,
    pub request_validation_service: V,
}

impl<R> AppState<CloudflareRequestValidationService, R> {
    /// Assembles the collaborators from the configuration and the store
    /// that the environment gave. A configuration error is handed on as it
    /// is; a missing store is reported as an unavailable database.
    pub fn from_env(config: Result<Config, String>, db: Option<R>) -> (r: Result<Self, String>)
        ensures
            match (config, db) {
                (Err(reason), _) => r == Err::<Self, String>(reason),
                (Ok(_), None) => r matches Err(reason) && reason@ == "Database unavailable"@,
                (Ok(settings), Some(store)) => r matches Ok(state) && {
                    &&& state.contact_message_service.repo == store
                    &&& state.request_validation_service.url() == settings.siteverify_url@
                    &&& state.request_validation_service.secret() == settings.secret_key@
                },
            },
    {
        match config {
            Err(reason) => Err(reason),
            Ok(settings) => match db {
                None => Err(String::from_str("Database unavailable")),
                Some(store) => Ok(
                    AppState {
                        contact_message_service: ContactMessageService { repo: store },
                        request_validation_service: CloudflareRequestValidationService::create(
                            settings.siteverify_url,
                            settings.secret_key,
                        ),
                    },
                ),
            },
        }
    }
}

} // verus!
