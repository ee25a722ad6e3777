//! The submission pipeline: origin check, body, collaborators, bot check,
//! validation and storage, each failure mapped to one reply.
use vstd::prelude::*;
use vstd::string::StringExecFns;
use crate::app_state::AppState;
use crate::cors::{
    decorated, decoration_keeps_status_and_body, optional_text, origin_allowed, CorsHeaders,
};
use crate::enums::category_named;
use crate::entity::ContactMessage;
use crate::exceptions::{AppError, RepositoryError};
use crate::http::{json_reply, HttpResponse, HttpResponseView};
use crate::repository::ContactMessageRepository;
use crate::request_validation_service::{
    reports, verdict_on, RequestValidationServiceTrait, TurnstileResponse, Verdict,
};
use crate::requests::CreateContactMessageRequest;
use crate::responses::{failure_envelope, success_envelope, ApiResponse};
use crate::contact_message_service::{invalid_category_reason, save_outcome, validated_message};

verus! {

/// The reply that reports a failure to a caller from `origin`.
pub open spec fn failure_for(
    allowed: Seq<Seq<char>>,
    origin: Option<Seq<char>>,
    status: u16,
    message: Seq<char>,
) -> HttpResponseView {
    decorated(allowed, json_reply(failure_envelope(status, message)), origin)
}

/// The reply that reports success to a caller from `origin`.
pub open spec fn success_for(allowed: Seq<Seq<char>>, origin: Option<Seq<char>>) -> HttpResponseView {
    decorated(allowed, json_reply(success_envelope(true)), origin)
}

/// The reply to a caller whose origin the policy rejects.
pub open spec fn forbidden() -> HttpResponseView {
    json_reply(failure_envelope(403, "Forbidden"@))
}

/// The reply that a failed bot check ends the submission with: 401 where
/// the token was refused, 500 where the check could not be made; `None`
/// where the check passed and the submission goes on.
pub open spec fn reply_after_verification(
    allowed: Seq<Seq<char>>,
    origin: Option<Seq<char>>,
    verified: Result<(), AppError>,
) -> Option<HttpResponseView> {
    match verified {
        Ok(_) => None,
        Err(AppError::Unauthorised(_)) => Some(
            failure_for(allowed, origin, 401, "Request validation failed"@),
        ),
        Err(_) => Some(failure_for(allowed, origin, 500, "Internal Server Error"@)),
    }
}

/// The reply that ends a submission once the message service has answered:
/// success, 400 with the validator's reason, or 500 for any other failure.
pub open spec fn reply_after_creation(
    allowed: Seq<Seq<char>>,
    origin: Option<Seq<char>>,
    created: Result<(), AppError>,
) -> HttpResponseView {
    match created {
        Ok(_) => success_for(allowed, origin),
        Err(AppError::ValidationError(reason)) => failure_for(allowed, origin, 400, reason@),
        Err(_) => failure_for(allowed, origin, 500, "Failed to save message"@),
    }
}

/// The reply that ends a submission once the store has answered: success
/// for any answer, 500 without the store's words for a failure.
pub open spec fn reply_after_store(
    allowed: Seq<Seq<char>>,
    origin: Option<Seq<char>>,
    answer: Result<bool, RepositoryError>,
) -> HttpResponseView {
    match answer {
        Ok(_) => success_for(allowed, origin),
        Err(_) => failure_for(allowed, origin, 500, "Failed to save message"@),
    }
}

/// The address to present to the bot check where the transport gave none.
pub open spec fn address_or_default(client_ip: Option<String>) -> Seq<char> {
    match client_ip {
        Some(ip) => ip@,
        None => "0.0.0.0"@,
    }
}

pub fn failure_reply(cors: &CorsHeaders, origin: &Option<String>, status: u16, message: &str) -> (r:
    HttpResponse)
    ensures
        r@ == failure_for(cors@, optional_text(*origin), status, message@),
{
    let response = ApiResponse::<bool>::failure(status, message).to_response();
    cors.decorate(response, origin)
}

pub fn success_reply(cors: &CorsHeaders, origin: &Option<String>) -> (r: HttpResponse)
    ensures
        r@ == success_for(cors@, optional_text(*origin)),
{
    let response = ApiResponse::success(true).to_response();
    cors.decorate(response, origin)
}

/// The reply to a rejected origin: 403, with no header of the policy.
pub fn forbidden_reply() -> (r: HttpResponse)
    ensures
        r@ == forbidden(),
{
    ApiResponse::<bool>::failure(403, "Forbidden").to_response()
}

pub fn client_address(client_ip: Option<String>) -> (r: String)
    ensures
        r@ == address_or_default(client_ip),
{
    match client_ip {
        Some(ip) => ip,
        None => String::from_str("0.0.0.0"),
    }
}

pub fn verification_reply(
    cors: &CorsHeaders,
    origin: &Option<String>,
    verified: &Result<(), AppError>,
) -> (r: Option<HttpResponse>)
    ensures
        match reply_after_verification(cors@, optional_text(*origin), *verified) {
            Some(reply) => r matches Some(given) && given@ == reply,
            None => r is None,
        },
{
    match verified {
        Ok(_) => None,
        Err(AppError::Unauthorised(_)) => Some(
            failure_reply(cors, origin, 401, "Request validation failed"),
        ),
        Err(_) => Some(failure_reply(cors, origin, 500, "Internal Server Error")),
    }
}

pub fn creation_reply(cors: &CorsHeaders, origin: &Option<String>, created: Result<(), AppError>) -> (r:
    HttpResponse)
    ensures
        r@ == reply_after_creation(cors@, optional_text(*origin), created),
{
    match created {
        Ok(_) => success_reply(cors, origin),
        Err(AppError::ValidationError(reason)) => failure_reply(cors, origin, 400, reason.as_str()),
        Err(_) => failure_reply(cors, origin, 500, "Failed to save message"),
    }
}

/// What is to be done next for a submission.
pub enum SubmissionStep {
    /// Read and decode the body.
    Decode,
    /// Acquire the collaborators for `request`: the bot check and the
    /// store.
    Load { request: CreateContactMessageRequest },
    /// Ask the bot check about the request's token, presented from
    /// `client_ip`.
    Verify { request: CreateContactMessageRequest, client_ip: String },
    /// Hand `message` to the store.
    Save { message: ContactMessage },
    /// Send `response`: the submission has ended.
    Respond { response: HttpResponse },
}

/// The first step of a submission: a rejected origin ends it with 403
/// before the body is looked at; otherwise the body is next.
pub fn first_step(cors: &CorsHeaders, origin: &Option<String>) -> (r: SubmissionStep)
    ensures
        if origin_allowed(cors@, optional_text(*origin)) {
            r is Decode
        } else {
            r matches SubmissionStep::Respond { response } && response@ == forbidden()
        },
{
    if cors.is_allowed(origin) {
        SubmissionStep::Decode
    } else {
        SubmissionStep::Respond { response: forbidden_reply() }
    }
}

/// The step after the body was read. `payload` is the decoded body, `None`
/// where it could not be decoded. An unreadable body ends the submission
/// with 400; otherwise the collaborators are acquired next.
pub fn step_after_decoding(
    cors: &CorsHeaders,
    origin: &Option<String>,
    payload: Option<CreateContactMessageRequest>,
) -> (r: SubmissionStep)
    ensures
        match payload {
            None => r matches SubmissionStep::Respond { response } && response@ == failure_for(
                cors@,
                optional_text(*origin),
                400,
                "Invalid request body"@,
            ),
            Some(body) => r matches SubmissionStep::Load { request } && request == body,
        },
{
    match payload {
        None => SubmissionStep::Respond {
            response: failure_reply(cors, origin, 400, "Invalid request body"),
        },
        Some(body) => SubmissionStep::Load { request: body },
    }
}

/// The step after the collaborators were asked for. `collaborators_ready`
/// says whether the bot check and the store could be had. Without them the
/// submission ends with 500; otherwise the bot check is next, with the
/// address that the transport gave or the default.
pub fn step_after_loading(
    cors: &CorsHeaders,
    origin: &Option<String>,
    request: CreateContactMessageRequest,
    collaborators_ready: bool,
    client_ip: Option<String>,
) -> (r: SubmissionStep)
    ensures
        if collaborators_ready {
            r matches SubmissionStep::Verify { request: asked, client_ip: address } && asked
                == request && address@ == address_or_default(client_ip)
        } else {
            r matches SubmissionStep::Respond { response } && response@ == failure_for(
                cors@,
                optional_text(*origin),
                500,
                "Internal Server Error"@,
            )
        },
{
    if collaborators_ready {
        SubmissionStep::Verify { request, client_ip: client_address(client_ip) }
    } else {
        SubmissionStep::Respond {
            response: failure_reply(cors, origin, 500, "Internal Server Error"),
        }
    }
}

/// The step after the bot check has answered `verified` for `request`. A
/// failed check ends the submission; after a check that passed, a request
/// with an unrecognised category ends it with 400 and the reason, and any
/// other gives the message to store, with the request's values.
pub fn step_after_verification(
    cors: &CorsHeaders,
    origin: &Option<String>,
    verified: &Result<(), AppError>,
    request: CreateContactMessageRequest,
) -> (r: SubmissionStep)
    ensures
        match reply_after_verification(cors@, optional_text(*origin), *verified) {
            Some(reply) => r matches SubmissionStep::Respond { response } && response@ == reply,
            None => match category_named(request.category@) {
                None => r matches SubmissionStep::Respond { response } && response@ == failure_for(
                    cors@,
                    optional_text(*origin),
                    400,
                    invalid_category_reason(request.category@),
                ),
                Some(c) => r matches SubmissionStep::Save { message } && message.carries(
                    c,
                    request.email@,
                    request.name@,
                    request.message@,
                    request.data,
                ),
            },
        },
{
    match verification_reply(cors, origin, verified) {
        Some(reply) => SubmissionStep::Respond { response: reply },
        None => match validated_message(
            request.category,
            request.email,
            request.name,
            request.message,
            request.data,
        ) {
            Ok(message) => SubmissionStep::Save { message },
            Err(e) => SubmissionStep::Respond { response: creation_reply(cors, origin, Err(e)) },
        },
    }
}

/// The reply that ends a submission once the store has answered `saved`:
/// success for any answer, 500 without the store's words for a failure.
pub fn reply_after_save(
    cors: &CorsHeaders,
    origin: &Option<String>,
    saved: Result<bool, RepositoryError>,
) -> (r: HttpResponse)
    ensures
        r@ == reply_after_store(cors@, optional_text(*origin), saved),
{
    creation_reply(cors, origin, save_outcome(saved))
}

/// Each reply carries the status of what it reports, whatever the origin:
/// 401 for a refused token, 500 for a check that could not be made, 200
/// for success, 400 for a validation error, 500 for any other failure.
pub proof fn replies_carry_their_status(
    allowed: Seq<Seq<char>>,
    origin: Option<Seq<char>>,
    outcome: Result<(), AppError>,
)
    ensures
        outcome is Ok ==> reply_after_verification(allowed, origin, outcome) is None,
        outcome matches Err(e) ==> (reply_after_verification(allowed, origin, outcome) matches Some(
            reply,
        ) && reply.status == (if e is Unauthorised { 401u16 } else { 500u16 })),
        reply_after_creation(allowed, origin, outcome).status == (match outcome {
            Ok(_) => 200u16,
            Err(AppError::ValidationError(_)) => 400u16,
            Err(_) => 500u16,
        }),
        outcome is Ok ==> reply_after_creation(allowed, origin, outcome).body == Some(
            success_envelope(true),
        ),
{
    decoration_keeps_status_and_body(allowed, json_reply(success_envelope(true)), origin);
    decoration_keeps_status_and_body(
        allowed,
        json_reply(failure_envelope(401, "Request validation failed"@)),
        origin,
    );
    decoration_keeps_status_and_body(
        allowed,
        json_reply(failure_envelope(500, "Internal Server Error"@)),
        origin,
    );
    decoration_keeps_status_and_body(
        allowed,
        json_reply(failure_envelope(500, "Failed to save message"@)),
        origin,
    );
    if let Err(AppError::ValidationError(reason)) = outcome {
        decoration_keeps_status_and_body(
            allowed,
            json_reply(failure_envelope(400, reason@)),
            origin,
        );
    }
}

/// What the provider's answer comes to, for any report `r` that reads it
/// as the bot check does: an accepted token lets the submission go on, a
/// refused one ends it with 401, and a wrong secret or a missing answer
/// ends it with 500.
pub proof fn provider_answer_decides_reply(
    allowed: Seq<Seq<char>>,
    origin: Option<Seq<char>>,
    answer: Option<TurnstileResponse>,
    r: Result<(), AppError>,
)
    requires
        reports(r, verdict_on(answer)),
    ensures
        match verdict_on(answer) {
            Verdict::Accepted => reply_after_verification(allowed, origin, r) is None,
            Verdict::Refused => reply_after_verification(allowed, origin, r) matches Some(reply)
                && reply.status == 401,
            _ => reply_after_verification(allowed, origin, r) matches Some(reply) && reply.status
                == 500,
        },
{
    replies_carry_their_status(allowed, origin, r);
}

/// Whether `reply` ends a submission whose bot check has passed, with the
/// store going from `before` to `after`: a request with an unrecognised
/// category is answered with 400 and the reason, and the store is as it
/// was; any other is handed to the store once, as a message with the
/// request's values, and answered by what the store's answer comes to.
pub open spec fn stored_and_replied<R: ContactMessageRepository>(
    allowed: Seq<Seq<char>>,
    origin: Option<Seq<char>>,
    request: CreateContactMessageRequest,
    before: R,
    after: R,
    reply: HttpResponseView,
) -> bool {
    match category_named(request.category@) {
        None => reply == failure_for(
            allowed,
            origin,
            400,
            invalid_category_reason(request.category@),
        ) && after == before,
        Some(c) => exists|stored: ContactMessage, answer: Result<bool, RepositoryError>|
            {
                &&& stored.carries(
                    c,
                    request.email@,
                    request.name@,
                    request.message@,
                    request.data,
                )
                &&& #[trigger] before.save_effect(after, stored, answer)
                &&& reply == reply_after_store(allowed, origin, answer)
            },
    }
}

/// Whether `reply` ends a decoded submission that was run with the bot
/// check `check` and a store that went from `before` to `after`: the check
/// was asked once, about the request's token and the caller's address or
/// the default; where it failed, its failure decides the reply and the
/// store is as it was; where it passed, validation and the store decide.
pub open spec fn submitted<V: RequestValidationServiceTrait, R: ContactMessageRepository>(
    allowed: Seq<Seq<char>>,
    origin: Option<Seq<char>>,
    request: CreateContactMessageRequest,
    client_ip: Option<String>,
    check: V,
    before: R,
    after: R,
    reply: HttpResponseView,
) -> bool {
    exists|verified: Result<(), AppError>|
        {
            &&& #[trigger] check.verify_effect(
                request.token@,
                address_or_default(client_ip),
                verified,
            )
            &&& match reply_after_verification(allowed, origin, verified) {
                Some(ended) => reply == ended && after == before,
                None => stored_and_replied(allowed, origin, request, before, after, reply),
            }
        }
}

/// A failure of the store is answered with 500 and the fixed reason,
/// which holds nothing of the store's words; any answer of the store with
/// the success envelope.
pub proof fn store_answer_decides_reply(
    allowed: Seq<Seq<char>>,
    origin: Option<Seq<char>>,
    answer: Result<bool, RepositoryError>,
)
    ensures
        answer is Err ==> reply_after_store(allowed, origin, answer).status == 500
            && reply_after_store(allowed, origin, answer).body == Some(
            failure_envelope::<bool>(500, "Failed to save message"@),
        ),
        answer is Ok ==> reply_after_store(allowed, origin, answer).status == 200
            && reply_after_store(allowed, origin, answer).body == Some(success_envelope(true)),
{
    decoration_keeps_status_and_body(allowed, json_reply(success_envelope(true)), origin);
    decoration_keeps_status_and_body(
        allowed,
        json_reply(failure_envelope(500, "Failed to save message"@)),
        origin,
    );
}

/// Whether `reply` can end a submission of `category` that reached the bot
/// check: a failed check ends it with 401 or 500; after a check that
/// passed, a recognised category ends in success or in a failure to save,
/// and an unrecognised one in 400 with the reason.
pub open spec fn ends_submission(
    allowed: Seq<Seq<char>>,
    origin: Option<Seq<char>>,
    category: Seq<char>,
    reply: HttpResponseView,
) -> bool {
    ||| reply == failure_for(allowed, origin, 401, "Request validation failed"@)
    ||| reply == failure_for(allowed, origin, 500, "Internal Server Error"@)
    ||| category_named(category) is None && reply == failure_for(
        allowed,
        origin,
        400,
        invalid_category_reason(category),
    )
    ||| category_named(category) is Some && reply == success_for(allowed, origin)
    ||| category_named(category) is Some && reply == failure_for(
        allowed,
        origin,
        500,
        "Failed to save message"@,
    )
}

/// Runs a decoded submission through the bot check, validation and
/// storage. The store is touched only after the check has passed and the
/// category has been recognised.
pub fn submit<V: RequestValidationServiceTrait, R: ContactMessageRepository>(
    cors: &CorsHeaders,
    origin: &Option<String>,
    payload: CreateContactMessageRequest,
    app_state: &mut AppState<V, R>,
    client_ip: Option<String>,
) -> (r: HttpResponse)
    ensures
        submitted(
            cors@,
            optional_text(*origin),
            payload,
            client_ip,
            old(app_state).request_validation_service,
            old(app_state).contact_message_service.repo,
            final(app_state).contact_message_service.repo,
            r@,
        ),
        ends_submission(cors@, optional_text(*origin), payload.category@, r@),
        final(app_state).request_validation_service == old(app_state).request_validation_service,
        leaves_store_untouched(cors@, optional_text(*origin), payload.category@, r@)
            ==> final(app_state).contact_message_service.repo == old(
            app_state,
        ).contact_message_service.repo,
{
    let ip = client_address(client_ip);
    let verified = app_state.request_validation_service.verify(payload.token, ip);
    assert(old(app_state).request_validation_service.verify_effect(
        payload.token@,
        address_or_default(client_ip),
        verified,
    ));
    match verification_reply(cors, origin, &verified) {
        Some(reply) => reply,
        None => {
            let created = app_state.contact_message_service.create_message(
                payload.category,
                payload.email,
                payload.name,
                payload.message,
                payload.data,
            );
            let reply = creation_reply(cors, origin, created);
            proof {
                decoration_keeps_status_and_body(
                    cors@,
                    json_reply(success_envelope(true)),
                    optional_text(*origin),
                );
                decoration_keeps_status_and_body(
                    cors@,
                    json_reply(failure_envelope(500, "Failed to save message"@)),
                    optional_text(*origin),
                );
                decoration_keeps_status_and_body(
                    cors@,
                    json_reply(failure_envelope(500, "Internal Server Error"@)),
                    optional_text(*origin),
                );
                reveal_strlit("Internal Server Error");
                reveal_strlit("Failed to save message");
                assert("Failed to save message"@.len() != "Internal Server Error"@.len());
            }
            reply
        },
    }
}

/// Whether a submission that ended with `reply` left the store as it was:
/// so it is after a refused token, after a check that could not be made,
/// and after a category that was not recognised.
pub open spec fn leaves_store_untouched(
    allowed: Seq<Seq<char>>,
    origin: Option<Seq<char>>,
    category: Seq<char>,
    reply: HttpResponseView,
) -> bool {
    ||| reply.status == 401
    ||| reply.status == 400
    ||| category_named(category) is None
    ||| reply == failure_for(allowed, origin, 500, "Internal Server Error"@)
}

/// Handles one submission, and hands the collaborators back as the
/// submission left them. `payload` is the decoded body, `None` where it
/// could not be decoded; `app_state` holds the collaborators, `None` where
/// they could not be had. The first failure decides the reply: a rejected
/// origin 403, an unreadable body 400, missing collaborators 500, and on
/// each of these the collaborators come back as they were given. After
/// that the bot check, the validator and the store decide: the check is
/// asked once, the store is handed at most one message, and none after a
/// failed check or an unrecognised category.
pub fn create_contact_message_handler<V: RequestValidationServiceTrait, R: ContactMessageRepository>(
    cors: &CorsHeaders,
    origin: Option<String>,
    payload: Option<CreateContactMessageRequest>,
    app_state: Option<AppState<V, R>>,
    client_ip: Option<String>,
) -> (r: (HttpResponse, Option<AppState<V, R>>))
    ensures
        !origin_allowed(cors@, optional_text(origin)) ==> r.0@ == forbidden() && r.1 == app_state,
        origin_allowed(cors@, optional_text(origin)) ==> match (payload, app_state) {
            (None, _) => r.0@ == failure_for(
                cors@,
                optional_text(origin),
                400,
                "Invalid request body"@,
            ) && r.1 == app_state,
            (Some(_), None) => r.0@ == failure_for(
                cors@,
                optional_text(origin),
                500,
                "Internal Server Error"@,
            ) && r.1 == app_state,
            (Some(body), Some(state)) => r.1 matches Some(after) && {
                &&& submitted(
                    cors@,
                    optional_text(origin),
                    body,
                    client_ip,
                    state.request_validation_service,
                    state.contact_message_service.repo,
                    after.contact_message_service.repo,
                    r.0@,
                )
                &&& ends_submission(cors@, optional_text(origin), body.category@, r.0@)
                &&& after.request_validation_service == state.request_validation_service
                &&& leaves_store_untouched(cors@, optional_text(origin), body.category@, r.0@)
                    ==> after.contact_message_service.repo == state.contact_message_service.repo
            },
        },
{
    if !cors.is_allowed(&origin) {
        return (forbidden_reply(), app_state);
    }
    match payload {
        None => (failure_reply(cors, &origin, 400, "Invalid request body"), app_state),
        Some(body) => match app_state {
            None => (failure_reply(cors, &origin, 500, "Internal Server Error"), None),
            Some(state) => {
                let mut state = state;
                let reply = submit(cors, &origin, body, &mut state, client_ip);
                (reply, Some(state))
            },
        },
    }
}

} // verus!
