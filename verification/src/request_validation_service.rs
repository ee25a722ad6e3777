//! The bot check: what is sent to the verification provider, and how its
//! answer is read.
use vstd::prelude::*;
use vstd::string::StringExecFns;
use crate::exceptions::AppError;

verus! {

/// A bot check. `Ok` means that the token was accepted; an `Unauthorised`
/// error that it was refused; any other error that the check could not be
/// made.
pub trait RequestValidationServiceTrait: Sized {
    /// What one call of `verify` came to: `answer` is what the check
    /// returned for `token`, presented from `ip`. A check may say for
    /// itself what holds here; of one that does not, nothing is known.
    open spec fn verify_effect(
        self,
        token: Seq<char>,
        ip: Seq<char>,
        answer: Result<(), AppError>,
    ) -> bool {
        true
    }

    fn verify(&self, token: String, ip: String) -> (r: Result<(), AppError>)
        ensures
            self.verify_effect(token@, ip@, r),
    ;
}

/// The provider's answer to a verification call.
#[derive(Clone, Debug)]
pub struct TurnstileResponse {
    pub success: bool,
    pub error_codes: Option<Vec<String>>,
}

/// A verification call: a POST to `url` with a JSON body of the three
/// values `secret`, `response` and `remoteip`.
#[derive(Clone, Debug)]
pub struct VerificationRequest {
    pub url: String,
    pub content_type: String,
    pub secret: String,
    pub response: String,
    pub remoteip: String,
}

/// The bot check of the provider that is reached at `siteverify_url` with
/// the shared secret `secret_key`.
#[derive(Clone)]
pub struct CloudflareRequestValidationService {
    siteverify_url: String,
    secret_key: String,
}

/// How an answer of the provider, or its absence, is to be taken.
pub enum Verdict {
    /// The token was accepted.
    Accepted,
    /// The token was refused.
    Refused,
    /// The provider refused this site's own secret.
    Misconfigured,
    /// No answer could be had or read.
    Unavailable,
}

/// Whether the provider's error codes hold the one for a wrong secret.
pub open spec fn names_bad_secret(codes: Option<Vec<String>>) -> bool {
    codes matches Some(list) && exists|i: int|
        0 <= i < list@.len() && (#[trigger] list@[i])@ == "invalid-input-secret"@
}

/// The verdict on an answer: success settles it whatever else the answer
/// holds; without success, the code for a wrong secret means that the site
/// is misconfigured, and anything else that the token was refused.
pub open spec fn verdict_on(outcome: Option<TurnstileResponse>) -> Verdict {
    match outcome {
        None => Verdict::Unavailable,
        Some(answer) => if answer.success {
            Verdict::Accepted
        } else if names_bad_secret(answer.error_codes) {
            Verdict::Misconfigured
        } else {
            Verdict::Refused
        },
    }
}

/// The verdict on a reply of the provider that came with the HTTP status
/// `status`: a status outside 200 to 299 is no answer, whatever the body
/// says.
pub open spec fn verdict_on_reply(status: u16, outcome: Option<TurnstileResponse>) -> Verdict {
    if 200 <= status < 300 {
        verdict_on(outcome)
    } else {
        Verdict::Unavailable
    }
}

/// Whether `r` is what the bot check reports for `verdict`.
pub open spec fn reports(r: Result<(), AppError>, verdict: Verdict) -> bool {
    match verdict {
        Verdict::Accepted => r is Ok,
        Verdict::Refused => r matches Err(AppError::Unauthorised(reason)) && reason@
            == "Turnstile validation failed"@,
        Verdict::Misconfigured => r matches Err(AppError::InternalError),
        Verdict::Unavailable => r matches Err(AppError::InternalError),
    }
}

fn holds_bad_secret(codes: &Vec<String>) -> (r: bool)
    ensures
        r == exists|i: int|
            0 <= i < codes@.len() && (#[trigger] codes@[i])@ == "invalid-input-secret"@,
{
    let wanted = String::from_str("invalid-input-secret");
    let mut i: usize = 0;
    while i < codes.len()
        invariant
            i <= codes.len(),
            wanted@ == "invalid-input-secret"@,
            forall|j: int| 0 <= j < i ==> (#[trigger] codes@[j])@ != "invalid-input-secret"@,
        decreases codes.len() - i,
    {
        if codes[i] == wanted {
            return true;
        }
        i += 1;
    }
    false
}

impl CloudflareRequestValidationService {
    /// The address of the provider's verification endpoint.
    pub closed spec fn url(&self) -> Seq<char> {
        self.siteverify_url@
    }

    /// The secret that this site shares with the provider.
    pub closed spec fn secret(&self) -> Seq<char> {
        self.secret_key@
    }

    pub fn create(siteverify_url: String, secret_key: String) -> (r: Self)
        ensures
            r.url() == siteverify_url@,
            r.secret() == secret_key@,
    {
        CloudflareRequestValidationService { siteverify_url, secret_key }
    }

    /// The call that asks the provider about `token`, presented from `ip`.
    pub fn verification_request(&self, token: String, ip: String) -> (r: VerificationRequest)
        ensures
            r.url@ == self.url(),
            r.content_type@ == "application/json"@,
            r.secret@ == self.secret(),
            r.response@ == token@,
            r.remoteip@ == ip@,
    {
        VerificationRequest {
            url: self.siteverify_url.clone(),
            content_type: String::from_str("application/json"),
            secret: self.secret_key.clone(),
            response: token,
            remoteip: ip,
        }
    }

    /// Reads a reply of the provider: its HTTP status and its decoded body,
    /// `None` where the body could not be decoded. A status outside 200 to
    /// 299 is an internal error, as is a body that cannot be read.
    pub fn interpret_reply(status: u16, outcome: Option<TurnstileResponse>) -> (r: Result<
        (),
        AppError,
    >)
        ensures
            reports(r, verdict_on_reply(status, outcome)),
            !(200 <= status < 300) ==> r matches Err(AppError::InternalError),
    {
        if 200 <= status && status < 300 {
            CloudflareRequestValidationService::interpret(outcome)
        } else {
            Err(AppError::InternalError)
        }
    }

    /// Reads the provider's answer; `None` stands for an answer that could
    /// not be had or decoded.
    pub fn interpret(outcome: Option<TurnstileResponse>) -> (r: Result<(), AppError>)
        ensures
            reports(r, verdict_on(outcome)),
    {
        match outcome {
            None => Err(AppError::InternalError),
            Some(answer) => {
                if answer.success {
                    Ok(())
                } else {
                    let bad_secret = match &answer.error_codes {
                        Some(codes) => holds_bad_secret(codes),
                        None => false,
                    };
                    if bad_secret {
                        Err(AppError::InternalError)
                    } else {
                        Err(AppError::Unauthorised(String::from_str("Turnstile validation failed")))
                    }
                }
            },
        }
    }
}

} // verus!
