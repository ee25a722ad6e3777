//! The uniform envelope that every reply carries.
use vstd::prelude::*;
use vstd::string::StringExecFns;
use crate::http::HttpResponse;

verus! {

/// The envelope of a reply: a status, a reason, and data on success.
#[derive(Debug)]
pub struct ApiResponse<T> {
    pub status: u16,
    pub message: String,
    pub data: Option<T>,
}

/// An envelope as a mathematical value.
pub ghost struct ApiResponseView<T> {
    pub status: u16,
    pub message: Seq<char>,
    pub data: Option<T>,
}

impl<T> View for ApiResponse<T> {
    type V = ApiResponseView<T>;

    open spec fn view(&self) -> ApiResponseView<T> {
        ApiResponseView { status: self.status, message: self.message@, data: self.data }
    }
}

/// The envelope of a success that carries `data`.
pub open spec fn success_envelope<T>(data: T) -> ApiResponseView<T> {
    ApiResponseView { status: 200, message: "success"@, data: Some(data) }
}

/// The envelope of a failure: the status and the reason, and no data.
pub open spec fn failure_envelope<T>(status: u16, message: Seq<char>) -> ApiResponseView<T> {
    ApiResponseView { status, message, data: None }
}

impl<T> ApiResponse<T> {
    pub fn success(data: T) -> (r: Self)
        ensures
            r@ == success_envelope(data),
    {
        ApiResponse { status: 200, message: String::from_str("success"), data: Some(data) }
    }

    pub fn failure(status: u16, message: &str) -> (r: Self)
        ensures
            r@ == failure_envelope::<T>(status, message@),
    {
        ApiResponse { status, message: String::from_str(message), data: None }
    }
}

impl ApiResponse<bool> {
    /// The reply that carries this envelope: its status is the envelope's,
    /// its content type is JSON, its body is the envelope.
    pub fn to_response(self) -> (r: HttpResponse)
        ensures
            r@ == crate::http::json_reply(self@),
    {
        let mut response = HttpResponse { status: self.status, headers: Vec::new(), body: Some(self) };
        assert(response@.headers =~= Seq::empty());
        response.set_header("Content-Type", "application/json");
        response
    }
}

} // verus!
