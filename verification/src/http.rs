//! A reply as plain data: status, header assignments and body.
use vstd::prelude::*;
use vstd::string::StringExecFns;
use crate::responses::{ApiResponse, ApiResponseView};

verus! {

/// One header assignment.
#[derive(Debug)]
pub struct Header {
    pub name: String,
    pub value: String,
}

impl View for Header {
    type V = (Seq<char>, Seq<char>);

    open spec fn view(&self) -> (Seq<char>, Seq<char>) {
        (self.name@, self.value@)
    }
}

/// A reply. `headers` holds the header assignments in the order in which
/// they were made; `body` is the envelope to send, or nothing.
#[derive(Debug)]
pub struct HttpResponse {
    pub status: u16,
    pub headers: Vec<Header>,
    pub body: Option<ApiResponse<bool>>,
}

/// A reply as a mathematical value.
pub ghost struct HttpResponseView {
    pub status: u16,
    pub headers: Seq<(Seq<char>, Seq<char>)>,
    pub body: Option<ApiResponseView<bool>>,
}

impl HttpResponseView {
    /// This reply after one more header assignment.
    pub open spec fn with_header(self, name: Seq<char>, value: Seq<char>) -> HttpResponseView {
        HttpResponseView { headers: self.headers.push((name, value)), ..self }
    }
}

/// The reply with status 200 that has no header and no body.
pub open spec fn empty_reply() -> HttpResponseView {
    HttpResponseView { status: 200, headers: Seq::empty(), body: None }
}

/// The reply that carries an envelope as JSON under the envelope's status.
pub open spec fn json_reply(envelope: ApiResponseView<bool>) -> HttpResponseView {
    HttpResponseView {
        status: envelope.status,
        headers: seq![("Content-Type"@, "application/json"@)],
        body: Some(envelope),
    }
}

impl View for HttpResponse {
    type V = HttpResponseView;

    open spec fn view(&self) -> HttpResponseView {
        HttpResponseView {
            status: self.status,
            headers: self.headers@.map_values(|h: Header| h@),
            body: match self.body {
                Some(envelope) => Some(envelope@),
                None => None,
            },
        }
    }
}

impl HttpResponse {
    /// The reply with status 200, no header and no body.
    pub fn empty() -> (r: HttpResponse)
        ensures
            r@ == empty_reply(),
    {
        let r = HttpResponse { status: 200, headers: Vec::new(), body: None };
        assert(r@.headers =~= Seq::empty());
        r
    }

    /// Assigns `value` to the header `name`, after all earlier assignments.
    pub fn set_header(&mut self, name: &str, value: &str)
        ensures
            final(self)@ == old(self)@.with_header(name@, value@),
    {
        let header = Header { name: String::from_str(name), value: String::from_str(value) };
        self.headers.push(header);
        assert(self@.headers =~= old(self)@.headers.push((name@, value@)));
    }
}

} // verus!
