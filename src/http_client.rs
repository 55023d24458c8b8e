use vstd::prelude::*;

verus! {

/// A GET request: the locator of what to fetch.
pub struct HttpRequest {
    uri: String,
}

/// The body that a GET brought back.
pub struct HttpResponse {
    body: Vec<u8>,
}

impl View for HttpRequest {
    type V = Seq<char>;

    closed spec fn view(&self) -> Seq<char> {
        self.uri@
    }
}

impl View for HttpResponse {
    type V = Seq<u8>;

    closed spec fn view(&self) -> Seq<u8> {
        self.body@
    }
}

impl HttpRequest {
    /// A request for `uri`.
    pub fn new(uri: String) -> (r: HttpRequest)
        ensures
            r@ == uri@,
    {
        HttpRequest { uri }
    }

    /// The locator to fetch.
    pub fn uri(&self) -> (r: &str)
        ensures
            r@ == self@,
    {
        self.uri.as_str()
    }
}

impl HttpResponse {
    /// A response carrying `body`.
    pub fn new(body: Vec<u8>) -> (r: HttpResponse)
        ensures
            r@ == body@,
    {
        HttpResponse { body }
    }

    /// The bytes of the body.
    pub fn body(&self) -> (r: &Vec<u8>)
        ensures
            r@ == self@,
    {
        &self.body
    }
}

/// The network library through which a request goes out.
#[derive(PartialEq, Eq, Structural, Clone, Copy, Debug)]
pub enum Transport {
    /// reqwest, awaited on the calling task.
    Reqwest,
    /// ureq, run blocking on a worker and awaited.
    Ureq,
}

/// What a client makes of a GET: an answer of its own, or a request that the driver must
/// send over a transport, whose body then becomes the response.
pub enum HttpCall {
    Answered(HttpResponse),
    Send(Transport, HttpRequest),
}

/// The view of an `HttpCall`.
pub ghost enum HttpPlan {
    Answered(Seq<u8>),
    Send(Transport, Seq<char>),
}

impl View for HttpCall {
    type V = HttpPlan;

    open spec fn view(&self) -> HttpPlan {
        match self {
            HttpCall::Answered(response) => HttpPlan::Answered(response@),
            HttpCall::Send(transport, request) => HttpPlan::Send(*transport, request@),
        }
    }
}

/// The HTTP capability that a service fetches through.
///
/// A client decides what a GET of a locator comes to; the transfer over the network, and
/// the abort of the calling task when it fails, belong to the driver that runs the call.
pub trait HttpClient {
    /// What a GET of `uri` comes to.
    spec fn plan(&self, uri: Seq<char>) -> HttpPlan;

    /// Issues a GET of the request's locator.
    fn get(&self, request: HttpRequest) -> (r: HttpCall)
        ensures
            r@ == self.plan(request@),
    ;
}

} // verus!
