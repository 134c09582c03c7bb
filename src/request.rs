use vstd::prelude::*;

verus! {

/// HTTP request methods.
#[derive(Debug, Clone, Copy, PartialEq, Eq, Structural)]
pub enum Method {
    Get,
    Post,
    Put,
    Delete,
    Patch,
    Head,
    Options,
}

impl Method {
    /// The method's name as it stands in a request line.
    pub fn name(self) -> (r: &'static str)
        ensures
            r@ == method_name(self),
    {
        match self {
            Method::Get => "GET",
            Method::Post => "POST",
            Method::Put => "PUT",
            Method::Delete => "DELETE",
            Method::Patch => "PATCH",
            Method::Head => "HEAD",
            Method::Options => "OPTIONS",
        }
    }

    /// Every method, in the order a picker lists them.
    pub fn all() -> (r: Vec<Method>)
        ensures
            r@ == all_methods(),
    {
        vec![
            Method::Get,
            Method::Post,
            Method::Put,
            Method::Delete,
            Method::Patch,
            Method::Head,
            Method::Options,
        ]
    }
}

/// Every method, in the order a picker lists them.
pub open spec fn all_methods() -> Seq<Method> {
    seq![
        Method::Get,
        Method::Post,
        Method::Put,
        Method::Delete,
        Method::Patch,
        Method::Head,
        Method::Options,
    ]
}

pub open spec fn method_name(m: Method) -> Seq<char> {
    match m {
        Method::Get => "GET"@,
        Method::Post => "POST"@,
        Method::Put => "PUT"@,
        Method::Delete => "DELETE"@,
        Method::Patch => "PATCH"@,
        Method::Head => "HEAD"@,
        Method::Options => "OPTIONS"@,
    }
}

/// A request ready to be sent: method, absolute URL and body.
#[derive(Debug)]
pub struct RequestDescriptor {
    pub method: Method,
    pub url: String,
    pub body: String,
}

/// The text of a response body.
#[derive(Debug)]
pub struct ResponseRecord {
    pub body: String,
}

/// Why a request produced no response.
#[derive(Debug)]
pub enum RequestError {
    /// The URL text is not an absolute URL, not even with `https://` in front.
    Parse,
    /// Sending the request or receiving the response failed.
    Transport(String),
}

/// The serialisation of `text` parsed as an absolute URL, or `None` where it is
/// not one.
pub uninterp spec fn url_parse(text: Seq<char>) -> Option<Seq<char>>;

/// Relies on reqwest::Url::parse (the url crate's `Url`) and `Url::as_str`:
/// whether the text parses as an absolute URL, and the URL's serialisation,
/// depend on the text alone. Parsing never panics.
#[verifier::external_body]
fn parse_url(text: &str) -> (r: Option<String>)
    ensures
        match r {
            Some(u) => url_parse(text@) == Some(u@),
            None => url_parse(text@) is None,
        },
{
    match reqwest::Url::parse(text) {
        Ok(u) => Some(u.as_str().to_string()),
        Err(_) => None,
    }
}

/// The scheme put in front of URL text that does not parse on its own.
pub open spec fn https_prefix() -> Seq<char> {
    "https://"@
}

/// The URL that `text` resolves to: the text itself where it parses, else the
/// text behind `https://`, else none.
pub open spec fn resolved_url(text: Seq<char>) -> Option<Seq<char>> {
    match url_parse(text) {
        Some(u) => Some(u),
        None => url_parse(https_prefix() + text),
    }
}

/// The request for an already resolved URL: `Parse` where there is none.
pub fn descriptor_from(method: Method, url: Option<String>, body: &str) -> (r: Result<
    RequestDescriptor,
    RequestError,
>)
    ensures
        match url {
            Some(u) => r matches Ok(d) && d.method == method && d.url@ == u@ && d.body@ == body@,
            None => r matches Err(RequestError::Parse),
        },
{
    match url {
        Some(u) => Ok(RequestDescriptor { method, url: u, body: String::from_str(body) }),
        None => Err(RequestError::Parse),
    }
}

/// Builds a request from the method, the URL text and the body. URL text that
/// is not an absolute URL is tried again with `https://` in front; where that
/// fails too, the result is `Parse`.
pub fn build(method: Method, url_text: &str, body: &str) -> (r: Result<RequestDescriptor, RequestError>)
    ensures
        match resolved_url(url_text@) {
            Some(u) => r matches Ok(d) && d.method == method && d.url@ == u && d.body@ == body@,
            None => r matches Err(RequestError::Parse),
        },
{
    let mut url = parse_url(url_text);
    if url.is_none() {
        let repaired = String::from_str("https://").concat(url_text);
        url = parse_url(repaired.as_str());
    }
    descriptor_from(method, url, body)
}

/// Where the dispatcher stands: ready for a request, or waiting for one.
#[derive(Debug, Clone, Copy, PartialEq, Eq, Structural)]
pub enum DispatchState {
    Idle,
    InFlight,
}

/// Sends at most one request at a time and keeps the outcome of the last one.
#[derive(Debug)]
pub struct Dispatcher {
    pub state: DispatchState,
    pub last: Option<Result<ResponseRecord, RequestError>>,
}

/// The record that a transport outcome leaves: the body, or a transport error.
pub open spec fn outcome_record(outcome: Result<String, String>) -> Result<ResponseRecord, RequestError> {
    match outcome {
        Ok(b) => Ok(ResponseRecord { body: b }),
        Err(m) => Err(RequestError::Transport(m)),
    }
}

impl Dispatcher {
    /// An idle dispatcher with no outcome yet.
    pub fn new() -> (r: Dispatcher)
        ensures
            r.state == DispatchState::Idle,
            r.last is None,
    {
        Dispatcher { state: DispatchState::Idle, last: None }
    }

    /// Handles a fire command. While a request is in flight the command is
    /// refused and nothing changes. Otherwise the request is built: on success
    /// it is returned for sending and the dispatcher waits for its outcome; on
    /// a `Parse` failure that failure becomes the last outcome and the
    /// dispatcher stays idle.
    pub fn fire(&mut self, method: Method, url_text: &str, body: &str) -> (r: Option<RequestDescriptor>)
        ensures
            old(self).state == DispatchState::InFlight ==> r is None && final(self).state
                == DispatchState::InFlight && final(self).last == old(self).last,
            old(self).state == DispatchState::Idle ==> match resolved_url(url_text@) {
                Some(u) => r matches Some(d) && d.method == method && d.url@ == u && d.body@ == body@
                    && final(self).state == DispatchState::InFlight && final(self).last == old(self).last,
                None => r is None && final(self).state == DispatchState::Idle && final(self).last
                    matches Some(Err(RequestError::Parse)),
            },
    {
        if self.state == DispatchState::InFlight {
            return None;
        }
        match build(method, url_text, body) {
            Ok(d) => {
                self.state = DispatchState::InFlight;
                Some(d)
            },
            Err(e) => {
                self.last = Some(Err(e));
                None
            },
        }
    }

    /// Records the outcome of the request in flight and becomes idle again. An
    /// outcome that arrives while idle is ignored.
    pub fn complete(&mut self, outcome: Result<String, String>)
        ensures
            old(self).state == DispatchState::InFlight ==> final(self).state == DispatchState::Idle
                && final(self).last == Some(outcome_record(outcome)),
            old(self).state == DispatchState::Idle ==> final(self).state == DispatchState::Idle
                && final(self).last == old(self).last,
    {
        if self.state == DispatchState::Idle {
            return;
        }
        self.state = DispatchState::Idle;
        self.last = Some(
            match outcome {
                Ok(b) => Ok(ResponseRecord { body: b }),
                Err(m) => Err(RequestError::Transport(m)),
            },
        );
    }
}

} // verus!
