use vstd::prelude::*;

verus! {

/// The HTTP method of a request.
#[derive(Debug, Clone, Copy, PartialEq, Eq, Structural)]
pub enum Method {
    Get,
    Post,
}

/// What a request carries.
pub enum Body {
    /// No body.
    Empty,
    /// Form fields, sent form-encoded in this order.
    Form(Vec<(String, String)>),
    /// JSON text, sent as `application/json`.
    Json(String),
}

/// A request for the transport to send over the session's cookie-bearing
/// client.
pub struct Request {
    pub method: Method,
    pub url: String,
    /// The `Referer` header, if any.
    pub referer: Option<String>,
    /// The `X-CSRF-TOKEN` header, if any.
    pub csrf_token: Option<String>,
    pub body: Body,
}

/// The mathematical form of a body.
pub enum BodyView {
    Empty,
    Form(Seq<(Seq<char>, Seq<char>)>),
    Json(Seq<char>),
}

/// The mathematical form of a request.
pub struct RequestView {
    pub method: Method,
    pub url: Seq<char>,
    pub referer: Option<Seq<char>>,
    pub csrf_token: Option<Seq<char>>,
    pub body: BodyView,
}

/// The view of form fields.
pub open spec fn fields_view(fields: Seq<(String, String)>) -> Seq<(Seq<char>, Seq<char>)> {
    fields.map_values(|p: (String, String)| (p.0@, p.1@))
}

/// The view of an optional string.
pub open spec fn opt_str_view(o: Option<String>) -> Option<Seq<char>> {
    match o {
        Some(s) => Some(s@),
        None => None,
    }
}

impl View for Body {
    type V = BodyView;

    open spec fn view(&self) -> BodyView {
        match self {
            Body::Empty => BodyView::Empty,
            Body::Form(f) => BodyView::Form(fields_view(f@)),
            Body::Json(j) => BodyView::Json(j@),
        }
    }
}

impl View for Request {
    type V = RequestView;

    open spec fn view(&self) -> RequestView {
        RequestView {
            method: self.method,
            url: self.url@,
            referer: opt_str_view(self.referer),
            csrf_token: opt_str_view(self.csrf_token),
            body: self.body@,
        }
    }
}

} // verus!
