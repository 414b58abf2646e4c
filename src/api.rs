use vstd::prelude::*;
use vstd::string::*;
use crate::condition::{code_of, Condition};
use crate::config::Config;
use crate::date::{date_text, work_date_string, WorkDate};
use crate::request::{Body, BodyView, Method, Request, RequestView};
use crate::text::{decimal, push_decimal};

verus! {

/// The portal the client talks to unless told otherwise.
pub const DEFAULT_ENDPOINT: &'static str = "https://kintai.miteras.jp";

/// The client's configuration: credentials and the portal's base endpoint.
pub struct Api {
    pub config: Config,
    pub endpoint: String,
}

/// `endpoint/org/path`.
pub open spec fn url_of(api: &Api, path: Seq<char>) -> Seq<char> {
    api.endpoint@ + seq!['/'] + api.config.org@ + seq!['/'] + path
}

/// The JSON text of a clock-in stamp.
pub open spec fn clock_in_json(condition: Condition, date: WorkDate) -> Seq<char> {
    "{\"clockInCondition\":{\"condition\":"@ + decimal(code_of(condition) as nat)
        + "},\"dailyPlaceEvidence\":{},\"workDateString\":\""@ + date_text(date)
        + "\",\"enableBreakTime\":false}"@
}

/// The JSON text of a clock-out stamp.
pub open spec fn clock_out_json(condition: Condition, date: WorkDate) -> Seq<char> {
    "{\"clockOutCondition\":{\"condition\":"@ + decimal(code_of(condition) as nat)
        + "},\"dailyPlaceEvidence\":{},\"workDateString\":\""@ + date_text(date)
        + "\",\"stampBreakStart\":\"\",\"stampBreakEnd\":\"\"}"@
}

/// The form of a password change: the old password, then the new one twice.
pub open spec fn password_form(old_password: Seq<char>, new_password: Seq<char>) -> Seq<
    (Seq<char>, Seq<char>),
> {
    seq![("old_pass"@, old_password), ("new_pass"@, new_password), ("confirm_pass"@, new_password)]
}

/// The form of the login: user, password and the login page's token.
pub open spec fn auth_form(api: &Api, token: Seq<char>) -> Seq<(Seq<char>, Seq<char>)> {
    seq![("username"@, api.config.username@), ("password"@, api.config.password@), ("_csrf"@, token)]
}

/// The request that fetches the login page.
pub open spec fn login_page_request(api: &Api) -> RequestView {
    RequestView {
        method: Method::Get,
        url: url_of(api, "login"@),
        referer: None,
        csrf_token: None,
        body: BodyView::Empty,
    }
}

/// The request that posts the credentials with the login page's token.
pub open spec fn auth_request(api: &Api, token: Seq<char>) -> RequestView {
    RequestView {
        method: Method::Post,
        url: url_of(api, "auth"@),
        referer: Some(url_of(api, "login"@)),
        csrf_token: None,
        body: BodyView::Form(auth_form(api, token)),
    }
}

/// The request that stamps a clock-in with the landing page's token.
pub open spec fn clock_in_request(
    api: &Api,
    condition: Condition,
    date: WorkDate,
    token: Seq<char>,
) -> RequestView {
    RequestView {
        method: Method::Post,
        url: url_of(api, "submitClockIn"@),
        referer: Some(url_of(api, "cico"@)),
        csrf_token: Some(token),
        body: BodyView::Json(clock_in_json(condition, date)),
    }
}

/// The request that stamps a clock-out with the landing page's token.
pub open spec fn clock_out_request(
    api: &Api,
    condition: Condition,
    date: WorkDate,
    token: Seq<char>,
) -> RequestView {
    RequestView {
        method: Method::Post,
        url: url_of(api, "submitClockOut"@),
        referer: Some(url_of(api, "cico"@)),
        csrf_token: Some(token),
        body: BodyView::Json(clock_out_json(condition, date)),
    }
}

/// The request that changes the password with the landing page's token.
pub open spec fn password_request(api: &Api, new_password: Seq<char>, token: Seq<char>) -> RequestView {
    RequestView {
        method: Method::Post,
        url: url_of(api, "resetPassword"@),
        referer: None,
        csrf_token: Some(token),
        body: BodyView::Form(password_form(api.config.password@, new_password)),
    }
}

fn pair(k: &str, v: &str) -> (r: (String, String))
    ensures
        r.0@ == k@,
        r.1@ == v@,
{
    (String::from_str(k), String::from_str(v))
}

/// The JSON text of a clock-in stamp.
pub fn clock_in_params(condition: Condition, date: &WorkDate) -> (r: String)
    ensures
        r@ == clock_in_json(condition, *date),
{
    let mut s = String::from_str("{\"clockInCondition\":{\"condition\":");
    push_decimal(&mut s, condition.code() as u32);
    s.append("},\"dailyPlaceEvidence\":{},\"workDateString\":\"");
    let d = work_date_string(date);
    s.append(d.as_str());
    s.append("\",\"enableBreakTime\":false}");
    s
}

/// The JSON text of a clock-out stamp.
pub fn clock_out_params(condition: Condition, date: &WorkDate) -> (r: String)
    ensures
        r@ == clock_out_json(condition, *date),
{
    let mut s = String::from_str("{\"clockOutCondition\":{\"condition\":");
    push_decimal(&mut s, condition.code() as u32);
    s.append("},\"dailyPlaceEvidence\":{},\"workDateString\":\"");
    let d = work_date_string(date);
    s.append(d.as_str());
    s.append("\",\"stampBreakStart\":\"\",\"stampBreakEnd\":\"\"}");
    s
}

/// The form of a password change: the old password, then the new one twice.
pub fn update_password_params(old_password: &str, new_password: &str) -> (r: Vec<(String, String)>)
    ensures
        crate::request::fields_view(r@) == password_form(old_password@, new_password@),
{
    let mut fields: Vec<(String, String)> = Vec::new();
    fields.push(pair("old_pass", old_password));
    fields.push(pair("new_pass", new_password));
    fields.push(pair("confirm_pass", new_password));
    assert(crate::request::fields_view(fields@) =~= password_form(old_password@, new_password@));
    fields
}

impl Api {
    /// A client for the default portal.
    pub fn new(config: &Config) -> (r: Api)
        ensures
            r.config.org@ == config.org@,
            r.config.username@ == config.username@,
            r.config.password@ == config.password@,
            r.endpoint@ == DEFAULT_ENDPOINT@,
    {
        Api { config: config.duplicate(), endpoint: String::from_str(DEFAULT_ENDPOINT) }
    }

    /// A copy of this client's configuration.
    pub fn duplicate(&self) -> (r: Api)
        ensures
            r.config.org@ == self.config.org@,
            r.config.username@ == self.config.username@,
            r.config.password@ == self.config.password@,
            r.endpoint@ == self.endpoint@,
    {
        Api { config: self.config.duplicate(), endpoint: self.endpoint.clone() }
    }

    /// A client for the portal at `endpoint` (no trailing `/`).
    pub fn with_endpoint(config: &Config, endpoint: &str) -> (r: Api)
        ensures
            r.config.org@ == config.org@,
            r.config.username@ == config.username@,
            r.config.password@ == config.password@,
            r.endpoint@ == endpoint@,
    {
        Api { config: config.duplicate(), endpoint: String::from_str(endpoint) }
    }

    /// The URL of a page of this organisation.
    pub fn build_url(&self, path: &str) -> (r: String)
        ensures
            r@ == url_of(self, path@),
    {
        proof {
            reveal_strlit("/");
        }
        let mut s = String::from_str(self.endpoint.as_str());
        s.append("/");
        s.append(self.config.org.as_str());
        s.append("/");
        s.append(path);
        assert(s@ =~= url_of(self, path@));
        s
    }

    /// The request that fetches the login page.
    pub fn login_page_request(&self) -> (r: Request)
        ensures
            r@ == login_page_request(self),
    {
        Request {
            method: Method::Get,
            url: self.build_url("login"),
            referer: None,
            csrf_token: None,
            body: Body::Empty,
        }
    }

    /// The request that posts the credentials with the login page's token.
    pub fn auth_request(&self, token: &str) -> (r: Request)
        ensures
            r@ == auth_request(self, token@),
    {
        let mut fields: Vec<(String, String)> = Vec::new();
        fields.push(pair("username", self.config.username.as_str()));
        fields.push(pair("password", self.config.password.as_str()));
        fields.push(pair("_csrf", token));
        let r = Request {
            method: Method::Post,
            url: self.build_url("auth"),
            referer: Some(self.build_url("login")),
            csrf_token: None,
            body: Body::Form(fields),
        };
        assert(r@.body == auth_request(self, token@).body) by {
            assert(crate::request::fields_view(fields@) =~= auth_form(self, token@));
        }
        r
    }
}

} // verus!
