use vstd::prelude::*;
use vstd::string::*;
use crate::api::{
    url_of, auth_form, auth_request, clock_in_params, clock_in_request, clock_out_params, clock_out_request,
    login_page_request, password_form, password_request, update_password_params, Api,
};
use crate::condition::{condition_of, Condition};
use crate::date::WorkDate;
use crate::error::ApiError;
use crate::request::{Body, Method, Request, RequestView};
use crate::token::{csrf_token, parse_csrf};

verus! {

/// What an operation does once logged in.
pub enum Action {
    /// Nothing more: the login handshake is the whole operation.
    Login,
    /// Stamp a clock-in for a date with a condition.
    ClockIn(Condition, WorkDate),
    /// Stamp a clock-out for a date with a condition.
    ClockOut(Condition, WorkDate),
    /// Change the password to the one given.
    UpdatePassword(String),
}

/// Which reply an operation waits for.
#[derive(Debug, Clone, Copy, PartialEq, Eq, Structural)]
pub enum Phase {
    /// The login page, whose token the credentials are posted with.
    AwaitLoginPage,
    /// The page the login lands on, whose token the submission carries.
    AwaitLanding,
    /// The reply to the submission.
    AwaitSubmitResult,
    /// Nothing: the operation is over.
    Finished,
}

/// What the transport does next.
pub enum Step {
    /// Send this request and hand its reply back.
    Send(Request),
    /// The operation is over; the last reply is its result.
    Done,
}

/// One operation against the portal: the login handshake, then at most one
/// submission, each request built from the reply to the one before.
pub struct Operation {
    pub api: Api,
    pub action: Action,
    pub phase: Phase,
}

/// The submission an action makes with the landing page's token.
pub open spec fn submit_request(api: &Api, action: Action, token: Seq<char>) -> RequestView {
    match action {
        Action::ClockIn(c, d) => clock_in_request(api, c, d, token),
        Action::ClockOut(c, d) => clock_out_request(api, c, d, token),
        Action::UpdatePassword(n) => password_request(api, n@, token),
        Action::Login => login_page_request(api),
    }
}

/// The view of what the transport does next: the request to send, or none.
pub open spec fn step_view(s: Step) -> Option<RequestView> {
    match s {
        Step::Send(r) => Some(r@),
        Step::Done => None,
    }
}

/// The view of an advance's result.
pub open spec fn outcome_view(r: Result<Step, ApiError>) -> Result<Option<RequestView>, ApiError> {
    match r {
        Ok(s) => Ok(step_view(s)),
        Err(e) => Err(e),
    }
}

/// The view of a reply: its body, or `None` when the transport failed.
pub open spec fn reply_view(reply: Option<&str>) -> Option<Seq<char>> {
    match reply {
        Some(b) => Some(b@),
        None => None,
    }
}

/// The next phase and what to do, given the reply in the current phase.
/// A failed transport, or a page without its token, ends the operation with
/// that error; nothing is retried.
pub open spec fn next_step(op: &Operation, reply: Option<Seq<char>>) -> (
    Phase,
    Result<Option<RequestView>, ApiError>,
) {
    if op.phase == Phase::Finished {
        (Phase::Finished, Ok(None))
    } else {
        match reply {
            None => (Phase::Finished, Err(ApiError::NetworkError)),
            Some(body) => match op.phase {
                Phase::AwaitLoginPage => match csrf_token(body) {
                    Ok(t) => (Phase::AwaitLanding, Ok(Some(auth_request(&op.api, t)))),
                    Err(e) => (Phase::Finished, Err(e)),
                },
                Phase::AwaitLanding => match op.action {
                    Action::Login => (Phase::Finished, Ok(None)),
                    _ => match csrf_token(body) {
                        Ok(t) => (
                            Phase::AwaitSubmitResult,
                            Ok(Some(submit_request(&op.api, op.action, t))),
                        ),
                        Err(e) => (Phase::Finished, Err(e)),
                    },
                },
                _ => (Phase::Finished, Ok(None)),
            },
        }
    }
}

impl Operation {
    /// Starts an operation: its first request fetches the login page.
    pub fn start(api: Api, action: Action) -> (r: (Operation, Request))
        ensures
            r.0.api == api,
            r.0.action == action,
            r.0.phase == Phase::AwaitLoginPage,
            r.1@ == login_page_request(&api),
    {
        let first = api.login_page_request();
        (Operation { api, action, phase: Phase::AwaitLoginPage }, first)
    }

    /// Takes the reply to the last request (`None` when the transport
    /// failed) and says what to send next.
    pub fn advance(&mut self, reply: Option<&str>) -> (r: Result<Step, ApiError>)
        ensures
            final(self).api == old(self).api,
            final(self).action == old(self).action,
            (final(self).phase, outcome_view(r)) == next_step(old(self), reply_view(reply)),
    {
        if self.phase == Phase::Finished {
            return Ok(Step::Done);
        }
        let body = match reply {
            None => {
                self.phase = Phase::Finished;
                return Err(ApiError::NetworkError);
            },
            Some(b) => b,
        };
        match self.phase {
            Phase::AwaitLoginPage => match parse_csrf(body) {
                Ok(t) => {
                    self.phase = Phase::AwaitLanding;
                    Ok(Step::Send(self.api.auth_request(t.as_str())))
                },
                Err(e) => {
                    self.phase = Phase::Finished;
                    Err(e)
                },
            },
            Phase::AwaitLanding => {
                if let Action::Login = self.action {
                    self.phase = Phase::Finished;
                    return Ok(Step::Done);
                }
                match parse_csrf(body) {
                    Ok(t) => {
                        self.phase = Phase::AwaitSubmitResult;
                        Ok(Step::Send(self.submission(t.as_str())))
                    },
                    Err(e) => {
                        self.phase = Phase::Finished;
                        Err(e)
                    },
                }
            },
            _ => {
                self.phase = Phase::Finished;
                Ok(Step::Done)
            },
        }
    }

    /// The submission of this operation's action with the landing page's
    /// token.
    fn submission(&self, token: &str) -> (r: Request)
        requires
            !(self.action is Login),
        ensures
            r@ == submit_request(&self.api, self.action, token@),
    {
        match &self.action {
            Action::ClockIn(c, d) => Request {
                method: Method::Post,
                url: self.api.build_url("submitClockIn"),
                referer: Some(self.api.build_url("cico")),
                csrf_token: Some(String::from_str(token)),
                body: Body::Json(clock_in_params(*c, d)),
            },
            Action::ClockOut(c, d) => Request {
                method: Method::Post,
                url: self.api.build_url("submitClockOut"),
                referer: Some(self.api.build_url("cico")),
                csrf_token: Some(String::from_str(token)),
                body: Body::Json(clock_out_params(*c, d)),
            },
            Action::UpdatePassword(n) => Request {
                method: Method::Post,
                url: self.api.build_url("resetPassword"),
                referer: None,
                csrf_token: Some(String::from_str(token)),
                body: Body::Form(update_password_params(self.api.config.password.as_str(), n.as_str())),
            },
            Action::Login => self.api.login_page_request(),
        }
    }
}

/// Two clients with the same configuration build the same requests.
pub open spec fn same_api(a: &Api, b: &Api) -> bool {
    a.config.org@ == b.config.org@ && a.config.username@ == b.config.username@
        && a.config.password@ == b.config.password@ && a.endpoint@ == b.endpoint@
}

/// The operation that `start` begins for an action.
pub open spec fn started(api: Api, action: Action) -> Operation {
    Operation { api, action, phase: Phase::AwaitLoginPage }
}

impl Api {
    /// Begins the login handshake alone.
    pub fn login(&self) -> (r: (Operation, Request))
        ensures
            same_api(&r.0.api, self),
            r.0.action is Login,
            r.0.phase == Phase::AwaitLoginPage,
            r.1@ == login_page_request(self),
    {
        Operation::start(self.duplicate(), Action::Login)
    }

    /// Begins a clock-in for `date`; a label other than `best`, `good`,
    /// `normal` or `bad` is refused before any request is built.
    pub fn clock_in_on(&self, condition: &str, date: WorkDate) -> (r: Result<(Operation, Request), ApiError>)
        ensures
            condition_of(condition@) is None ==> r == Err::<(Operation, Request), ApiError>(
                ApiError::InvalidCondition,
            ),
            condition_of(condition@) is Some ==> r is Ok,
            r matches Ok(p) ==> (same_api(&p.0.api, self) && p.0.action == Action::ClockIn(
                condition_of(condition@).unwrap(),
                date,
            ) && p.0.phase == Phase::AwaitLoginPage && p.1@ == login_page_request(self)),
    {
        let c = match Condition::from_label(condition) {
            Ok(c) => c,
            Err(e) => return Err(e),
        };
        Ok(Operation::start(self.duplicate(), Action::ClockIn(c, date)))
    }

    /// Begins a clock-out for `date`; a label other than `best`, `good`,
    /// `normal` or `bad` is refused before any request is built.
    pub fn clock_out_on(&self, condition: &str, date: WorkDate) -> (r: Result<(Operation, Request), ApiError>)
        ensures
            condition_of(condition@) is None ==> r == Err::<(Operation, Request), ApiError>(
                ApiError::InvalidCondition,
            ),
            condition_of(condition@) is Some ==> r is Ok,
            r matches Ok(p) ==> (same_api(&p.0.api, self) && p.0.action == Action::ClockOut(
                condition_of(condition@).unwrap(),
                date,
            ) && p.0.phase == Phase::AwaitLoginPage && p.1@ == login_page_request(self)),
    {
        let c = match Condition::from_label(condition) {
            Ok(c) => c,
            Err(e) => return Err(e),
        };
        Ok(Operation::start(self.duplicate(), Action::ClockOut(c, date)))
    }

    /// Begins a clock-in for today's local date.
    pub fn clock_in(&self, condition: &str) -> (r: Result<(Operation, Request), ApiError>)
        ensures
            condition_of(condition@) is None ==> r == Err::<(Operation, Request), ApiError>(
                ApiError::InvalidCondition,
            ),
            condition_of(condition@) is Some ==> r is Ok,
            r matches Ok(p) ==> (same_api(&p.0.api, self) && (p.0.action matches Action::ClockIn(
                pc,
                d,
            ) && pc == condition_of(condition@).unwrap() && d.wf()) && p.0.phase
                == Phase::AwaitLoginPage && p.1@ == login_page_request(self)),
    {
        self.clock_in_on(condition, WorkDate::today())
    }

    /// Begins a clock-out for today's local date.
    pub fn clock_out(&self, condition: &str) -> (r: Result<(Operation, Request), ApiError>)
        ensures
            condition_of(condition@) is None ==> r == Err::<(Operation, Request), ApiError>(
                ApiError::InvalidCondition,
            ),
            condition_of(condition@) is Some ==> r is Ok,
            r matches Ok(p) ==> (same_api(&p.0.api, self) && (p.0.action matches Action::ClockOut(
                pc,
                d,
            ) && pc == condition_of(condition@).unwrap() && d.wf()) && p.0.phase
                == Phase::AwaitLoginPage && p.1@ == login_page_request(self)),
    {
        self.clock_out_on(condition, WorkDate::today())
    }

    /// Begins a change of the password to `new_password`.
    pub fn update_password(&self, new_password: &str) -> (r: (Operation, Request))
        ensures
            same_api(&r.0.api, self),
            r.0.action matches Action::UpdatePassword(n) && n@ == new_password@,
            r.0.phase == Phase::AwaitLoginPage,
            r.1@ == login_page_request(self),
    {
        Operation::start(self.duplicate(), Action::UpdatePassword(String::from_str(new_password)))
    }
}

/// The state after a reply.
pub open spec fn after(op: Operation, reply: Seq<char>) -> Operation {
    Operation { phase: next_step(&op, Some(reply)).0, ..op }
}

/// A clock-in logs in before it submits: the first reply (the login page)
/// can only lead to the credentials being posted with that page's token,
/// and the stamp is posted only after the second reply (the landing page),
/// carrying the landing page's token and never the login page's when the
/// two differ.
pub proof fn lemma_clock_in_logs_in_first(
    api: Api,
    condition: Condition,
    date: WorkDate,
    login_page: Seq<char>,
    landing_page: Seq<char>,
)
    ensures
        ({
            let op0 = started(api, Action::ClockIn(condition, date));
            let first = next_step(&op0, Some(login_page)).1;
            let second = next_step(&after(op0, login_page), Some(landing_page)).1;
            &&& first is Ok ==> first == Ok::<Option<RequestView>, ApiError>(
                Some(auth_request(&api, csrf_token(login_page)->Ok_0)),
            )
            &&& second matches Ok(Some(r)) ==> (first is Ok && r == clock_in_request(
                &api,
                condition,
                date,
                csrf_token(landing_page)->Ok_0,
            ) && r.url == url_of(&api, "submitClockIn"@) && r.csrf_token == Some(
                csrf_token(landing_page)->Ok_0,
            ))
            &&& second matches Ok(Some(r)) ==> (csrf_token(login_page) != csrf_token(landing_page)
                ==> r.csrf_token != Some(csrf_token(login_page)->Ok_0))
            &&& csrf_token(login_page) is Ok && csrf_token(landing_page) is Ok ==> second is Ok
        }),
{
}

/// A password change posts the stored password as `old_pass` and the new
/// one as both `new_pass` and `confirm_pass`, never two different values.
pub proof fn lemma_password_form(
    api: Api,
    new_password: String,
    login_page: Seq<char>,
    landing_page: Seq<char>,
)
    ensures
        ({
            let op0 = started(api, Action::UpdatePassword(new_password));
            let second = next_step(&after(op0, login_page), Some(landing_page)).1;
            second matches Ok(Some(r)) ==> (r.body == crate::request::BodyView::Form(
                password_form(api.config.password@, new_password@),
            ) && r.url == url_of(&api, "resetPassword"@))
        }),
        password_form(api.config.password@, new_password@)[0] == ("old_pass"@, api.config.password@),
        password_form(api.config.password@, new_password@)[1] == ("new_pass"@, new_password@),
        password_form(api.config.password@, new_password@)[2] == ("confirm_pass"@, new_password@),
        password_form(api.config.password@, new_password@)[1].1 == password_form(
            api.config.password@,
            new_password@,
        )[2].1,
{
}

/// Two login handshakes in a row share no token: each operation starts
/// afresh, the second posts the token of the login page it fetched itself,
/// and so never the first one's when the two pages' tokens differ.
pub proof fn lemma_handshakes_share_no_token(
    api: Api,
    first_page: Seq<char>,
    second_page: Seq<char>,
)
    ensures
        ({
            let one = next_step(&started(api, Action::Login), Some(first_page)).1;
            let two = next_step(&started(api, Action::Login), Some(second_page)).1;
            &&& csrf_token(second_page) matches Ok(t) ==> two == Ok::<
                Option<RequestView>,
                ApiError,
            >(Some(auth_request(&api, t)))
            &&& csrf_token(first_page) is Ok && csrf_token(second_page) is Ok && csrf_token(
                first_page,
            ) != csrf_token(second_page) ==> one != two && auth_form(
                &api,
                csrf_token(second_page)->Ok_0,
            )[2] != ("_csrf"@, csrf_token(first_page)->Ok_0)
        }),
{
}

} // verus!
