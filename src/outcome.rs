use vstd::prelude::*;
use vstd::string::*;
use crate::text::str_eq;

verus! {

/// `s` ends with `suffix`.
pub open spec fn ends_with(s: Seq<char>, suffix: Seq<char>) -> bool {
    suffix.len() <= s.len() && s.subrange(s.len() - suffix.len(), s.len() as int) == suffix
}

/// Whether `s` ends with `suffix`.
pub fn str_ends_with(s: &str, suffix: &str) -> (r: bool)
    ensures
        r == ends_with(s@, suffix@),
{
    let n = s.unicode_len();
    let m = suffix.unicode_len();
    if m > n {
        return false;
    }
    let start = n - m;
    let mut i: usize = 0;
    while i < m
        invariant
            n == s@.len(),
            m == suffix@.len(),
            start == n - m,
            i <= m,
            s@.subrange(start as int, start + i) == suffix@.subrange(0, i as int),
        decreases m - i,
    {
        if s.get_char(start + i) != suffix.get_char(i) {
            assert(s@.subrange(start as int, n as int)[i as int] != suffix@[i as int]);
            return false;
        }
        assert(s@.subrange(start as int, start + i + 1) =~= s@.subrange(start as int, start + i).push(
            s@[start + i],
        ));
        assert(suffix@.subrange(0, i + 1) =~= suffix@.subrange(0, i as int).push(suffix@[i as int]));
        i = i + 1;
    }
    assert(suffix@.subrange(0, m as int) =~= suffix@);
    true
}

/// A login succeeded when it landed on the attendance page: the portal
/// signals a refused login by sending the browser back to the login page.
pub fn login_succeeded(landing_path: &str) -> (r: bool)
    ensures
        r == ends_with(landing_path@, "/cico"@),
{
    str_ends_with(landing_path, "/cico")
}

/// What a password change replied: an empty body means the change was made.
pub fn password_changed(reply: &str) -> (r: bool)
    ensures
        r == (reply@.len() == 0),
{
    reply.unicode_len() == 0
}

/// The report of a stamp: the time it was recorded at when the portal says
/// it succeeded, else that it failed.
pub open spec fn clock_report(
    direction: Seq<char>,
    return_value: Option<Seq<char>>,
    clock_time: Option<Seq<char>>,
) -> Seq<char> {
    if return_value == Some("Success"@) && clock_time is Some {
        direction + " at "@ + clock_time->Some_0 + "\n"@
    } else {
        direction + " failed.\n"@
    }
}

/// Reports a stamp from the `returnValue` and `clockTime` of the reply
/// (`clock-in at 10:00`).
pub fn clock_message(direction: &str, return_value: Option<&str>, clock_time: Option<&str>) -> (r:
    String)
    ensures
        r@ == clock_report(
            direction@,
            match return_value {
                Some(v) => Some(v@),
                None => None,
            },
            match clock_time {
                Some(t) => Some(t@),
                None => None,
            },
        ),
{
    let mut s = String::from_str(direction);
    let succeeded = match return_value {
        Some(v) => str_eq(v, "Success"),
        None => false,
    };
    match clock_time {
        Some(t) if succeeded => {
            s.append(" at ");
            s.append(t);
            s.append("\n");
        },
        _ => {
            s.append(" failed.\n");
        },
    }
    s
}

/// The string that the JSON object `text` holds under `key`; `None` when
/// `text` is no JSON, or the member is missing or not a string.
pub uninterp spec fn json_string_at(text: Seq<char>, key: Seq<char>) -> Option<Seq<char>>;

/// Relies on serde_json's `from_str` into a `Value`, `Value::get` and
/// `Value::as_str`: a string member of a JSON object.
#[verifier::external_body]
fn json_string_field(text: &str, key: &str) -> (r: Option<String>)
    ensures
        r matches Some(v) ==> json_string_at(text@, key@) == Some(v@),
        r is None ==> json_string_at(text@, key@) is None,
{
    let value: serde_json::Value = serde_json::from_str(text).ok()?;
    value.get(key)?.as_str().map(|v| v.to_string())
}

/// Reports a stamp from the portal's JSON reply to it.
pub fn clock_reply_message(direction: &str, reply: &str) -> (r: String)
    ensures
        r@ == clock_report(
            direction@,
            json_string_at(reply@, "returnValue"@),
            json_string_at(reply@, "clockTime"@),
        ),
{
    let return_value = json_string_field(reply, "returnValue");
    let clock_time = json_string_field(reply, "clockTime");
    let rv: Option<&str> = match &return_value {
        Some(v) => Some(v.as_str()),
        None => None,
    };
    let ct: Option<&str> = match &clock_time {
        Some(t) => Some(t.as_str()),
        None => None,
    };
    clock_message(direction, rv, ct)
}

} // verus!
