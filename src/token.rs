use vstd::prelude::*;
use crate::error::ApiError;
use crate::request::opt_str_view;
use crate::text::str_eq;

verus! {

/// The selector that finds the anti-forgery token, whether the page renders
/// it as a `<meta>` tag or as an `<input>` field.
pub const CSRF_SELECTOR: &'static str = "meta[name='_csrf'], input[name='_csrf']";

/// The tag name of the first element of `html`, parsed as a fragment, that
/// `selector` matches; `None` when nothing matches or the selector is refused.
pub uninterp spec fn first_match_name(html: Seq<char>, selector: Seq<char>) -> Option<Seq<char>>;

/// For that same first element: `Some(a)` with `a` the value of attribute
/// `attr`, if it has one; `None` when nothing matches or the selector is
/// refused.
pub uninterp spec fn first_match_attr(html: Seq<char>, selector: Seq<char>, attr: Seq<char>) -> Option<
    Option<Seq<char>>,
>;

/// Relies on scraper's `Html::parse_fragment`, `Selector::parse`,
/// `Html::select` and `Element::name`: the name of the first element matched.
#[verifier::external_body]
fn select_first_name(html: &str, selector: &str) -> (r: Option<String>)
    ensures
        r matches Some(n) ==> first_match_name(html@, selector@) == Some(n@),
        r is None ==> first_match_name(html@, selector@) is None,
{
    let fragment = scraper::Html::parse_fragment(html);
    let selector = scraper::Selector::parse(selector).ok()?;
    let element = fragment.select(&selector).next()?;
    Some(element.value().name().to_string())
}

/// Relies on scraper's `Html::parse_fragment`, `Selector::parse`,
/// `Html::select` and `Element::attr`: an attribute of the first element
/// matched.
#[verifier::external_body]
fn select_first_attr(html: &str, selector: &str, attr: &str) -> (r: Option<Option<String>>)
    ensures
        r matches Some(Some(v)) ==> first_match_attr(html@, selector@, attr@) == Some(Some(v@)),
        r matches Some(None) ==> first_match_attr(html@, selector@, attr@) == Some(
            None::<Seq<char>>,
        ),
        r is None ==> first_match_attr(html@, selector@, attr@) is None,
{
    let fragment = scraper::Html::parse_fragment(html);
    let selector = scraper::Selector::parse(selector).ok()?;
    let element = fragment.select(&selector).next()?;
    Some(element.value().attr(attr).map(|v| v.to_string()))
}

/// The attribute that carries the token on an element with this tag name:
/// `content` on a `<meta>` tag, `value` on anything else.
pub open spec fn token_attr(tag: Seq<char>) -> Seq<char> {
    if tag == "meta"@ {
        "content"@
    } else {
        "value"@
    }
}

/// The token given the tag name of the element found (if any) and what its
/// token attribute holds.
pub open spec fn token_from(tag: Option<Seq<char>>, attr: Option<Option<Seq<char>>>) -> Result<
    Seq<char>,
    ApiError,
> {
    match tag {
        None => Err(ApiError::TokenNotFound),
        Some(_) => match attr {
            Some(Some(v)) => Ok(v),
            Some(None) => Err(ApiError::TokenAttributeMissing),
            None => Err(ApiError::TokenNotFound),
        },
    }
}

/// The token that a page carries.
pub open spec fn csrf_token(html: Seq<char>) -> Result<Seq<char>, ApiError> {
    let tag = first_match_name(html, CSRF_SELECTOR@);
    match tag {
        None => Err(ApiError::TokenNotFound),
        Some(t) => token_from(tag, first_match_attr(html, CSRF_SELECTOR@, token_attr(t))),
    }
}

/// Names the attribute that carries the token on a tag.
pub fn token_attribute(tag: &str) -> (r: &'static str)
    ensures
        r@ == token_attr(tag@),
{
    if str_eq(tag, "meta") {
        "content"
    } else {
        "value"
    }
}

/// Picks the token out of what was found: no element gives `TokenNotFound`,
/// an element without the attribute gives `TokenAttributeMissing`.
pub fn token_from_found(tag: Option<String>, attr: Option<Option<String>>) -> (r: Result<
    String,
    ApiError,
>)
    ensures
        r matches Ok(v) ==> token_from(opt_str_view(tag), opt_opt_view(attr)) == Ok::<
            Seq<char>,
            ApiError,
        >(v@),
        r matches Err(e) ==> token_from(opt_str_view(tag), opt_opt_view(attr)) == Err::<
            Seq<char>,
            ApiError,
        >(e),
{
    match tag {
        None => Err(ApiError::TokenNotFound),
        Some(_) => match attr {
            Some(Some(v)) => Ok(v),
            Some(None) => Err(ApiError::TokenAttributeMissing),
            None => Err(ApiError::TokenNotFound),
        },
    }
}

/// The view of an optional optional string.
pub open spec fn opt_opt_view(o: Option<Option<String>>) -> Option<Option<Seq<char>>> {
    match o {
        Some(inner) => Some(opt_str_view(inner)),
        None => None,
    }
}

/// Extracts the anti-forgery token from an HTML page.
pub fn parse_csrf(body: &str) -> (r: Result<String, ApiError>)
    ensures
        r matches Ok(v) ==> csrf_token(body@) == Ok::<Seq<char>, ApiError>(v@),
        r matches Err(e) ==> csrf_token(body@) == Err::<Seq<char>, ApiError>(e),
{
    let tag = select_first_name(body, CSRF_SELECTOR);
    match tag {
        None => Err(ApiError::TokenNotFound),
        Some(name) => {
            let attr = select_first_attr(body, CSRF_SELECTOR, token_attribute(name.as_str()));
            token_from_found(Some(name), attr)
        },
    }
}

/// The token is read alike whether the page carries it in a `<meta>` tag's
/// `content` or in an `<input>` field's `value`; a page with neither element
/// gives `TokenNotFound`, and one whose element lacks that attribute gives
/// `TokenAttributeMissing`.
pub proof fn lemma_token_meta_or_input(page: Seq<char>, token: Seq<char>)
    ensures
        first_match_name(page, CSRF_SELECTOR@) == Some("meta"@) && first_match_attr(
            page,
            CSRF_SELECTOR@,
            "content"@,
        ) == Some(Some(token)) ==> csrf_token(page) == Ok::<Seq<char>, ApiError>(token),
        first_match_name(page, CSRF_SELECTOR@) == Some("input"@) && first_match_attr(
            page,
            CSRF_SELECTOR@,
            "value"@,
        ) == Some(Some(token)) ==> csrf_token(page) == Ok::<Seq<char>, ApiError>(token),
        first_match_name(page, CSRF_SELECTOR@) is None ==> csrf_token(page) == Err::<
            Seq<char>,
            ApiError,
        >(ApiError::TokenNotFound),
        first_match_name(page, CSRF_SELECTOR@) matches Some(tag) && first_match_attr(
            page,
            CSRF_SELECTOR@,
            token_attr(tag),
        ) == Some(None::<Seq<char>>) ==> csrf_token(page) == Err::<Seq<char>, ApiError>(
            ApiError::TokenAttributeMissing,
        ),
{
    reveal_strlit("meta");
    reveal_strlit("input");
    assert("input"@[0] != "meta"@[0]);
}

} // verus!
