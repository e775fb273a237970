//! Logging in and out: what is sent, and what the cookies of the answer
//! make of the store.

use crate::backend::request::{
    bad_url_message, built, call, make_call, one_field, push_field, unreadable_message,
    url_joined, Body, Encoding, Expect, Method, Request, RequestView,
};
use crate::config::{Config, StoreView};
use crate::error::{failure, ErrorKind, Failure};
use crate::text::{pairs_view, Pairs};
use vstd::prelude::*;
use vstd::string::*;

verus! {

/// The line that asks for the password of a user.
pub open spec fn password_prompt(username: Seq<char>) -> Seq<char> {
    "Please provide the password for user "@ + username + ": "@
}

/// Writes the line that asks for the password of a user.
pub fn auth_prompt(username: &str) -> (r: String)
    ensures
        r@ == password_prompt(username@),
{
    let mut r = String::from_str("Please provide the password for user ");
    r.append(username);
    r.append(": ");
    r
}

/// The request that logs in: the name and the password go as a form to the
/// login path below the url, with the url as referer, and the cookies of
/// the answer are what is asked for.
pub open spec fn login_call(url: Seq<char>, username: Seq<char>, password: Seq<char>) -> Result<
    RequestView,
    (ErrorKind, Seq<char>),
> {
    match url_joined(url, "api/v2/auth/login"@) {
        Some(target) => Ok(
            RequestView {
                method: Method::Post,
                url: target,
                referer: Some(url),
                cookie: None,
                encoding: Encoding::Form,
                fields: seq![("username"@, username), ("password"@, password)],
                file: None,
                expects: Expect::Cookies,
            },
        ),
        None => Err((ErrorKind::InvalidInput, bad_url_message(url))),
    }
}

/// Makes the request that logs in.
pub fn auth_interactive(url: &str, username: String, password: String) -> (r: Result<
    Request,
    Failure,
>)
    ensures
        built(r) == login_call(url@, username@, password@),
{
    let mut fields = one_field("username", username);
    push_field(&mut fields, "password", password);
    assert(pairs_view(fields@) =~= seq![("username"@, username@), ("password"@, password@)]);
    match make_call(
        url,
        None,
        Method::Post,
        "api/v2/auth/login",
        Encoding::Form,
        fields,
        None,
        Expect::Cookies,
    ) {
        Ok(request) => Ok(
            Request {
                method: request.method,
                url: request.url,
                referer: Some(String::from_str(url)),
                cookie: request.cookie,
                encoding: request.encoding,
                fields: request.fields,
                file: request.file,
                expects: request.expects,
            },
        ),
        Err(f) => Err(f),
    }
}

/// The cookies of an answer as one text: for each cookie, in the order in
/// which they came, its name, `=`, its value and `;`.
pub open spec fn cookie_text(cookies: Pairs) -> Seq<char>
    decreases cookies.len(),
{
    if cookies.len() == 0 {
        Seq::empty()
    } else {
        cookie_text(cookies.drop_last()) + cookies.last().0 + "="@ + cookies.last().1 + ";"@
    }
}

/// Writes the cookies of an answer as the one text that is stored for the
/// session. An answer without a cookie gives none: the login has failed
/// then, whatever else the answer says.
pub fn cookie_string(cookies: &Vec<(String, String)>) -> (r: Option<String>)
    ensures
        r is Some <==> cookies@.len() > 0,
        r matches Some(token) ==> token@ == cookie_text(pairs_view(cookies@)),
{
    if cookies.len() == 0 {
        return None;
    }
    let ghost list = pairs_view(cookies@);
    let mut token = String::new();
    let mut i: usize = 0;
    while i < cookies.len()
        invariant
            i <= cookies@.len(),
            list == pairs_view(cookies@),
            token@ == cookie_text(list.take(i as int)),
        decreases cookies@.len() - i,
    {
        token.append(cookies[i].0.as_str());
        token.append("=");
        token.append(cookies[i].1.as_str());
        token.append(";");
        proof {
            let grown = list.take(i + 1);
            assert(grown.drop_last() =~= list.take(i as int));
            assert(grown.last() == list[i as int]);
        }
        i += 1;
    }
    proof {
        assert(list.take(cookies@.len() as int) =~= list);
    }
    Some(token)
}

/// The line that tells the user that the login has failed.
pub open spec fn login_failed_message() -> Seq<char> {
    "Authentication failed!"@
}

/// What the answer to the request that logs in comes to, and the store
/// after it: with at least one cookie the cookies are stored for the url;
/// without one the login has failed and the store stays as it is.
pub open spec fn login_outcome(store: StoreView, url: Seq<char>, body: Body) -> (
    Result<Seq<char>, (ErrorKind, Seq<char>)>,
    StoreView,
) {
    match body {
        Body::Cookies(cookies) => if cookies@.len() > 0 {
            (
                Ok("Authentication successful!\n"@),
                store.add(url, cookie_text(pairs_view(cookies@))),
            )
        } else {
            (Err((ErrorKind::AuthFailure, login_failed_message())), store)
        },
        _ => (Err((ErrorKind::Decode, unreadable_message())), store),
    }
}

/// Takes the answer to the request that logs in: stores the cookies for
/// the url and says what is printed.
pub fn login_report(config: &mut Config, url: String, body: Body) -> (r: Result<String, Failure>)
    ensures
        match login_outcome(old(config)@, url@, body).0 {
            Ok(line) => r matches Ok(s) && s@ == line,
            Err(e) => r matches Err(f) && f@ == e,
        },
        final(config)@ == login_outcome(old(config)@, url@, body).1,
{
    match body {
        Body::Cookies(cookies) => match cookie_string(&cookies) {
            Some(token) => {
                config.add_url(url, token);
                Ok(String::from_str("Authentication successful!\n"))
            },
            None => Err(failure(ErrorKind::AuthFailure, "Authentication failed!")),
        },
        _ => Err(failure(ErrorKind::Decode, "The answer of the service could not be read.")),
    }
}

/// The request that logs out of a url. It belongs to no session.
pub open spec fn logout_call(url: Seq<char>) -> Result<RequestView, (ErrorKind, Seq<char>)> {
    call(
        url,
        None,
        Method::Post,
        "/api/v2/auth/logout"@,
        Encoding::Plain,
        Seq::empty(),
        None,
        Expect::Nothing,
    )
}

/// Makes the request that logs out of a url.
pub fn logout(url: &str) -> (r: Result<Request, Failure>)
    ensures
        built(r) == logout_call(url@),
{
    let fields: Vec<(String, String)> = Vec::new();
    assert(pairs_view(fields@) =~= Seq::empty());
    make_call(
        url,
        None,
        Method::Post,
        "/api/v2/auth/logout",
        Encoding::Plain,
        fields,
        None,
        Expect::Nothing,
    )
}

/// What is printed when the request that logs out was answered.
pub open spec fn logout_line(url: Seq<char>) -> Seq<char> {
    "Logged out of "@ + url + ".\n"@
}

/// Writes what is printed when the request that logs out was answered.
pub fn logout_report(url: &str) -> (r: String)
    ensures
        r@ == logout_line(url@),
{
    let mut r = String::from_str("Logged out of ");
    r.append(url);
    r.append(".\n");
    r
}

} // verus!
