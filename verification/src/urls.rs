//! The backend URLs that a client asks for.
use crate::allowlist::accepted_by;
use crate::fields::{field_of, fields_in, get_field, Field, FieldView};
use crate::reply::{rejection, Rejection, RejectionView, Status};
use crate::text::{as_deref, text_of};
use http::header::{HeaderMap, HeaderValue};
use regex::RegexSet;
use url::Url;
use vstd::prelude::*;
use vstd::string::*;

verus! {

/// The header field for the URL that frames are posted to.
pub const ON_FRAME: &'static str = "x-ws-proxy-on-frame";

/// The header field for the URL that the end of a connection is posted to.
pub const ON_DISCONNECT: &'static str = "x-ws-proxy-on-disconnect";

/// An absolute URL.
pub struct BackendUrl {
    /// The URL as the parser writes it.
    pub text: String,
    /// The host name in it, if it has one.
    pub host: Option<String>,
}

/// An absolute URL as contracts speak of it.
pub struct BackendUrlView {
    pub text: Seq<char>,
    pub host: Option<Seq<char>>,
}

impl View for BackendUrl {
    type V = BackendUrlView;

    open spec fn view(&self) -> BackendUrlView {
        BackendUrlView { text: self.text@, host: text_of(self.host) }
    }
}

/// Why a text is not an absolute URL.
#[verifier::external_type_specification]
#[verifier::external_body]
pub struct ExParseError(url::ParseError);

/// The URL that `Url::parse` makes of `text`, or `None` where it is no absolute URL.
pub uninterp spec fn parsed_url(text: Seq<char>) -> Option<BackendUrlView>;

/// `Url::parse`: the URL in its serialised form, with what `Url::host_str` says of
/// its host. Both are functions of `text`, which [`parsed_url`] names.
#[verifier::external_body]
fn url_parse(text: &str) -> (url: Result<BackendUrl, url::ParseError>)
    ensures
        url is Ok == parsed_url(text@) is Some,
        url is Ok ==> url->Ok_0@ == parsed_url(text@)->0,
{
    let url = Url::parse(text)?;
    let host = url.host_str().map(str::to_owned);
    Ok(BackendUrl { text: url.into(), host })
}

/// The absolute URL that `text` stands for.
pub fn parse_url(text: &str) -> (url: Option<BackendUrl>)
    ensures
        url is Some == parsed_url(text@) is Some,
        url is Some ==> url->0@ == parsed_url(text@)->0,
{
    match url_parse(text) {
        Ok(url) => Some(url),
        Err(_) => None,
    }
}

/// What comes of looking for a URL, as contracts speak of it.
pub open spec fn url_result(url: Result<BackendUrl, Rejection>) -> Result<
    BackendUrlView,
    RejectionView,
> {
    match url {
        Ok(url) => Ok(url@),
        Err(rejection) => Err(rejection@),
    }
}

/// The answer where a client names something that is no URL.
pub open spec fn not_a_url(name: Seq<char>) -> RejectionView {
    rejection(Status::BadRequest, "unable to parse \""@ + name + "\" header as a URL"@)
}

/// The answer where a request lacks the header field `name`.
pub open spec fn missing_field(name: Seq<char>) -> RejectionView {
    rejection(Status::BadRequest, "missing required header: \""@ + name + "\""@)
}

/// The answer where a client names a URL that the allowlist does not allow.
pub open spec fn not_allowed(name: Seq<char>) -> RejectionView {
    rejection(
        Status::Forbidden,
        "access denied for URL specified by \""@ + name + "\" header"@,
    )
}

/// The answer where a client names something that is no URL.
pub fn parse_error(name: &str) -> (error: Rejection)
    ensures
        error@ == not_a_url(name@),
{
    Rejection {
        status: Status::BadRequest,
        message: "unable to parse \"".to_owned().concat(name).concat("\" header as a URL"),
    }
}

/// The answer where a request lacks the header field `name`.
pub fn missing_error(name: &str) -> (error: Rejection)
    ensures
        error@ == missing_field(name@),
{
    Rejection {
        status: Status::BadRequest,
        message: "missing required header: \"".to_owned().concat(name).concat("\""),
    }
}

/// The answer where a client names a URL that the allowlist does not allow.
pub fn access_denied(name: &str) -> (error: Rejection)
    ensures
        error@ == not_allowed(name@),
{
    Rejection {
        status: Status::Forbidden,
        message: "access denied for URL specified by \"".to_owned().concat(name).concat(
            "\" header",
        ),
    }
}

/// The URL that was parsed, or the answer where there is none.
pub open spec fn parsed_or_error(url: Option<BackendUrlView>, name: Seq<char>) -> Result<
    BackendUrlView,
    RejectionView,
> {
    match url {
        Some(url) => Ok(url),
        None => Err(not_a_url(name)),
    }
}

/// The URL that was parsed, or the answer where there is none.
pub fn url_or_error(url: Option<BackendUrl>, name: &str) -> (result: Result<BackendUrl, Rejection>)
    ensures
        url_result(result) == parsed_or_error(
            match url {
                Some(url) => Some(url@),
                None => None,
            },
            name@,
        ),
{
    match url {
        Some(url) => Ok(url),
        None => Err(parse_error(name)),
    }
}

/// The text of the header field `name`, or the answer where it has none.
pub fn field_text(field: Field, name: &str) -> (text: Result<String, Rejection>)
    ensures
        match field@ {
            FieldView::Missing => text is Err && text->Err_0@ == missing_field(name@),
            FieldView::Opaque => text is Err && text->Err_0@ == not_a_url(name@),
            FieldView::Text(value) => text is Ok && text->Ok_0@ == value,
        },
{
    match field {
        Field::Missing => Err(missing_error(name)),
        Field::Opaque => Err(parse_error(name)),
        Field::Text(text) => Ok(text),
    }
}

/// The URL in the header field `name`, or the answer where there is none.
pub open spec fn header_url(field: FieldView, name: Seq<char>) -> Result<
    BackendUrlView,
    RejectionView,
> {
    match field {
        FieldView::Missing => Err(missing_field(name)),
        FieldView::Opaque => Err(not_a_url(name)),
        FieldView::Text(text) => parsed_or_error(parsed_url(text), name),
    }
}

/// The URL in the header field `name`, or the answer where there is none.
pub fn get_header_url(headers: &HeaderMap<HeaderValue>, name: &str) -> (url: Result<
    BackendUrl,
    Rejection,
>)
    ensures
        url_result(url) == header_url(field_of(fields_in(*headers), name@), name@),
{
    match field_text(get_field(headers, name), name) {
        Ok(text) => url_or_error(parse_url(text.as_str()), name),
        Err(rejection) => Err(rejection),
    }
}

/// The URL if it may be proxied to, or the answer if it may not.
pub fn url_if_allowed(url: BackendUrl, allowed: bool, name: &str) -> (result: Result<
    BackendUrl,
    Rejection,
>)
    ensures
        url_result(result) == if allowed {
            Ok::<BackendUrlView, RejectionView>(url@)
        } else {
            Err(not_allowed(name@))
        },
{
    if allowed {
        Ok(url)
    } else {
        Err(access_denied(name))
    }
}

/// The URL that a client asks for under `name`, where the allowlist finds a match
/// in the texts of `accepted`. A query parameter goes before the header field.
pub open spec fn requested_url(
    accepted: Set<Seq<char>>,
    param: Option<Seq<char>>,
    field: FieldView,
    name: Seq<char>,
) -> Result<BackendUrlView, RejectionView> {
    let url = match param {
        Some(text) => parsed_or_error(parsed_url(text), name),
        None => header_url(field, name),
    };
    match url {
        Ok(url) => if accepted.contains(url.text) {
            Ok(url)
        } else {
            Err(not_allowed(name))
        },
        Err(rejection) => Err(rejection),
    }
}

/// The URL that a client asks for under `name`, or the answer where there is none
/// that may be proxied to.
pub fn get_url(
    allowlist: &RegexSet,
    param: Option<&str>,
    headers: &HeaderMap<HeaderValue>,
    name: &str,
) -> (url: Result<BackendUrl, Rejection>)
    ensures
        url_result(url) == requested_url(
            accepted_by(*allowlist),
            match param {
                Some(text) => Some(text@),
                None => None,
            },
            field_of(fields_in(*headers), name@),
            name@,
        ),
{
    let url = match param {
        Some(text) => url_or_error(parse_url(text), name),
        None => get_header_url(headers, name),
    };
    match url {
        Ok(url) => {
            let allowed = allowlist.is_match(url.text.as_str());
            url_if_allowed(url, allowed, name)
        },
        Err(rejection) => Err(rejection),
    }
}

/// The query of a request to connect.
pub struct ConnectQuery {
    /// The parameter `f`.
    pub on_frame: Option<String>,
    /// The parameter `d`.
    pub on_disconnect: Option<String>,
}

/// The query of a request to connect, as contracts speak of it.
pub struct ConnectQueryView {
    pub on_frame: Option<Seq<char>>,
    pub on_disconnect: Option<Seq<char>>,
}

impl View for ConnectQuery {
    type V = ConnectQueryView;

    open spec fn view(&self) -> ConnectQueryView {
        ConnectQueryView {
            on_frame: text_of(self.on_frame),
            on_disconnect: text_of(self.on_disconnect),
        }
    }
}

/// The backend URLs of a connection.
pub struct Urls {
    /// Where frames are posted to.
    pub on_frame: BackendUrl,
    /// Where the end of the connection is posted to.
    pub on_disconnect: BackendUrl,
}

/// The backend URLs of a connection, as contracts speak of them.
pub struct UrlsView {
    pub on_frame: BackendUrlView,
    pub on_disconnect: BackendUrlView,
}

impl View for Urls {
    type V = UrlsView;

    open spec fn view(&self) -> UrlsView {
        UrlsView { on_frame: self.on_frame@, on_disconnect: self.on_disconnect@ }
    }
}

/// What comes of looking for a connection's URLs, as contracts speak of it.
pub open spec fn urls_result(urls: Result<Urls, Rejection>) -> Result<UrlsView, RejectionView> {
    match urls {
        Ok(urls) => Ok(urls@),
        Err(rejection) => Err(rejection@),
    }
}

/// The URLs that a client asks for. Where neither can be had, the answer is about
/// the one for frames.
pub open spec fn requested_urls(
    accepted: Set<Seq<char>>,
    query: ConnectQueryView,
    fields: Map<Seq<char>, Seq<Seq<u8>>>,
) -> Result<UrlsView, RejectionView> {
    let on_frame = requested_url(
        accepted,
        query.on_frame,
        field_of(fields, ON_FRAME@),
        ON_FRAME@,
    );
    let on_disconnect = requested_url(
        accepted,
        query.on_disconnect,
        field_of(fields, ON_DISCONNECT@),
        ON_DISCONNECT@,
    );
    match (on_frame, on_disconnect) {
        (Ok(on_frame), Ok(on_disconnect)) => Ok(UrlsView { on_frame, on_disconnect }),
        (Err(rejection), _) => Err(rejection),
        (_, Err(rejection)) => Err(rejection),
    }
}

/// The URLs that a client asks for, or the answer where one of them is missing or
/// may not be proxied to.
pub fn get_urls(
    allowlist: &RegexSet,
    query: &ConnectQuery,
    headers: &HeaderMap<HeaderValue>,
) -> (urls: Result<Urls, Rejection>)
    ensures
        urls_result(urls) == requested_urls(accepted_by(*allowlist), query@, fields_in(*headers)),
        urls is Ok ==> accepted_by(*allowlist).contains(urls->Ok_0.on_frame.text@)
            && accepted_by(*allowlist).contains(urls->Ok_0.on_disconnect.text@),
        urls is Ok ==> match query.on_frame {
            Some(text) => parsed_url(text@) == Some(urls->Ok_0.on_frame@),
            None => field_of(fields_in(*headers), "x-ws-proxy-on-frame"@) matches FieldView::Text(
                text,
            ) && parsed_url(text) == Some(urls->Ok_0.on_frame@),
        },
        urls is Ok ==> match query.on_disconnect {
            Some(text) => parsed_url(text@) == Some(urls->Ok_0.on_disconnect@),
            None => field_of(fields_in(*headers), "x-ws-proxy-on-disconnect"@)
                matches FieldView::Text(text) && parsed_url(text) == Some(
                urls->Ok_0.on_disconnect@,
            ),
        },
{
    match get_url(allowlist, as_deref(&query.on_frame), headers, ON_FRAME) {
        Ok(on_frame) => match get_url(
            allowlist,
            as_deref(&query.on_disconnect),
            headers,
            ON_DISCONNECT,
        ) {
            Ok(on_disconnect) => Ok(Urls { on_frame, on_disconnect }),
            Err(rejection) => Err(rejection),
        },
        Err(rejection) => Err(rejection),
    }
}

} // verus!
