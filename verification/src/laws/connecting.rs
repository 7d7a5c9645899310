//! What holds of requests to connect.
use crate::fields::{ascii_text, field_name, field_of, is_visible_ascii, FieldView};
use crate::reply::{RejectionView, Status};
use crate::router::{connect_route, send_route, Handler, Method};
use crate::urls::{
    header_url, parsed_url, requested_url, requested_urls, BackendUrlView, ConnectQueryView,
    UrlsView,
};
use vstd::prelude::*;

verus! {

/// Whether the first value of the header field `name` is `text`, in visible ASCII
/// characters, spaces and tabs.
pub open spec fn says(
    fields: Map<Seq<char>, Seq<Seq<u8>>>,
    name: Seq<char>,
    text: Seq<char>,
) -> bool {
    &&& fields.contains_key(name)
    &&& fields[name][0].len() == text.len()
    &&& forall|i: int|
        0 <= i < text.len() ==> (#[trigger] text[i]) as int == fields[name][0][i] as int
    &&& forall|i: int|
        0 <= i < text.len() ==> 32 <= #[trigger] fields[name][0][i] <= 126 || fields[name][0][i]
            == 9
}

/// Whether a client names `text`: in its query, or, where it has no such parameter, in
/// the header field `name`.
pub open spec fn names(
    param: Option<Seq<char>>,
    fields: Map<Seq<char>, Seq<Seq<u8>>>,
    name: Seq<char>,
    text: Seq<char>,
) -> bool {
    match param {
        Some(given) => given == text,
        None => says(fields, name, text),
    }
}

/// Whether a text has no capital letter of ASCII in it.
pub open spec fn is_lower_case(text: Seq<char>) -> bool {
    forall|i: int|
        0 <= i < text.len() ==> (#[trigger] text[i] as int) < 65 || text[i] as int > 90
}

/// What a request says in a header field is the first value of that field, character
/// by character. It says nothing if it has no such field, and nothing that can be
/// read if there is anything but visible ASCII characters, spaces and tabs in it.
pub proof fn law_field_says_its_first_value(fields: Map<Seq<char>, Seq<Seq<u8>>>, name: Seq<char>)
    requires
        is_lower_case(name),
    ensures
        forall|text: Seq<char>| #[trigger] says(fields, name, text) <==> field_of(fields, name)
            == FieldView::Text(text),
        field_of(fields, name) is Missing <==> !fields.contains_key(name),
        field_of(fields, name) is Opaque <==> fields.contains_key(name) && exists|i: int|
            0 <= i < fields[name][0].len() && !(32 <= #[trigger] fields[name][0][i] <= 126
                || fields[name][0][i] == 9),
{
    assert(field_name(name) =~= name);
    assert forall|text: Seq<char>| #[trigger] says(fields, name, text) implies field_of(
        fields,
        name,
    ) == FieldView::Text(text) by {
        let bytes = fields[name][0];
        assert(is_visible_ascii(bytes)) by {
            assert forall|i: int| 0 <= i < bytes.len() implies 32 <= #[trigger] bytes[i] < 127
                || bytes[i] == 9 by {
                assert(32 <= fields[name][0][i] <= 126 || fields[name][0][i] == 9);
            }
        }
        assert forall|i: int| 0 <= i < text.len() implies text[i] == ascii_text(bytes)[i] by {
            assert(text[i] as int == fields[name][0][i] as int);
            assert(ascii_text(bytes)[i] as int == bytes[i] as int);
        }
        assert(ascii_text(bytes) =~= text);
    }
    assert forall|text: Seq<char>|
        field_of(fields, name) == FieldView::Text(text) implies #[trigger] says(
        fields,
        name,
        text,
    ) by {
        let bytes = fields[name][0];
        assert(text == ascii_text(bytes));
        assert forall|i: int| 0 <= i < text.len() implies (#[trigger] text[i]) as int
            == fields[name][0][i] as int by {
            assert(32 <= bytes[i] < 127 || bytes[i] == 9);
        }
    }
}

/// The names of header fields are the same in capital and small letters.
pub proof fn law_field_names_ignore_case(
    fields: Map<Seq<char>, Seq<Seq<u8>>>,
    name: Seq<char>,
    other: Seq<char>,
)
    requires
        name.len() == other.len(),
        forall|i: int|
            0 <= i < name.len() ==> name[i] == #[trigger] other[i] || 65 <= name[i] as int <= 90
                && other[i] as int == name[i] as int + 32,
    ensures
        field_of(fields, name) == field_of(fields, other),
{
    assert forall|i: int| 0 <= i < name.len() implies field_name(name)[i] == field_name(
        other,
    )[i] by {
        assert(name[i] == other[i] || other[i] as int == name[i] as int + 32);
    }
    assert(field_name(name) =~= field_name(other));
}

/// The URL that a client names for frames, in the parameter or else in the field, is
/// the one for frames, and the one that it names for the end of the connection is the
/// one for the end. Both are granted whenever both are URLs and the allowlist finds a
/// match in both. Otherwise the client is told which is not, the one for frames
/// first.
pub proof fn law_client_gets_the_urls_it_names(
    accepted: Set<Seq<char>>,
    query: ConnectQueryView,
    fields: Map<Seq<char>, Seq<Seq<u8>>>,
    frame: Seq<char>,
    end: Seq<char>,
)
    requires
        names(query.on_frame, fields, "x-ws-proxy-on-frame"@, frame),
        names(query.on_disconnect, fields, "x-ws-proxy-on-disconnect"@, end),
    ensures
        requested_urls(accepted, query, fields) is Ok <==> parsed_url(frame) is Some && parsed_url(
            end,
        ) is Some && accepted.contains(parsed_url(frame)->0.text) && accepted.contains(
            parsed_url(end)->0.text,
        ),
        requested_urls(accepted, query, fields) matches Ok(urls) ==> parsed_url(frame) == Some(
            urls.on_frame,
        ) && parsed_url(end) == Some(urls.on_disconnect),
        requested_urls(accepted, query, fields) matches Err(rejection) ==> rejection == if parsed_url(
            frame,
        ) is None {
            RejectionView {
                status: Status::BadRequest,
                message: "unable to parse \""@ + "x-ws-proxy-on-frame"@ + "\" header as a URL"@,
            }
        } else if !accepted.contains(parsed_url(frame)->0.text) {
            RejectionView {
                status: Status::Forbidden,
                message: "access denied for URL specified by \""@ + "x-ws-proxy-on-frame"@
                    + "\" header"@,
            }
        } else if parsed_url(end) is None {
            RejectionView {
                status: Status::BadRequest,
                message: "unable to parse \""@ + "x-ws-proxy-on-disconnect"@
                    + "\" header as a URL"@,
            }
        } else {
            RejectionView {
                status: Status::Forbidden,
                message: "access denied for URL specified by \""@ + "x-ws-proxy-on-disconnect"@
                    + "\" header"@,
            }
        },
{
    lemma_names_in_lower_case();
    law_field_says_its_first_value(fields, "x-ws-proxy-on-frame"@);
    law_field_says_its_first_value(fields, "x-ws-proxy-on-disconnect"@);
}

/// A client that names the two URLs the other way round gets them the other way
/// round.
pub proof fn law_urls_are_not_mixed_up(
    accepted: Set<Seq<char>>,
    query: ConnectQueryView,
    fields: Map<Seq<char>, Seq<Seq<u8>>>,
    swapped: ConnectQueryView,
    others: Map<Seq<char>, Seq<Seq<u8>>>,
    frame: Seq<char>,
    end: Seq<char>,
)
    requires
        names(query.on_frame, fields, "x-ws-proxy-on-frame"@, frame),
        names(query.on_disconnect, fields, "x-ws-proxy-on-disconnect"@, end),
        names(swapped.on_frame, others, "x-ws-proxy-on-frame"@, end),
        names(swapped.on_disconnect, others, "x-ws-proxy-on-disconnect"@, frame),
    ensures
        requested_urls(accepted, query, fields) matches Ok(urls) ==> requested_urls(
            accepted,
            swapped,
            others,
        ) == Ok::<UrlsView, RejectionView>(
            UrlsView { on_frame: urls.on_disconnect, on_disconnect: urls.on_frame },
        ),
{
    law_client_gets_the_urls_it_names(accepted, query, fields, frame, end);
    law_client_gets_the_urls_it_names(accepted, swapped, others, end, frame);
}

/// A client that names one of the URLs neither in its query nor in a header field is
/// told which, and so is one whose header field cannot be read.
pub proof fn law_missing_urls_are_told(
    accepted: Set<Seq<char>>,
    query: ConnectQueryView,
    fields: Map<Seq<char>, Seq<Seq<u8>>>,
)
    ensures
        query.on_frame is None && !fields.contains_key("x-ws-proxy-on-frame"@) ==> requested_urls(
            accepted,
            query,
            fields,
        ) == Err::<UrlsView, RejectionView>(
            RejectionView {
                status: Status::BadRequest,
                message: "missing required header: \""@ + "x-ws-proxy-on-frame"@ + "\""@,
            },
        ),
        query.on_frame is None && fields.contains_key("x-ws-proxy-on-frame"@) && (forall|
            text: Seq<char>,
        | !#[trigger] says(fields, "x-ws-proxy-on-frame"@, text)) ==> requested_urls(
            accepted,
            query,
            fields,
        ) == Err::<UrlsView, RejectionView>(
            RejectionView {
                status: Status::BadRequest,
                message: "unable to parse \""@ + "x-ws-proxy-on-frame"@ + "\" header as a URL"@,
            },
        ),
        forall|frame: Seq<char>| #[trigger]
            names(query.on_frame, fields, "x-ws-proxy-on-frame"@, frame) && parsed_url(frame)
                is Some && accepted.contains(parsed_url(frame)->0.text) && query.on_disconnect
                is None && !fields.contains_key("x-ws-proxy-on-disconnect"@) ==> requested_urls(
                accepted,
                query,
                fields,
            ) == Err::<UrlsView, RejectionView>(
                RejectionView {
                    status: Status::BadRequest,
                    message: "missing required header: \""@ + "x-ws-proxy-on-disconnect"@ + "\""@,
                },
            ),
        forall|frame: Seq<char>| #[trigger]
            names(query.on_frame, fields, "x-ws-proxy-on-frame"@, frame) && parsed_url(frame)
                is Some && accepted.contains(parsed_url(frame)->0.text) && query.on_disconnect
                is None && fields.contains_key("x-ws-proxy-on-disconnect"@) && (forall|
                text: Seq<char>,
            | !#[trigger] says(fields, "x-ws-proxy-on-disconnect"@, text)) ==> requested_urls(
                accepted,
                query,
                fields,
            ) == Err::<UrlsView, RejectionView>(
                RejectionView {
                    status: Status::BadRequest,
                    message: "unable to parse \""@ + "x-ws-proxy-on-disconnect"@
                        + "\" header as a URL"@,
                },
            ),
{
    lemma_names_in_lower_case();
    law_field_says_its_first_value(fields, "x-ws-proxy-on-frame"@);
    law_field_says_its_first_value(fields, "x-ws-proxy-on-disconnect"@);
    let on_frame = field_of(fields, "x-ws-proxy-on-frame"@);
    let on_disconnect = field_of(fields, "x-ws-proxy-on-disconnect"@);
    if on_frame is Text {
        assert(says(fields, "x-ws-proxy-on-frame"@, on_frame->Text_0));
    }
    if on_disconnect is Text {
        assert(says(fields, "x-ws-proxy-on-disconnect"@, on_disconnect->Text_0));
    }
}

proof fn lemma_names_in_lower_case()
    ensures
        is_lower_case("x-ws-proxy-on-frame"@),
        is_lower_case("x-ws-proxy-on-disconnect"@),
{
    reveal_strlit("x-ws-proxy-on-frame");
    reveal_strlit("x-ws-proxy-on-disconnect");
}

/// What is wrong with a header field is told in the same words for every field, with
/// the field's name in quotes, and told apart by the status: a URL that is not
/// allowed is forbidden, one that is missing or none is a bad request.
pub proof fn law_rejections_name_the_field(
    accepted: Set<Seq<char>>,
    name: Seq<char>,
    text: Seq<char>,
)
    ensures
        requested_url(accepted, None, FieldView::Missing, name) == Err::<
            BackendUrlView,
            RejectionView,
        >(
            RejectionView {
                status: Status::BadRequest,
                message: "missing required header: \""@ + name + "\""@,
            },
        ),
        header_url(FieldView::Missing, name) == requested_url(
            accepted,
            None,
            FieldView::Missing,
            name,
        ),
        requested_url(accepted, None, FieldView::Opaque, name) == Err::<
            BackendUrlView,
            RejectionView,
        >(
            RejectionView {
                status: Status::BadRequest,
                message: "unable to parse \""@ + name + "\" header as a URL"@,
            },
        ),
        header_url(FieldView::Opaque, name) == requested_url(
            accepted,
            None,
            FieldView::Opaque,
            name,
        ),
        parsed_url(text) is None ==> header_url(FieldView::Text(text), name) == header_url(
            FieldView::Opaque,
            name,
        ) && requested_url(accepted, Some(text), FieldView::Missing, name) == requested_url(
            accepted,
            None,
            FieldView::Opaque,
            name,
        ),
        parsed_url(text) matches Some(url) ==> header_url(FieldView::Text(text), name) == Ok::<
            BackendUrlView,
            RejectionView,
        >(url),
        parsed_url(text) matches Some(url) ==> !accepted.contains(url.text) ==> requested_url(
            accepted,
            Some(text),
            FieldView::Missing,
            name,
        ) == Err::<BackendUrlView, RejectionView>(
            RejectionView {
                status: Status::Forbidden,
                message: "access denied for URL specified by \""@ + name + "\" header"@,
            },
        ),
{
}

/// A URL is granted under any name if and only if the client gives one there, it is a
/// URL and the allowlist finds a match in it, and it is granted as the parser writes
/// it.
pub proof fn law_url_is_granted_if_allowed(
    accepted: Set<Seq<char>>,
    param: Option<Seq<char>>,
    field: FieldView,
    name: Seq<char>,
    text: Seq<char>,
)
    requires
        param == Some(text) || param is None && field == FieldView::Text(text),
    ensures
        requested_url(accepted, param, field, name) is Ok <==> parsed_url(text) is Some
            && accepted.contains(parsed_url(text)->0.text),
        requested_url(accepted, param, field, name) matches Ok(url) ==> parsed_url(text) == Some(
            url,
        ),
        requested_url(accepted, param, field, name) matches Err(rejection) ==> rejection.status
            == if parsed_url(text) is None {
            Status::BadRequest
        } else {
            Status::Forbidden
        },
{
}

/// Clients connect with GET requests to `/connect`, and frames are sent to them with
/// POST requests to `/send/` and an identifier.
pub proof fn law_requests_are_told_apart()
    ensures
        connect_route().method == Method::Get,
        connect_route().path == "/connect"@,
        connect_route().handler == Handler::OnConnect,
        send_route().method == Method::Post,
        send_route().path == "/send/:id"@,
        send_route().handler == Handler::OnSend,
{
}

} // verus!
