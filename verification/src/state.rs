//! What the handlers share.
use crate::allowlist::accepted_by;
use crate::config::Config;
use crate::connections::{no_connections, Connections};
use crate::fields::{field_of, fields_in, FieldView};
use crate::reply::Rejection;
use crate::urls::{get_urls, parsed_url, requested_urls, urls_result, ConnectQuery, Urls};
use http::header::{HeaderMap, HeaderValue};
use vstd::prelude::*;

verus! {

/// What the handlers share.
pub struct MyState {
    pub config: Config,
    /// The open connections.
    pub sinks: Connections,
}

impl MyState {
    /// The state of a server that has just been started.
    pub fn new(config: Config) -> (state: Self)
        ensures
            state.config == config,
            state.sinks@ == no_connections(),
    {
        MyState { config, sinks: Connections::new() }
    }

    /// Answers a request to connect: with the backend URLs that the connection is to
    /// be served for, or with a rejection.
    pub fn on_connect(&self, query: &ConnectQuery, headers: &HeaderMap<HeaderValue>) -> (urls:
        Result<Urls, Rejection>)
        ensures
            urls_result(urls) == requested_urls(
                accepted_by(self.config.allowlist),
                query@,
                fields_in(*headers),
            ),
            urls is Ok ==> accepted_by(self.config.allowlist).contains(urls->Ok_0.on_frame.text@)
                && accepted_by(self.config.allowlist).contains(urls->Ok_0.on_disconnect.text@),
            urls is Ok ==> match query.on_frame {
                Some(text) => parsed_url(text@) == Some(urls->Ok_0.on_frame@),
                None => field_of(fields_in(*headers), "x-ws-proxy-on-frame"@) matches FieldView::Text(
                    text,
                ) && parsed_url(text) == Some(urls->Ok_0.on_frame@),
            },
            urls is Ok ==> match query.on_disconnect {
                Some(text) => parsed_url(text@) == Some(urls->Ok_0.on_disconnect@),
                None => field_of(fields_in(*headers), "x-ws-proxy-on-disconnect"@)
                    matches FieldView::Text(text) && parsed_url(text) == Some(
                    urls->Ok_0.on_disconnect@,
                ),
            },
    {
        get_urls(&self.config.allowlist, query, headers)
    }
}

} // verus!
