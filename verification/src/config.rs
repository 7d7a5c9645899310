//! How the server is set up.
use crate::ids::{id_text, id_to_string};
use crate::urls::{parse_url, parsed_url};
use once_cell::sync::OnceCell;
use regex::RegexSet;
use vstd::prelude::*;
use vstd::string::*;

verus! {

/// The type of a cell in the `once_cell` crate that is written at most once.
#[verifier::external_type_specification]
#[verifier::external_body]
#[verifier::reject_recursive_types(T)]
pub struct ExOnceCell<T>(once_cell::sync::OnceCell<T>);

/// What a cell for a URL holds, if anything.
pub uninterp spec fn url_in(cell: OnceCell<String>) -> Option<Seq<char>>;

/// `OnceCell::new`: a cell that holds nothing.
#[verifier::external_body]
fn cell_new() -> (cell: OnceCell<String>)
    ensures
        url_in(cell) is None,
{
    OnceCell::new()
}

/// `OnceCell::get`: what the cell holds, if anything.
#[verifier::external_body]
fn cell_get(cell: &OnceCell<String>) -> (url: Option<&String>)
    ensures
        url is Some == url_in(*cell) is Some,
        url is Some ==> url->0@ == url_in(*cell)->0,
{
    cell.get()
}

/// `OnceCell::set`: an empty cell takes the value, a full one hands it back.
#[verifier::external_body]
fn cell_set(cell: &mut OnceCell<String>, url: String) -> (set: Result<(), String>)
    ensures
        url_in(*final(cell)) == match url_in(*old(cell)) {
            Some(present) => Some(present),
            None => Some(url@),
        },
        set is Ok == url_in(*old(cell)) is None,
        set is Err ==> set->Err_0@ == url@,
{
    cell.set(url)
}

/// How the server is set up.
pub struct Config {
    /// The URL under which clients and backends reach this server. It may be set
    /// after the server has started, once: by [`Config::set_host_base_url`].
    pub host_base_url: OnceCell<String>,
    /// Which backends may be proxied to.
    pub allowlist: RegexSet,
    /// Whether backends are told the name of their host as a group, which requests
    /// to send to a client then have to repeat. A URL without a host has no group.
    pub group_by_host: bool,
}

/// Why the server's own URL was not set.
#[derive(Debug, PartialEq, Eq, Structural)]
pub enum BaseUrlError {
    /// It is no absolute URL.
    Invalid,
    /// It has been set before.
    AlreadySet,
}

impl Config {
    /// The server's own URL, if it is known yet.
    pub open spec fn base_url(&self) -> Option<Seq<char>> {
        url_in(self.host_base_url)
    }

    /// A setup in which the server's own URL is not known yet.
    pub fn new(allowlist: RegexSet, group_by_host: bool) -> (config: Self)
        ensures
            config.base_url() is None,
            config.allowlist == allowlist,
            config.group_by_host == group_by_host,
    {
        Config { host_base_url: cell_new(), allowlist, group_by_host }
    }

    /// Sets the server's own URL, which can be done once.
    pub fn set_host_base_url(&mut self, url: &str) -> (set: Result<(), BaseUrlError>)
        ensures
            set == if parsed_url(url@) is None {
                Err::<(), BaseUrlError>(BaseUrlError::Invalid)
            } else if old(self).base_url() is Some {
                Err(BaseUrlError::AlreadySet)
            } else {
                Ok(())
            },
            final(self).base_url() == if set is Ok {
                Some(parsed_url(url@)->0.text)
            } else {
                old(self).base_url()
            },
            final(self).allowlist == old(self).allowlist,
            final(self).group_by_host == old(self).group_by_host,
    {
        match parse_url(url) {
            Some(url) => match cell_set(&mut self.host_base_url, url.text) {
                Ok(()) => Ok(()),
                Err(_) => Err(BaseUrlError::AlreadySet),
            },
            None => Err(BaseUrlError::Invalid),
        }
    }

    /// The server's own URL, if it is known yet.
    pub fn get_host_base_url(&self) -> (url: Option<&String>)
        ensures
            url is Some == self.base_url() is Some,
            url is Some ==> url->0@ == self.base_url()->0,
    {
        cell_get(&self.host_base_url)
    }
}

/// The callback URL of the connection `id`, where `base_url` is the server's own
/// URL.
pub open spec fn callback_url(base_url: Seq<char>, id: u128) -> Seq<char> {
    base_url + "send/"@ + id_text(id)
}

/// The callback URL of the connection `id`.
pub fn send_url(base_url: &str, id: u128) -> (url: String)
    ensures
        url@ == callback_url(base_url@, id),
        url@ == base_url@ + "send/"@ + id_text(id),
{
    base_url.to_owned().concat("send/").concat(id_to_string(id).as_str())
}

} // verus!
