//! Parsed web addresses. Parsing is done by the `url` crate; the library
//! keeps what its logic reads of a parsed address: the serialization and
//! the host.

use vstd::prelude::*;

verus! {

/// What `url::Url::parse` gives for `input`: on success the serialization
/// (`Url::as_str`) and the host (`Url::host_str`) of the parsed address, on
/// failure the text of the `url::ParseError`.
pub uninterp spec fn url_parse(input: Seq<char>) -> Result<(Seq<char>, Option<Seq<char>>), Seq<char>>;

/// The view of an optional text.
pub open spec fn opt_text(o: Option<String>) -> Option<Seq<char>> {
    match o {
        Some(s) => Some(s@),
        None => None,
    }
}

/// An absolute web address, as produced by the `url` crate's parser.
#[derive(Debug, PartialEq, Eq)]
pub struct WebUrl {
    text: String,
    host: Option<String>,
}

impl View for WebUrl {
    type V = (Seq<char>, Option<Seq<char>>);

    closed spec fn view(&self) -> (Seq<char>, Option<Seq<char>>) {
        (self.text@, opt_text(self.host))
    }
}

/// `url::Url::parse`, read back through `Url::as_str` and `Url::host_str`;
/// a failure is given as the text of the error. The contract says that the
/// outcome is [`url_parse`] of the input; the parser itself is not described.
#[verifier::external_body]
fn url_crate_parse(input: &str) -> (r: Result<WebUrl, String>)
    ensures
        match r {
            Ok(u) => url_parse(input@) == Ok::<(Seq<char>, Option<Seq<char>>), Seq<char>>(u@),
            Err(e) => url_parse(input@) == Err::<(Seq<char>, Option<Seq<char>>), Seq<char>>(e@),
        },
{
    match url::Url::parse(input) {
        Ok(u) => Ok(WebUrl { text: u.as_str().to_string(), host: u.host_str().map(|h| h.to_string()) }),
        Err(e) => Err(e.to_string()),
    }
}

fn clone_opt_text(o: &Option<String>) -> (r: Option<String>)
    ensures
        opt_text(r) == opt_text(*o),
{
    match o {
        Some(s) => Some(s.clone()),
        None => None,
    }
}

impl WebUrl {
    /// Parses an absolute address.
    pub fn parse(input: &str) -> (r: Result<WebUrl, String>)
        ensures
            match r {
                Ok(u) => url_parse(input@) == Ok::<(Seq<char>, Option<Seq<char>>), Seq<char>>(u@),
                Err(e) => url_parse(input@) == Err::<(Seq<char>, Option<Seq<char>>), Seq<char>>(e@),
            },
    {
        url_crate_parse(input)
    }

    /// The serialization of the address.
    pub fn as_str(&self) -> (r: &str)
        ensures
            r@ == self@.0,
    {
        self.text.as_str()
    }

    /// The host of the address, if it has one.
    pub fn host_str(&self) -> (r: Option<&str>)
        ensures
            match r {
                Some(h) => self@.1 == Some(h@),
                None => self@.1 is None,
            },
    {
        match &self.host {
            Some(h) => Some(h.as_str()),
            None => None,
        }
    }
}

impl Clone for WebUrl {
    fn clone(&self) -> (r: WebUrl)
        ensures
            r@ == self@,
    {
        WebUrl { text: self.text.clone(), host: clone_opt_text(&self.host) }
    }
}

} // verus!
