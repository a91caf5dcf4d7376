//! The connection string of a database that is reached over the network.
//!
//! The string is a URL made of the settings: kind, user, password, host, port
//! and name of the database, each percent-encoded, and the connection
//! parameters as its query.

use vstd::prelude::*;
use crate::config::Config;
use crate::errors::{Error, ErrorKind};
use crate::settings::{pair_views, ParamsView, Settings, SettingsView};

verus! {

#[verifier::external_type_specification]
#[verifier::external_body]
pub struct ExUrlParseError(url::ParseError);

/// The text with every byte percent-encoded that the default encode set of
/// `percent_encoding` holds.
pub uninterp spec fn percent_encoded(text: Seq<char>) -> Seq<char>;

/// The URL that `url` reads from the text, written out again, or `None`
/// where the text is no URL.
pub uninterp spec fn url_parsed(text: Seq<char>) -> Option<Seq<char>>;

/// The URL that `url` reads from the text, with the parameters added to its
/// query, written out, or `None` where the text is no URL.
pub uninterp spec fn url_with_params(text: Seq<char>, params: ParamsView) -> Option<Seq<char>>;

/// The most characters that a text may have to go into a URL with parameters.
pub const TEXT_LIMIT: usize = 1_000_000;

/// The most parameters that go into a URL.
pub const PARAMS_LIMIT: usize = 100;

/// Whether a text and parameters are small enough to go into one URL: no text
/// has more than a million characters, and there are no more than a hundred
/// parameters.
pub open spec fn fits(text: Seq<char>, params: ParamsView) -> bool {
    &&& text.len() <= TEXT_LIMIT
    &&& params.len() <= PARAMS_LIMIT
    &&& forall|i: int|
        0 <= i < params.len() ==> (#[trigger] params[i]).0.len() <= TEXT_LIMIT
            && params[i].1.len() <= TEXT_LIMIT
}

/// Percent-encodes a text with `percent_encoding::percent_encode` and the
/// crate's `DEFAULT_ENCODE_SET`.
///
/// Trusted: the outcome depends on the text alone, so it is given the name
/// [`percent_encoded`].
#[verifier::external_body]
fn encode(s: &str) -> (encoded: String)
    ensures
        encoded@ == percent_encoded(s@),
{
    percent_encoding::percent_encode(s.as_bytes(), percent_encoding::DEFAULT_ENCODE_SET).to_string()
}

/// Reads a URL with `Url::parse` and writes it out with `Url::into_string`.
///
/// Trusted: the outcome depends on the text alone, so it is given the name
/// [`url_parsed`].
#[verifier::external_body]
fn parse_url(text: &str) -> (result: Result<String, url::ParseError>)
    ensures
        result matches Ok(written) ==> url_parsed(text@) == Some(written@),
        result is Err ==> url_parsed(text@) is None,
{
    match url::Url::parse(text) {
        Ok(parsed) => Ok(parsed.into_string()),
        Err(e) => Err(e),
    }
}

/// Reads a URL and adds parameters to its query with `Url::parse_with_params`,
/// and writes it out with `Url::into_string`.
///
/// Trusted: the outcome depends on the text and the parameters alone, so it is
/// given the name [`url_with_params`]. `url` keeps positions within a URL in 32
/// bits and stops the program where one does not fit. The bound that is
/// required keeps the URL below that: a character takes at most four bytes, a
/// parameter grows to at most three times its bytes, and a hundred parameters
/// of two texts of a million characters each, behind a text of a million
/// characters, stay below two and a half thousand million bytes.
#[verifier::external_body]
fn parse_url_with_params(text: &str, params: &Vec<(String, String)>) -> (result: Result<
    String,
    url::ParseError,
>)
    requires
        fits(text@, pair_views(params@)),
    ensures
        result matches Ok(written) ==> url_with_params(text@, pair_views(params@)) == Some(
            written@,
        ),
        result is Err ==> url_with_params(text@, pair_views(params@)) is None,
{
    match url::Url::parse_with_params(text, params.iter()) {
        Ok(parsed) => Ok(parsed.into_string()),
        Err(e) => Err(e),
    }
}

/// Writes out what `url` says of a text that is no URL, with its `Display` form.
///
/// Trusted, and nothing is claimed of the text that comes back.
#[verifier::external_body]
fn url_error_text(error: &url::ParseError) -> (text: String) {
    format!("{}", error)
}

/// The text of an optional setting, or the default where it is not set or empty.
pub open spec fn or_default(text: Option<Seq<char>>, default: Seq<char>) -> Seq<char> {
    match text {
        Some(text) => if text.len() == 0 {
            default
        } else {
            text
        },
        None => default,
    }
}

/// Whether a setting is set to a text that is not empty.
pub open spec fn is_given(text: Option<Seq<char>>) -> bool {
    text matches Some(text) && text.len() > 0
}

/// The URL of the database before it is read as one, or the kind of the error
/// that says why there is none.
///
/// The database must be postgres, and its user and its name must be given.
/// The host is `localhost` unless it is given, and the port `5432` unless it
/// is set.
pub open spec fn base_url(s: SettingsView) -> Result<Seq<char>, ErrorKind> {
    if s.database_type != "postgres"@ {
        Err(ErrorKind::Config)
    } else if !is_given(s.database_user) {
        Err(ErrorKind::Config)
    } else if !is_given(s.database_name) {
        Err(ErrorKind::Config)
    } else {
        let pass = match s.database_password {
            Some(pass) => ":"@ + percent_encoded(pass),
            None => Seq::empty(),
        };
        let host = percent_encoded(or_default(s.database_host, "localhost"@));
        let port = percent_encoded(
            if host.len() == 0 {
                "5432"@
            } else {
                match s.database_port {
                    Some(port) => port,
                    None => "5432"@,
                }
            },
        );
        Ok(
            s.database_type + "://"@ + percent_encoded(s.database_user.unwrap()) + pass + "@"@
                + host + ":"@ + port + "/"@ + percent_encoded(s.database_name.unwrap()),
        )
    }
}

/// The parameters with every name and value percent-encoded.
pub open spec fn encoded_params(params: ParamsView) -> ParamsView {
    Seq::new(params.len(), |i: int| (percent_encoded(params[i].0), percent_encoded(params[i].1)))
}

/// The connection string that settings make, or the kind of the error that
/// says why there is none.
///
/// Without parameters it is the URL of the database as `url` reads and writes
/// it. With parameters they are added to its query, each name and value
/// percent-encoded first, provided that all of it is small enough to go into
/// one URL.
pub open spec fn connection_text(s: SettingsView) -> Result<Seq<char>, ErrorKind> {
    match base_url(s) {
        Err(kind) => Err(kind),
        Ok(base) => {
            let params = match s.database_params {
                Some(params) => encoded_params(params),
                None => Seq::empty(),
            };
            if params.len() == 0 {
                match url_parsed(base) {
                    Some(written) => Ok(written),
                    None => Err(ErrorKind::UrlParse),
                }
            } else if !fits(base, params) {
                Err(ErrorKind::Config)
            } else {
                match url_with_params(base, params) {
                    Some(written) => Ok(written),
                    None => Err(ErrorKind::UrlParse),
                }
            }
        },
    }
}

fn given(text: Option<&String>) -> (found: Option<&String>)
    ensures
        match found {
            Some(t) => text == Some(t) && t@.len() > 0,
            None => !(text matches Some(t) && t@.len() > 0),
        },
{
    match text {
        Some(text) => if text.as_str().is_empty() {
            None
        } else {
            Some(text)
        },
        None => None,
    }
}

fn encode_all(params: &Vec<(String, String)>) -> (encoded: Vec<(String, String)>)
    ensures
        pair_views(encoded@) == encoded_params(pair_views(params@)),
{
    let mut encoded: Vec<(String, String)> = Vec::new();
    let mut k: usize = 0;
    while k < params.len()
        invariant
            k <= params@.len(),
            encoded@.len() == k,
            forall|i: int|
                0 <= i < k ==> (#[trigger] encoded@[i]).0@ == percent_encoded(params@[i].0@)
                    && encoded@[i].1@ == percent_encoded(params@[i].1@),
        decreases params@.len() - k,
    {
        let name = encode(params[k].0.as_str());
        let value = encode(params[k].1.as_str());
        encoded.push((name, value));
        k += 1;
    }
    assert(pair_views(encoded@) =~= encoded_params(pair_views(params@)));
    encoded
}

fn small_enough(text: &str, params: &Vec<(String, String)>) -> (yes: bool)
    ensures
        yes == fits(text@, pair_views(params@)),
{
    if text.unicode_len() > TEXT_LIMIT || params.len() > PARAMS_LIMIT {
        return false;
    }
    let ghost views = pair_views(params@);
    let mut k: usize = 0;
    while k < params.len()
        invariant
            k <= params@.len(),
            views == pair_views(params@),
            forall|i: int|
                0 <= i < k ==> (#[trigger] views[i]).0.len() <= TEXT_LIMIT
                    && views[i].1.len() <= TEXT_LIMIT,
        decreases params@.len() - k,
    {
        if params[k].0.as_str().unicode_len() > TEXT_LIMIT || params[k].1.as_str().unicode_len()
            > TEXT_LIMIT {
            assert(views[k as int].0 == params@[k as int].0@);
            assert(views[k as int].1 == params@[k as int].1@);
            return false;
        }
        assert(views[k as int].0 == params@[k as int].0@);
        assert(views[k as int].1 == params@[k as int].1@);
        k += 1;
    }
    true
}

fn no_url(cause: &url::ParseError) -> (error: Error)
    ensures
        error.kind_of() == ErrorKind::UrlParse,
{
    Error::UrlParse(url_error_text(cause))
}

fn base_of(settings: &Settings) -> (result: Result<String, Error>)
    ensures
        match result {
            Ok(base) => base_url(settings@) == Ok::<Seq<char>, ErrorKind>(base@),
            Err(e) => base_url(settings@) == Err::<Seq<char>, ErrorKind>(e.kind_of()),
        },
{
    let kind = settings.db_type();
    if String::from_str(kind) != String::from_str("postgres") {
        return Err(
            Error::Config(
                String::from_str("Cannot generate connect-string for database-type: ").concat(
                    kind,
                ),
            ),
        );
    }
    let pass = match settings.db_password() {
        Some(pass) => String::from_str(":").concat(encode(pass.as_str()).as_str()),
        None => String::new(),
    };
    let user = match given(settings.db_user()) {
        Some(user) => encode(user.as_str()),
        None => {
            return Err(Error::Config(String::from_str("'database_user' not specified")));
        },
    };
    let name = match given(settings.db_name()) {
        Some(name) => encode(name.as_str()),
        None => {
            return Err(Error::Config(String::from_str("`database_name` not specified")));
        },
    };
    let host = match given(settings.db_host()) {
        Some(host) => encode(host.as_str()),
        None => encode("localhost"),
    };
    let port = if host.as_str().is_empty() {
        encode("5432")
    } else {
        match settings.db_port() {
            Some(port) => encode(port.as_str()),
            None => encode("5432"),
        }
    };
    let base = String::from_str(kind).concat("://").concat(user.as_str()).concat(
        pass.as_str(),
    ).concat("@").concat(host.as_str()).concat(":").concat(port.as_str()).concat("/").concat(
        name.as_str(),
    );
    Ok(base)
}

/// The connection string that settings make.
///
/// Fails with a `Config` error where the database is not postgres, where its
/// user or its name is not given, or where the parameters are too large to go
/// into a URL, and with a `UrlParse` error where what the settings make is no
/// URL.
pub fn connect_string_of(settings: &Settings) -> (result: Result<String, Error>)
    ensures
        match result {
            Ok(text) => connection_text(settings@) == Ok::<Seq<char>, ErrorKind>(text@),
            Err(e) => connection_text(settings@) == Err::<Seq<char>, ErrorKind>(e.kind_of()),
        },
{
    let base = match base_of(settings) {
        Err(e) => {
            return Err(e);
        },
        Ok(base) => base,
    };
    let params = match settings.db_params() {
        Some(params) => encode_all(params),
        None => Vec::new(),
    };
    proof {
        if settings@.database_params is None {
            assert(pair_views(params@) =~= Seq::empty());
        }
    }
    if params.len() == 0 {
        match parse_url(base.as_str()) {
            Ok(written) => Ok(written),
            Err(e) => Err(no_url(&e)),
        }
    } else if !small_enough(base.as_str(), &params) {
        Err(Error::Config(String::from_str("The connection parameters are too large")))
    } else {
        match parse_url_with_params(base.as_str(), &params) {
            Ok(written) => Ok(written),
            Err(e) => Err(no_url(&e)),
        }
    }
}

impl Config {
    /// The connection string of the database. Not for databases kept in a file.
    ///
    /// Fails as [`connect_string_of`] does with the settings of the configuration.
    pub fn connect_string(&self) -> (result: Result<String, Error>)
        ensures
            match result {
                Ok(text) => connection_text(self@.settings) == Ok::<Seq<char>, ErrorKind>(text@),
                Err(e) => connection_text(self@.settings) == Err::<Seq<char>, ErrorKind>(
                    e.kind_of(),
                ),
            },
    {
        connect_string_of(self.settings())
    }
}

} // verus!
