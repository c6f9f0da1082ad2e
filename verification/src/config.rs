//! The wrapper's configuration: the values read from the command line and the
//! environment, and the URL of the API built from them.

use vstd::prelude::*;

verus! {

#[verifier::external_type_specification]
#[verifier::external_body]
pub struct ExUrlParseError(url::ParseError);

/// The values given on the command line or in the environment, one field per option.
#[derive(Debug, Clone)]
pub struct CliArgs {
    pub server_bin: String,
    pub port: u16,
    pub api_url: String,
    pub server_name: String,
    pub secret_key: String,
    pub server_type: String,
    pub reconnect_secs: u64,
    pub strip_ansi: bool,
    pub buffer_size: usize,
}

/// The configuration the wrapper runs with.
#[derive(Debug, Clone)]
pub struct Config {
    pub server_bin: String,
    pub port: u16,
    pub api_url: String,
    pub server_name: String,
    pub secret_key: String,
    pub server_type: String,
    pub reconnect_secs: u64,
    pub strip_ansi: bool,
    pub buffer_size: usize,
}

/// What `url::Url::parse(base)` followed by
/// `query_pairs_mut().append_pair(name, value)` serialises to; `None` where
/// `base` does not parse as a URL.
pub uninterp spec fn url_with_query_pair(base: Seq<char>, name: Seq<char>, value: Seq<char>) -> Option<Seq<char>>;

/// Parses `base` with `url::Url::parse`, appends the pair `name=value` to its
/// query with `query_pairs_mut().append_pair` (form-urlencoded) and returns the
/// URL's serialisation (`String::from(Url)`). The result is a function of the
/// three arguments, named `url_with_query_pair`; it is `Ok` exactly when the
/// parse succeeds. Which `ParseError` comes back is not stated.
#[verifier::external_body]
fn parse_url_with_query_pair(base: &str, name: &str, value: &str) -> (r: Result<String, url::ParseError>)
    ensures
        r is Ok <==> url_with_query_pair(base@, name@, value@) is Some,
        r matches Ok(s) ==> url_with_query_pair(base@, name@, value@) == Some(s@),
{
    let mut url = url::Url::parse(base)?;
    url.query_pairs_mut().append_pair(name, value);
    Ok(String::from(url))
}

impl Config {
    /// The configuration made of the parsed command-line and environment values.
    pub fn load(args: CliArgs) -> (c: Self)
        ensures
            c.server_bin == args.server_bin,
            c.port == args.port,
            c.api_url == args.api_url,
            c.server_name == args.server_name,
            c.secret_key == args.secret_key,
            c.server_type == args.server_type,
            c.reconnect_secs == args.reconnect_secs,
            c.strip_ansi == args.strip_ansi,
            c.buffer_size == args.buffer_size,
    {
        Config {
            server_bin: args.server_bin,
            port: args.port,
            api_url: args.api_url,
            server_name: args.server_name,
            secret_key: args.secret_key,
            server_type: args.server_type,
            reconnect_secs: args.reconnect_secs,
            strip_ansi: args.strip_ansi,
            buffer_size: args.buffer_size,
        }
    }

    /// The API URL with the query pair `server_name=<server name>` appended.
    pub fn build_ws_url(&self) -> (r: Result<String, url::ParseError>)
        ensures
            r is Ok <==> url_with_query_pair(self.api_url@, "server_name"@, self.server_name@) is Some,
            r matches Ok(s) ==> url_with_query_pair(self.api_url@, "server_name"@, self.server_name@) == Some(s@),
    {
        parse_url_with_query_pair(self.api_url.as_str(), "server_name", self.server_name.as_str())
    }
}

} // verus!
