use vstd::prelude::*;
use crate::error::Error;

verus! {

/// http's `Uri`, carried opaque as the node address.
#[verifier::external_type_specification]
#[verifier::external_body]
pub struct ExUri(http::Uri);

/// http's `InvalidUri`, the error of its URI parser.
#[verifier::external_type_specification]
#[verifier::external_body]
pub struct ExInvalidUri(http::uri::InvalidUri);

/// The ingestion mode, fixed for the life of the process.
#[derive(Debug, Clone, Copy, PartialEq, Eq, Structural)]
pub enum EtlMode {
    /// Reward records only.
    Rewards,
    /// Reserved: nothing is extracted in this mode.
    Challenges,
    /// Reward records and every transaction body.
    Full,
    /// Reward records of listed accounts and gateways only.
    Filters,
}

/// Where the log file goes.
pub struct Log {
    pub log_dir: String,
}

/// The transaction types the configuration can name.
#[derive(Debug, Clone, Copy, PartialEq, Eq, Structural)]
pub enum TxnTypes {
    RewardsV2,
    PocRequestV1,
    PocReceiptV1,
}

/// An allow-list as the configuration writes it.
pub struct Filter {
    pub accounts: Vec<String>,
    pub gateways: Vec<String>,
}

/// The validated configuration.
pub struct Settings {
    pub log: Log,
    pub node_addr: http::Uri,
    pub database_url: String,
    pub mode: EtlMode,
    pub backfill: bool,
}

/// What `str::to_lowercase` gives for a text.
pub uninterp spec fn lower_of(s: Seq<char>) -> Seq<char>;

/// Relies on `str::to_lowercase`: the lowercase form of the text, which
/// depends on its characters alone.
#[verifier::external_body]
fn lowercase(s: &str) -> (r: String)
    ensures
        r@ == lower_of(s@),
{
    s.to_lowercase()
}

/// Whether http's URI parser accepts a text.
pub uninterp spec fn uri_accepts(s: Seq<char>) -> bool;

/// Relies on http's `FromStr for Uri` (`Uri::try_from` on the bytes): it
/// succeeds exactly on the texts that are URIs, which depends on the text
/// alone.
#[verifier::external_body]
fn parse_uri(s: &str) -> (r: Result<http::Uri, http::uri::InvalidUri>)
    ensures
        r is Ok <==> uri_accepts(s@),
{
    s.parse::<http::Uri>()
}

/// The mode a lowercase name stands for.
pub open spec fn mode_named(s: Seq<char>) -> Option<EtlMode> {
    if s == seq!['r', 'e', 'w', 'a', 'r', 'd', 's'] {
        Some(EtlMode::Rewards)
    } else if s == seq!['c', 'h', 'a', 'l', 'l', 'e', 'n', 'g', 'e', 's'] {
        Some(EtlMode::Challenges)
    } else if s == seq!['f', 'u', 'l', 'l'] {
        Some(EtlMode::Full)
    } else if s == seq!['f', 'i', 'l', 't', 'e', 'r', 's'] {
        Some(EtlMode::Filters)
    } else {
        None
    }
}

/// The flag a lowercase word stands for.
pub open spec fn flag_named(s: Seq<char>) -> Option<bool> {
    if s == seq!['t', 'r', 'u', 'e'] {
        Some(true)
    } else if s == seq!['f', 'a', 'l', 's', 'e'] {
        Some(false)
    } else {
        None
    }
}

/// The mode named by an already lowercased text; an unknown name is a
/// configuration error that carries it.
pub fn mode_from_lowercase(s: &String) -> (r: Result<EtlMode, Error>)
    ensures
        mode_named(s@) matches Some(m) ==> r == Ok::<EtlMode, Error>(m),
        mode_named(s@) is None ==> (r matches Err(Error::Config(v)) && v@ == s@),
{
    let rewards = String::from_str("rewards");
    let challenges = String::from_str("challenges");
    let full = String::from_str("full");
    let filters = String::from_str("filters");
    proof {
        reveal_strlit("rewards");
        reveal_strlit("challenges");
        reveal_strlit("full");
        reveal_strlit("filters");
        assert(rewards@ =~= seq!['r', 'e', 'w', 'a', 'r', 'd', 's']);
        assert(challenges@ =~= seq!['c', 'h', 'a', 'l', 'l', 'e', 'n', 'g', 'e', 's']);
        assert(full@ =~= seq!['f', 'u', 'l', 'l']);
        assert(filters@ =~= seq!['f', 'i', 'l', 't', 'e', 'r', 's']);
    }
    if *s == rewards {
        Ok(EtlMode::Rewards)
    } else if *s == challenges {
        Ok(EtlMode::Challenges)
    } else if *s == full {
        Ok(EtlMode::Full)
    } else if *s == filters {
        Ok(EtlMode::Filters)
    } else {
        Err(Error::Config(s.clone()))
    }
}

/// The flag named by an already lowercased text; any other word is a
/// configuration error that carries it.
pub fn flag_from_lowercase(s: &String) -> (r: Result<bool, Error>)
    ensures
        flag_named(s@) matches Some(b) ==> r == Ok::<bool, Error>(b),
        flag_named(s@) is None ==> (r matches Err(Error::Config(v)) && v@ == s@),
{
    let t = String::from_str("true");
    let f = String::from_str("false");
    proof {
        reveal_strlit("true");
        reveal_strlit("false");
        assert(t@ =~= seq!['t', 'r', 'u', 'e']);
        assert(f@ =~= seq!['f', 'a', 'l', 's', 'e']);
    }
    if *s == t {
        Ok(true)
    } else if *s == f {
        Ok(false)
    } else {
        Err(Error::Config(s.clone()))
    }
}

/// Reads the ingestion mode from the configuration, ignoring case.
pub fn parse_etl_mode(s: &str) -> (r: Result<EtlMode, Error>)
    ensures
        mode_named(lower_of(s@)) matches Some(m) ==> r == Ok::<EtlMode, Error>(m),
        mode_named(lower_of(s@)) is None ==> (r matches Err(Error::Config(v)) && v@ == lower_of(
            s@,
        )),
{
    let lower = lowercase(s);
    mode_from_lowercase(&lower)
}

/// Reads the backfill flag from the configuration, ignoring case.
pub fn parse_backfill(s: &str) -> (r: Result<bool, Error>)
    ensures
        flag_named(lower_of(s@)) matches Some(b) ==> r == Ok::<bool, Error>(b),
        flag_named(lower_of(s@)) is None ==> (r matches Err(Error::Config(v)) && v@ == lower_of(
            s@,
        )),
{
    let lower = lowercase(s);
    flag_from_lowercase(&lower)
}

/// Reads the node address from the configuration; text that is not a URI
/// is a configuration error that carries it.
pub fn parse_node_addr(s: &str) -> (r: Result<http::Uri, Error>)
    ensures
        r is Ok <==> uri_accepts(s@),
        r matches Err(Error::Config(v)) ==> v@ == s@,
        r matches Err(e) ==> e is Config,
{
    match parse_uri(s) {
        Ok(u) => Ok(u),
        Err(_) => Err(Error::Config(s.to_string())),
    }
}

impl Settings {
    /// Validates the configuration's raw values.
    pub fn from_values(
        log_dir: String,
        node_addr: &str,
        database_url: String,
        mode: &str,
        backfill: &str,
    ) -> (r: Result<Settings, Error>)
        ensures
            r is Ok <==> uri_accepts(node_addr@) && mode_named(lower_of(mode@)) is Some
                && flag_named(lower_of(backfill@)) is Some,
            r matches Ok(s) ==> s.log.log_dir == log_dir && s.database_url == database_url
                && Some(s.mode) == mode_named(lower_of(mode@)) && Some(s.backfill) == flag_named(
                lower_of(backfill@),
            ),
            r matches Err(e) ==> e is Config,
    {
        let node_addr = match parse_node_addr(node_addr) {
            Ok(u) => u,
            Err(e) => return Err(e),
        };
        let mode = match parse_etl_mode(mode) {
            Ok(m) => m,
            Err(e) => return Err(e),
        };
        let backfill = match parse_backfill(backfill) {
            Ok(b) => b,
            Err(e) => return Err(e),
        };
        Ok(Settings { log: Log { log_dir }, node_addr, database_url, mode, backfill })
    }
}

} // verus!
