//! Configuration: the authored code -> URL mapping and the service
//! settings, built from the two configuration texts.

use crate::errors::Error;
use crate::mapping::{pairs_map, unique_codes};
use crate::source::{all_targets_ok, blank, first_blank_target, parse_links_text, yaml_links_of};
use vstd::prelude::*;

verus! {

/// The authored mapping of codes to target URLs, as validated pairs.
pub struct Links {
    /// The (code, url) pairs, no two sharing a code.
    pub links: Vec<(String, String)>,
}

impl Links {
    /// The finite map the pairs denote.
    pub open spec fn map_view(self) -> Map<Seq<char>, Seq<char>> {
        pairs_map(self.links@)
    }

    /// No two pairs share a code.
    pub open spec fn wf(self) -> bool {
        unique_codes(self.links@)
    }
}

/// Service settings.
#[derive(Clone, Debug)]
pub struct ServiceConfig {
    /// The address (host:port) to bind the HTTP server to.
    pub address: String,
    /// HTTP path of the reload webhook endpoint.
    pub webhook_path: String,
    /// Most admitted reload webhook requests per minute per identity.
    pub rate_limit_per_minute: u32,
    /// Most admitted reload webhook requests per day per identity.
    pub rate_limit_per_day: u32,
}

/// The address used when the service settings name none.
pub fn default_address() -> (r: String)
    ensures
        r@ == "0.0.0.0:8080"@,
{
    "0.0.0.0:8080".to_owned()
}

/// The webhook path used when the service settings name none.
pub fn default_webhook_path() -> (r: String)
    ensures
        r@ == "/git-webhook"@,
{
    "/git-webhook".to_owned()
}

/// The per-minute admission budget used when the service settings name none.
pub fn default_rate_limit_minute() -> (r: u32)
    ensures
        r == 1,
{
    1
}

/// The per-day admission budget used when the service settings name none.
pub fn default_rate_limit_day() -> (r: u32)
    ensures
        r == 100,
{
    100
}

/// The service overrides that the settings text denotes — address, webhook
/// path, per-minute and per-day budgets, each absent where the text names
/// none — or `None` where the text is not well formed; a function of the
/// text alone.
pub uninterp spec fn service_toml_of(s: Seq<char>) -> Option<
    (Option<Seq<char>>, Option<Seq<char>>, Option<i64>, Option<i64>),
>;

/// The view of an executable overrides tuple.
pub open spec fn overrides_view(t: (Option<String>, Option<String>, Option<i64>, Option<i64>)) -> (
    Option<Seq<char>>,
    Option<Seq<char>>,
    Option<i64>,
    Option<i64>,
) {
    (
        match t.0 {
            Some(a) => Some(a@),
            None => None,
        },
        match t.1 {
            Some(p) => Some(p@),
            None => None,
        },
        t.2,
        t.3,
    )
}

/// Both rate overrides, where present, fit in a `u32`.
pub open spec fn rates_in_range(
    t: (Option<Seq<char>>, Option<Seq<char>>, Option<i64>, Option<i64>),
) -> bool {
    &&& (t.2 matches Some(n) ==> 0 <= n <= u32::MAX)
    &&& (t.3 matches Some(n) ==> 0 <= n <= u32::MAX)
}

/// The service settings that a set of overrides and the defaults yield.
pub open spec fn merged_service(
    t: (Option<Seq<char>>, Option<Seq<char>>, Option<i64>, Option<i64>),
    sc: ServiceConfig,
) -> bool {
    &&& sc.address@ == (match t.0 {
        Some(a) => a,
        None => "0.0.0.0:8080"@,
    })
    &&& sc.webhook_path@ == (match t.1 {
        Some(p) => p,
        None => "/git-webhook"@,
    })
    &&& sc.rate_limit_per_minute == (match t.2 {
        Some(n) => n as u32,
        None => 1u32,
    })
    &&& sc.rate_limit_per_day == (match t.3 {
        Some(n) => n as u32,
        None => 100u32,
    })
}

/// The overrides the settings text hands the merge: none at all where no
/// settings text exists.
pub open spec fn effective_overrides(service_text: Option<&str>) -> Option<
    (Option<Seq<char>>, Option<Seq<char>>, Option<i64>, Option<i64>),
> {
    match service_text {
        Some(st) => service_toml_of(st@),
        None => Some((None, None, None, None)),
    }
}

/// Parse the service settings text into its overrides.
///
/// Relies on `toml`'s parser (`str::parse::<toml::Table>`) together with
/// `toml::Table::get`, `toml::Value::get`, `as_str` and `as_integer`: the
/// parsed document depends on the text alone; `address`, `webhook.path`,
/// `webhook.rate_limit_per_minute` and `webhook.rate_limit_per_day` are
/// read where present and of the matching type, and are absent otherwise.
#[verifier::external_body]
fn parse_service_text(s: &str) -> (r: Option<
    (Option<String>, Option<String>, Option<i64>, Option<i64>),
>)
    ensures
        r is None <==> service_toml_of(s@) is None,
        r matches Some(t) ==> service_toml_of(s@) == Some(overrides_view(t)),
{
    let v: toml::Table = match s.parse::<toml::Table>() {
        Ok(v) => v,
        Err(_) => return None,
    };
    let address = v.get("address").and_then(|x| x.as_str()).map(|x| x.to_owned());
    let webhook = v.get("webhook");
    let path = webhook.and_then(|x| x.get("path")).and_then(|x| x.as_str()).map(|x| x.to_owned());
    let per_minute = webhook.and_then(|x| x.get("rate_limit_per_minute")).and_then(
        |x| x.as_integer(),
    );
    let per_day = webhook.and_then(|x| x.get("rate_limit_per_day")).and_then(|x| x.as_integer());
    Some((address, path, per_minute, per_day))
}

/// Overall application configuration.
pub struct Config {
    /// The validated mapping of codes to target URLs.
    pub links: Links,
    /// Service settings.
    pub service: ServiceConfig,
}

impl Config {
    /// Build the configuration from the mapping text and the optional
    /// service settings text. The mapping must be well formed and every
    /// target URL non-blank; the settings, where given, must be well formed
    /// with rate budgets that fit in a `u32`. Nothing of an invalid mapping
    /// is kept.
    pub fn from_texts(links_text: &str, service_text: Option<&str>) -> (r: Result<Config, Error>)
        ensures
            match r {
                Ok(cfg) => {
                    &&& yaml_links_of(links_text@) == Some(cfg.links.map_view())
                    &&& cfg.links.wf()
                    &&& all_targets_ok(cfg.links.map_view())
                    &&& effective_overrides(service_text) matches Some(t) && rates_in_range(t)
                        && merged_service(t, cfg.service)
                },
                Err(e) => match e {
                    Error::YamlParse => yaml_links_of(links_text@) is None,
                    Error::Config(code) => yaml_links_of(links_text@) matches Some(m)
                        && m.contains_key(code@) && blank(m[code@]),
                    Error::TomlParse => {
                        &&& yaml_links_of(links_text@) matches Some(m) && all_targets_ok(m)
                        &&& service_text is Some
                        &&& !(effective_overrides(service_text) matches Some(t) && rates_in_range(
                            t,
                        ))
                    },
                },
            },
    {
        let pairs = match parse_links_text(links_text) {
            Some(p) => p,
            None => {
                return Err(Error::YamlParse);
            },
        };
        match first_blank_target(&pairs) {
            Some(code) => {
                proof {
                    let i = choose|i: int|
                        {
                            &&& 0 <= i < pairs@.len()
                            &&& blank(#[trigger] pairs@[i].1@)
                            &&& pairs@[i].0@ == code@
                            &&& forall|j: int| 0 <= j < i ==> !blank(#[trigger] pairs@[j].1@)
                        };
                    crate::mapping::lemma_pairs_map_index(pairs@, i);
                }
                return Err(Error::Config(code));
            },
            None => {},
        }
        proof {
            crate::source::lemma_targets_ok_iff(pairs@);
        }
        let mut service = ServiceConfig {
            address: default_address(),
            webhook_path: default_webhook_path(),
            rate_limit_per_minute: default_rate_limit_minute(),
            rate_limit_per_day: default_rate_limit_day(),
        };
        match service_text {
            None => {},
            Some(st) => {
                let t = match parse_service_text(st) {
                    Some(t) => t,
                    None => {
                        return Err(Error::TomlParse);
                    },
                };
                let (addr_o, path_o, minute_o, day_o) = t;
                match addr_o {
                    Some(a) => {
                        service.address = a;
                    },
                    None => {},
                }
                match path_o {
                    Some(p) => {
                        service.webhook_path = p;
                    },
                    None => {},
                }
                match minute_o {
                    Some(n) => {
                        if n < 0 || n > u32::MAX as i64 {
                            return Err(Error::TomlParse);
                        }
                        service.rate_limit_per_minute = n as u32;
                    },
                    None => {},
                }
                match day_o {
                    Some(n) => {
                        if n < 0 || n > u32::MAX as i64 {
                            return Err(Error::TomlParse);
                        }
                        service.rate_limit_per_day = n as u32;
                    },
                    None => {},
                }
            },
        }
        Ok(Config { links: Links { links: pairs }, service })
    }
}

} // verus!
