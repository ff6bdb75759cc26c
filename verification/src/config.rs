//! The configuration of a run: where the sources and the outputs lie, which
//! files are searched, and the URL of each named database.

use vstd::prelude::*;
use crate::text::{texts, to_uppercase, uppercase};
use crate::scan_folder::{glob_regex, is_negated, regex_is_match, regex_match, IgnoreRule};
use crate::ts::{
    driver_for, driver_for_scheme, is_driver_for_url, parse_url, parsed_scheme, serialised_url,
    url_scheme, ConfigError, QueryToTSDriver,
};

verus! {

/// The URLs of the named databases. The entries lie in a
/// `hashbrown::HashMap`, which the verifier does not look into: what the
/// map holds is known only through the functions below, each of which is
/// taken on trust.
#[verifier::external_body]
#[derive(Debug, PartialEq, Eq)]
pub struct DatabaseUrls {
    map: hashbrown::HashMap<String, String>,
}

/// The entries of the map: the names it holds, each with its URL.
pub uninterp spec fn database_urls(urls: DatabaseUrls) -> Map<Seq<char>, Seq<char>>;

/// Names without URLs.
pub open spec fn no_database_urls() -> Map<Seq<char>, Seq<char>> {
    Map::empty()
}

/// `hashbrown::HashMap::new`. Taken on trust: the new map has no entries.
#[verifier::external_body]
fn urls_new() -> (urls: DatabaseUrls)
    ensures
        database_urls(urls) == no_database_urls(),
{
    DatabaseUrls { map: hashbrown::HashMap::new() }
}

/// `hashbrown::HashMap::insert`. Taken on trust: `url` is stored under
/// `name`, in place of what was stored there, and the other entries stay as
/// they were.
#[verifier::external_body]
fn urls_insert(urls: &mut DatabaseUrls, name: String, url: String)
    ensures
        database_urls(*final(urls)) == database_urls(*old(urls)).insert(name@, url@),
{
    urls.map.insert(name, url);
}

/// `hashbrown::HashMap::get`. Taken on trust: the result is a copy of the
/// URL stored under `name`, and `None` exactly where the map has no such
/// entry.
#[verifier::external_body]
fn urls_get(urls: &DatabaseUrls, name: &str) -> (url: Option<String>)
    ensures
        match url {
            Some(found) => database_urls(*urls).contains_key(name@) && database_urls(
                *urls,
            )[name@] == found@,
            None => !database_urls(*urls).contains_key(name@),
        },
{
    urls.map.get(name).cloned()
}

/// `hashbrown::HashMap::iter`. Taken on trust: the result holds a copy of
/// every entry, each name with its URL and no name twice, and nothing that
/// is no entry. Nothing is claimed of the order, which is the one in which the map
/// happens to hold the entries.
#[verifier::external_body]
fn urls_entries(urls: &DatabaseUrls) -> (entries: Vec<(String, String)>)
    ensures
        forall|i: int|
            0 <= i < entries@.len() ==> database_urls(*urls).contains_key(
                (#[trigger] entries@[i]).0@,
            ) && database_urls(*urls)[entries@[i].0@] == entries@[i].1@,
        forall|name: Seq<char>| #[trigger]
            database_urls(*urls).contains_key(name) ==> exists|i: int|
                0 <= i < entries@.len() && (#[trigger] entries@[i]).0@ == name,
        forall|i: int, j: int|
            0 <= i < j < entries@.len() ==> (#[trigger] entries@[i]).0@
                != (#[trigger] entries@[j]).0@,
{
    urls.map.iter().map(|(name, url)| (name.clone(), url.clone())).collect()
}

impl View for DatabaseUrls {
    type V = Map<Seq<char>, Seq<char>>;

    closed spec fn view(&self) -> Map<Seq<char>, Seq<char>> {
        database_urls(*self)
    }
}

impl DatabaseUrls {
    /// No databases.
    pub fn new() -> (urls: DatabaseUrls)
        ensures
            urls@ == no_database_urls(),
    {
        urls_new()
    }

    /// Names `url` as the URL of the database `name`.
    pub fn insert(&mut self, name: &str, url: &str)
        ensures
            final(self)@ == old(self)@.insert(name@, url@),
    {
        urls_insert(self, name.to_owned(), url.to_owned());
    }

    /// The URL of the database `name`, if it has one.
    pub fn get(&self, name: &str) -> (url: Option<String>)
        ensures
            match url {
                Some(found) => self@.contains_key(name@) && self@[name@] == found@,
                None => !self@.contains_key(name@),
            },
    {
        urls_get(self, name)
    }

    /// The entries, each name once and with its URL, in the order in which
    /// the map happens to hold them.
    pub fn entries(&self) -> (entries: Vec<(String, String)>)
        ensures
            forall|i: int|
                0 <= i < entries@.len() ==> self@.contains_key((#[trigger] entries@[i]).0@)
                    && self@[entries@[i].0@] == entries@[i].1@,
            forall|name: Seq<char>| #[trigger]
                self@.contains_key(name) ==> exists|i: int|
                    0 <= i < entries@.len() && (#[trigger] entries@[i]).0@ == name,
            forall|i: int, j: int|
                0 <= i < j < entries@.len() ==> (#[trigger] entries@[i]).0@
                    != (#[trigger] entries@[j]).0@,
    {
        urls_entries(self)
    }

    /// The first URL, in the order in which the map happens to hold them,
    /// that is no absolute URL.
    fn invalid_url(&self) -> (invalid: Option<String>)
        ensures
            match invalid {
                Some(url) => self@.contains_value(url@) && parsed_scheme(url@) is None,
                None => all_urls_parse(self@),
            },
    {
        let entries = urls_entries(self);
        let mut i: usize = 0;
        while i < entries.len()
            invariant
                i <= entries.len(),
                forall|k: int| 0 <= k < i ==> parsed_scheme((#[trigger] entries@[k]).1@) is Some,
                forall|k: int|
                    0 <= k < entries@.len() ==> self@.contains_key((#[trigger] entries@[k]).0@)
                        && self@[entries@[k].0@] == entries@[k].1@,
            decreases entries.len() - i,
        {
            if url_scheme(entries[i].1.as_str()).is_none() {
                assert(self@.contains_key(entries@[i as int].0@));
                return Some(entries[i].1.clone());
            }
            i += 1;
        }
        assert forall|name: Seq<char>| #[trigger] self@.contains_key(name) implies parsed_scheme(
            self@[name],
        ) is Some by {
            let k = choose|k: int| 0 <= k < entries@.len() && (#[trigger] entries@[k]).0@ == name;
            assert(parsed_scheme(entries@[k].1@) is Some);
        }
        None
    }
}

/// Whether every URL of `urls` is an absolute URL.
pub open spec fn all_urls_parse(urls: Map<Seq<char>, Seq<char>>) -> bool {
    forall|name: Seq<char>| #[trigger] urls.contains_key(name) ==> parsed_scheme(urls[name]) is Some
}

/// The extensions that are searched where the configuration names none.
pub open spec fn default_extensions() -> Seq<Seq<char>> {
    seq!["ts"@, "tsx"@, "js"@, "jsx"@]
}

/// The ignore patterns that hold where the configuration names none.
pub open spec fn default_ignore_patterns() -> Seq<Seq<char>> {
    seq!["*.d.ts"@]
}

/// Whether the regular expression of a glob pattern compiles.
pub open spec fn pattern_compiles(pattern: Seq<char>) -> bool {
    regex_match(glob_regex(pattern), Seq::empty()) is Some
}

/// Whether `rules` are the rules of `patterns`, one for one.
pub open spec fn rules_of(rules: Seq<IgnoreRule>, patterns: Seq<Seq<char>>) -> bool {
    &&& rules.len() == patterns.len()
    &&& forall|i: int|
        0 <= i < rules.len() ==> (#[trigger] rules[i]).source@ == glob_regex(patterns[i])
            && rules[i].negated == is_negated(patterns[i])
}

/// A configuration as its file gives it: every part may be missing.
#[derive(Debug, PartialEq, Eq)]
pub struct Config {
    /// The source root, relative to the directory of the file.
    pub src: Option<String>,
    /// The output root, relative to the directory of the file.
    pub dest: Option<String>,
    pub extensions: Option<Vec<String>>,
    pub ignore_patterns: Option<Vec<String>>,
    pub databases: DatabaseUrls,
    /// The directory of the file that the configuration was read from.
    pub config_path: Option<String>,
}

/// A configuration with nothing missing.
#[derive(Debug, PartialEq, Eq)]
pub struct RuntimeConfig {
    pub src: String,
    pub dest: String,
    pub extensions: Vec<String>,
    pub ignore_regexes: Vec<IgnoreRule>,
    pub databases: DatabaseUrls,
}

impl Config {
    /// The configuration that names nothing.
    pub fn new() -> (config: Config)
        ensures
            config.src is None,
            config.dest is None,
            config.extensions is None,
            config.ignore_patterns is None,
            config.databases@ == no_database_urls(),
            config.config_path is None,
    {
        Config {
            src: None,
            dest: None,
            extensions: None,
            ignore_patterns: None,
            databases: DatabaseUrls::new(),
            config_path: None,
        }
    }

    /// The extensions that are searched under this configuration.
    pub open spec fn wanted_extensions(self) -> Seq<Seq<char>> {
        match self.extensions {
            Some(list) => texts(list@),
            None => default_extensions(),
        }
    }

    /// The ignore patterns that hold under this configuration.
    pub open spec fn wanted_ignore_patterns(self) -> Seq<Seq<char>> {
        match self.ignore_patterns {
            Some(list) => texts(list@),
            None => default_ignore_patterns(),
        }
    }

    /// Completes the configuration for a run with the source root `src` and
    /// the output root `dest`.
    ///
    /// The run searches the extensions and holds the ignore patterns that
    /// the configuration names, or `ts`, `tsx`, `js`, `jsx` and `*.d.ts`
    /// where it names none. It fails where a database URL is no absolute
    /// URL, else where the regular expression of an ignore pattern does not
    /// compile, and names the first such pattern.
    pub fn try_into(self, src: String, dest: String) -> (runtime: Result<
        RuntimeConfig,
        ConfigError,
    >)
        ensures
            match runtime {
                Ok(config) => {
                    &&& all_urls_parse(self.databases@)
                    &&& forall|i: int|
                        0 <= i < self.wanted_ignore_patterns().len() ==> pattern_compiles(
                            #[trigger] self.wanted_ignore_patterns()[i],
                        )
                    &&& config.src@ == src@
                    &&& config.dest@ == dest@
                    &&& texts(config.extensions@) == self.wanted_extensions()
                    &&& rules_of(config.ignore_regexes@, self.wanted_ignore_patterns())
                    &&& config.databases@ == self.databases@
                },
                Err(ConfigError::InvalidUrl { url }) => {
                    &&& self.databases@.contains_value(url@)
                    &&& parsed_scheme(url@) is None
                },
                Err(ConfigError::InvalidIgnorePattern { pattern }) => {
                    &&& all_urls_parse(self.databases@)
                    &&& exists|i: int|
                        0 <= i < self.wanted_ignore_patterns().len()
                            && #[trigger] self.wanted_ignore_patterns()[i] == pattern@
                            && !pattern_compiles(pattern@) && forall|k: int|
                            0 <= k < i ==> pattern_compiles(
                                #[trigger] self.wanted_ignore_patterns()[k],
                            )
                },
                Err(_) => false,
            },
    {
        match self.databases.invalid_url() {
            Some(url) => {
                return Err(ConfigError::InvalidUrl { url });
            },
            None => {},
        }
        let ghost wanted_extensions = self.wanted_extensions();
        let ghost wanted_patterns = self.wanted_ignore_patterns();
        let extensions: Vec<String> = match self.extensions {
            Some(list) => list,
            None => {
                let mut list: Vec<String> = Vec::new();
                list.push("ts".to_owned());
                list.push("tsx".to_owned());
                list.push("js".to_owned());
                list.push("jsx".to_owned());
                assert(texts(list@) =~= default_extensions());
                list
            },
        };
        let patterns: Vec<String> = match self.ignore_patterns {
            Some(list) => list,
            None => {
                let mut list: Vec<String> = Vec::new();
                list.push("*.d.ts".to_owned());
                assert(texts(list@) =~= default_ignore_patterns());
                list
            },
        };
        let mut ignore_regexes: Vec<IgnoreRule> = Vec::new();
        let mut i: usize = 0;
        while i < patterns.len()
            invariant
                i <= patterns.len(),
                texts(patterns@) == wanted_patterns,
                wanted_patterns == self.wanted_ignore_patterns(),
                all_urls_parse(self.databases@),
                rules_of(ignore_regexes@, wanted_patterns.take(i as int)),
                forall|k: int| 0 <= k < i ==> pattern_compiles(#[trigger] wanted_patterns[k]),
            decreases patterns.len() - i,
        {
            assert(texts(patterns@)[i as int] == patterns@[i as int]@);
            let rule = IgnoreRule::new(patterns[i].as_str());
            proof {
                reveal_strlit("");
                assert(""@ =~= Seq::<char>::empty());
            }
            if regex_is_match(rule.source.as_str(), "").is_none() {
                assert(self.wanted_ignore_patterns()[i as int] == patterns@[i as int]@);
                assert(!pattern_compiles(patterns@[i as int]@));
                return Err(ConfigError::InvalidIgnorePattern { pattern: patterns[i].clone() });
            }
            ignore_regexes.push(rule);
            i += 1;
        }
        assert(wanted_patterns.take(i as int) =~= wanted_patterns);
        Ok(RuntimeConfig { src, dest, extensions, ignore_regexes, databases: self.databases })
    }
}

/// The database that one query asks for: the name that the query gives,
/// and what the environment holds under `env_var_name` of that name.
#[derive(Debug, Clone, PartialEq, Eq)]
pub struct Target {
    pub name: Option<String>,
    pub env_url: Option<String>,
}

impl Target {
    /// The name that the query gives, as text.
    pub open spec fn named(self) -> Option<Seq<char>> {
        match self.name {
            Some(name) => Some(name@),
            None => None,
        }
    }

    /// What the environment holds for the target, as text.
    pub open spec fn held(self) -> Option<Seq<char>> {
        match self.env_url {
            Some(url) => Some(url@),
            None => None,
        }
    }
}

/// What a target resolved to: the name of the database, its URL as `url`
/// writes it out after parsing it, and the driver that serves the URL.
#[derive(Debug, Clone, PartialEq, Eq)]
pub struct ResolvedTarget {
    pub database: String,
    pub url: String,
    pub driver: QueryToTSDriver,
}

/// The database that a query is described against where it names `name`:
/// `default` where it names none.
pub open spec fn database_name(name: Option<Seq<char>>) -> Seq<char> {
    match name {
        Some(named) => named,
        None => "default"@,
    }
}

/// The environment variable that holds the URL of a database that the
/// configuration does not name: `DATABASE_URL` for `default`, else the name
/// in upper case before `_DATABASE_URL`.
pub open spec fn env_var_of(database: Seq<char>) -> Seq<char> {
    if database == "default"@ {
        "DATABASE_URL"@
    } else {
        uppercase(database) + "_DATABASE_URL"@
    }
}

/// The name of the environment variable that holds the URL of the database
/// that a query names, where the configuration does not hold it.
pub fn env_var_name(name: Option<&str>) -> (variable: String)
    ensures
        variable@ == env_var_of(
            database_name(
                match name {
                    Some(named) => Some(named@),
                    None => None,
                },
            ),
        ),
{
    let default_name = "default".to_owned();
    let database = match name {
        Some(named) => named.to_owned(),
        None => "default".to_owned(),
    };
    if database != default_name {
        let mut variable = to_uppercase(database.as_str());
        variable.append("_DATABASE_URL");
        variable
    } else {
        "DATABASE_URL".to_owned()
    }
}

impl RuntimeConfig {
    /// The URL of a database: the one that the configuration names, else
    /// the one that the environment holds for it.
    pub open spec fn url_of(self, database: Seq<char>, env_url: Option<Seq<char>>) -> Option<
        Seq<char>,
    > {
        if self.databases@.contains_key(database) {
            Some(self.databases@[database])
        } else {
            env_url
        }
    }

    /// Whether `resolved` is what resolving a database gives, where the
    /// query names `name` and the environment holds `env_url` for it: the
    /// name of the database, its URL as `url` writes it out after parsing
    /// it, and the driver that serves the URL, or
    /// the error that says that the database has no URL, that its URL is no
    /// absolute URL, or that no driver serves the scheme of its URL.
    pub open spec fn is_resolution(
        self,
        resolved: Result<(String, String, QueryToTSDriver), ConfigError>,
        name: Option<Seq<char>>,
        env_url: Option<Seq<char>>,
    ) -> bool {
        let database = database_name(name);
        match self.url_of(database, env_url) {
            None => resolved matches Err(ConfigError::DatabaseNotFound { database: named })
                && named@ == database,
            Some(url) => match resolved {
                Ok((named, found, driver)) => {
                    &&& named@ == database
                    &&& serialised_url(url) == Some(found@)
                    &&& is_driver_for_url(Ok(driver), url)
                },
                Err(error) => is_driver_for_url(Err(error), url),
            },
        }
    }

    /// Whether a database resolves, where the query names `name` and the
    /// environment holds `env_url` for it: it has a URL, the URL is an
    /// absolute URL, and a driver serves its scheme.
    pub open spec fn resolvable(self, name: Option<Seq<char>>, env_url: Option<Seq<char>>) -> bool {
        match self.url_of(database_name(name), env_url) {
            None => false,
            Some(url) => match parsed_scheme(url) {
                None => false,
                Some(scheme) => driver_for_scheme(scheme) is Some,
            },
        }
    }

    /// Whether every target of `targets` resolves.
    pub open spec fn all_resolvable(self, targets: Seq<Target>) -> bool {
        forall|i: int|
            0 <= i < targets.len() ==> self.resolvable(
                (#[trigger] targets[i]).named(),
                targets[i].held(),
            )
    }

    /// Whether `resolved` holds what each target of `targets` resolves to,
    /// one for one.
    pub open spec fn are_resolutions(
        self,
        resolved: Seq<ResolvedTarget>,
        targets: Seq<Target>,
    ) -> bool {
        &&& resolved.len() == targets.len()
        &&& forall|i: int|
            0 <= i < resolved.len() ==> self.is_resolution(
                Ok(((#[trigger] resolved[i]).database, resolved[i].url, resolved[i].driver)),
                targets[i].named(),
                targets[i].held(),
            )
    }

    /// Whether `error` is the error of the first target of `targets` that
    /// does not resolve.
    pub open spec fn is_first_failure(self, error: ConfigError, targets: Seq<Target>) -> bool {
        exists|i: int|
            0 <= i < targets.len() && self.is_resolution(
                Err(error),
                (#[trigger] targets[i]).named(),
                targets[i].held(),
            ) && forall|k: int|
                0 <= k < i ==> self.resolvable((#[trigger] targets[k]).named(), targets[k].held())
    }

    /// Resolves the database that a query names: its name, its URL and the
    /// driver that serves the URL.
    ///
    /// `name` is the name that the query gives, `env_url` what the
    /// environment holds under `env_var_name(name)`. The URL is the one that
    /// the configuration names, else `env_url`; it is handed out as `url`
    /// writes it out after parsing it. The call fails where there
    /// is neither, where the URL is no absolute URL, and where no driver
    /// serves its scheme.
    pub fn get_driver(&self, name: Option<&str>, env_url: Option<&str>) -> (resolved: Result<
        (String, String, QueryToTSDriver),
        ConfigError,
    >)
        ensures
            self.is_resolution(
                resolved,
                match name {
                    Some(named) => Some(named@),
                    None => None,
                },
                match env_url {
                    Some(held) => Some(held@),
                    None => None,
                },
            ),
    {
        let database = match name {
            Some(named) => named.to_owned(),
            None => "default".to_owned(),
        };
        let database_url = match self.databases.get(database.as_str()) {
            Some(url) => url,
            None => match env_url {
                Some(held) => held.to_owned(),
                None => {
                    return Err(ConfigError::DatabaseNotFound { database });
                },
            },
        };
        match parse_url(database_url.as_str()) {
            None => Err(ConfigError::InvalidUrl { url: database_url }),
            Some((scheme, text)) => match driver_for(&scheme) {
                Some(driver) => Ok((database, text, driver)),
                None => Err(ConfigError::NoDriver { url: database_url }),
            },
        }
    }

    /// Resolves every target of `targets`, in order.
    ///
    /// The call succeeds exactly where every target resolves, and then
    /// gives what each resolves to. Else it gives the error of the first
    /// target that does not resolve.
    pub fn resolve_targets(&self, targets: &[Target]) -> (resolved: Result<
        Vec<ResolvedTarget>,
        ConfigError,
    >)
        ensures
            resolved is Ok <==> self.all_resolvable(targets@),
            match resolved {
                Ok(list) => self.are_resolutions(list@, targets@),
                Err(error) => self.is_first_failure(error, targets@),
            },
    {
        let mut list: Vec<ResolvedTarget> = Vec::new();
        let mut i: usize = 0;
        while i < targets.len()
            invariant
                i <= targets.len(),
                self.are_resolutions(list@, targets@.take(i as int)),
                forall|k: int|
                    0 <= k < i ==> self.resolvable(
                        (#[trigger] targets@[k]).named(),
                        targets@[k].held(),
                    ),
            decreases targets.len() - i,
        {
            let target = &targets[i];
            let name: Option<&str> = match &target.name {
                Some(named) => Some(named.as_str()),
                None => None,
            };
            let env_url: Option<&str> = match &target.env_url {
                Some(held) => Some(held.as_str()),
                None => None,
            };
            match self.get_driver(name, env_url) {
                Ok((database, url, driver)) => {
                    list.push(ResolvedTarget { database, url, driver });
                    assert(targets@.take(i + 1)[i as int] == targets@[i as int]);
                    assert forall|k: int| 0 <= k < i implies targets@.take(i + 1)[k]
                        == #[trigger] targets@.take(i as int)[k] by {}
                },
                Err(error) => {
                    assert(!self.resolvable(targets@[i as int].named(), targets@[i as int].held()));
                    return Err(error);
                },
            }
            i += 1;
        }
        assert(targets@.take(i as int) =~= targets@);
        Ok(list)
    }
}

} // verus!
