//! The service's settings: defaults, overridden by what the configuration
//! sources give.

use vstd::prelude::*;
use vstd::string::*;
use crate::text::str_eq;

verus! {

#[derive(Debug, Clone)]
pub struct Config {
    pub service: ServiceConfig,
    pub pubsub: PubSubConfig,
    pub templates: TemplateConfig,
}

#[derive(Debug, Clone)]
pub struct ServiceConfig {
    pub name: String,
    pub log_level: String,
}

#[derive(Debug, Clone)]
pub struct PubSubConfig {
    pub project_id: String,
    pub request_subscription: String,
    pub response_topic: String,
    pub max_concurrent_messages: usize,
}

#[derive(Debug, Clone)]
pub struct TemplateConfig {
    pub path: String,
}

/// Why the settings could not be loaded.
#[derive(Debug, Clone)]
pub enum ConfigError {
    /// The value given for a numeric setting is not a number that fits.
    InvalidNumber { key: String, value: String },
}

pub struct ConfigView {
    pub service_name: Seq<char>,
    pub log_level: Seq<char>,
    pub project_id: Seq<char>,
    pub request_subscription: Seq<char>,
    pub response_topic: Seq<char>,
    pub max_concurrent_messages: usize,
    pub templates_path: Seq<char>,
}

impl View for Config {
    type V = ConfigView;

    open spec fn view(&self) -> ConfigView {
        ConfigView {
            service_name: self.service.name@,
            log_level: self.service.log_level@,
            project_id: self.pubsub.project_id@,
            request_subscription: self.pubsub.request_subscription@,
            response_topic: self.pubsub.response_topic@,
            max_concurrent_messages: self.pubsub.max_concurrent_messages,
            templates_path: self.templates.path@,
        }
    }
}

/// The settings of a service for which nothing is configured.
pub open spec fn default_settings() -> ConfigView {
    ConfigView {
        service_name: "document-generation-service"@,
        log_level: "info"@,
        project_id: "mcxtest"@,
        request_subscription: "document-generation-requests-sub"@,
        response_topic: "document-generation-results"@,
        max_concurrent_messages: 10,
        templates_path: "./templates"@,
    }
}

/// The value of a decimal digit, if the character is one.
pub open spec fn digit_value(c: char) -> Option<nat> {
    if c == '0' {
        Some(0)
    } else if c == '1' {
        Some(1)
    } else if c == '2' {
        Some(2)
    } else if c == '3' {
        Some(3)
    } else if c == '4' {
        Some(4)
    } else if c == '5' {
        Some(5)
    } else if c == '6' {
        Some(6)
    } else if c == '7' {
        Some(7)
    } else if c == '8' {
        Some(8)
    } else if c == '9' {
        Some(9)
    } else {
        None
    }
}

/// The number that a text of decimal digits denotes. A text with another
/// character in it denotes none; the empty text denotes zero here and is
/// refused by `parse_count`.
pub open spec fn digits_value(text: Seq<char>) -> Option<nat>
    decreases text.len(),
{
    if text.len() == 0 {
        Some(0)
    } else {
        match (digits_value(text.drop_last()), digit_value(text.last())) {
            (Some(front), Some(d)) => Some(front * 10 + d),
            _ => None,
        }
    }
}

/// The count that a text denotes: the number its decimal digits denote, if
/// the text is not empty, holds digits only and the number fits.
pub open spec fn count_of(text: Seq<char>) -> Option<usize> {
    if text.len() == 0 {
        None
    } else {
        match digits_value(text) {
            Some(n) => if n <= usize::MAX {
                Some(n as usize)
            } else {
                None
            },
            None => None,
        }
    }
}

/// A text with a digit added denotes at least what the text denotes.
proof fn lemma_digits_grow(text: Seq<char>)
    requires
        text.len() > 0,
        digits_value(text).is_some(),
    ensures
        digits_value(text.drop_last()).is_some(),
        digits_value(text).unwrap() >= digits_value(text.drop_last()).unwrap(),
{
}

/// Once a prefix denotes more than fits or holds another character, so does
/// the whole text.
proof fn lemma_prefix_decides(text: Seq<char>, k: int)
    requires
        0 <= k <= text.len(),
    ensures
        digits_value(text.subrange(0, k)).is_none() ==> digits_value(text).is_none(),
        digits_value(text).is_some() ==> digits_value(text.subrange(0, k)).unwrap()
            <= digits_value(text).unwrap(),
    decreases text.len() - k,
{
    if k == text.len() {
        assert(text.subrange(0, k) =~= text);
    } else {
        lemma_prefix_decides(text, k + 1);
        assert(text.subrange(0, k + 1).drop_last() =~= text.subrange(0, k));
        if digits_value(text.subrange(0, k + 1)).is_some() {
            lemma_digits_grow(text.subrange(0, k + 1));
        }
    }
}

/// The key of the bound on concurrent messages differs from every other key.
proof fn lemma_count_key_stands_apart()
    ensures
        "service.name"@ != "pubsub.max_concurrent_messages"@,
        "service.log_level"@ != "pubsub.max_concurrent_messages"@,
        "pubsub.project_id"@ != "pubsub.max_concurrent_messages"@,
        "pubsub.request_subscription"@ != "pubsub.max_concurrent_messages"@,
        "pubsub.response_topic"@ != "pubsub.max_concurrent_messages"@,
        "templates.path"@ != "pubsub.max_concurrent_messages"@,
{
    reveal_strlit("service.name");
    reveal_strlit("service.log_level");
    reveal_strlit("pubsub.project_id");
    reveal_strlit("pubsub.request_subscription");
    reveal_strlit("pubsub.response_topic");
    reveal_strlit("pubsub.max_concurrent_messages");
    reveal_strlit("templates.path");
    assert("pubsub.max_concurrent_messages"@.len() == 30);
    assert("service.name"@.len() == 12);
    assert("service.log_level"@.len() == 17);
    assert("pubsub.project_id"@.len() == 17);
    assert("pubsub.request_subscription"@.len() == 27);
    assert("pubsub.response_topic"@.len() == 21);
    assert("templates.path"@.len() == 14);
}

fn digit_of(c: char) -> (d: Option<usize>)
    ensures
        match d {
            Some(v) => digit_value(c) == Some(v as nat) && v <= 9,
            None => digit_value(c).is_none(),
        },
{
    if c == '0' {
        Some(0)
    } else if c == '1' {
        Some(1)
    } else if c == '2' {
        Some(2)
    } else if c == '3' {
        Some(3)
    } else if c == '4' {
        Some(4)
    } else if c == '5' {
        Some(5)
    } else if c == '6' {
        Some(6)
    } else if c == '7' {
        Some(7)
    } else if c == '8' {
        Some(8)
    } else if c == '9' {
        Some(9)
    } else {
        None
    }
}

/// Reads a count from its decimal text.
pub fn parse_count(text: &str) -> (count: Option<usize>)
    ensures
        count == count_of(text@),
{
    let n = text.unicode_len();
    if n == 0 {
        return None;
    }
    let mut value: usize = 0;
    let mut i: usize = 0;
    while i < n
        invariant
            n == text@.len(),
            i <= n,
            digits_value(text@.subrange(0, i as int)) == Some(value as nat),
        decreases n - i,
    {
        let c = text.get_char(i);
        proof {
            assert(text@.subrange(0, i + 1).drop_last() =~= text@.subrange(0, i as int));
            assert(text@.subrange(0, i + 1).last() == c);
            lemma_prefix_decides(text@, i + 1);
        }
        match digit_of(c) {
            None => {
                return None;
            },
            Some(d) => {
                if value > (usize::MAX - d) / 10 {
                    assert(value * 10 + d > usize::MAX) by (nonlinear_arith)
                        requires
                            value > (usize::MAX - d) / 10,
                            d <= 9,
                    ;
                    return None;
                }
                assert(value * 10 + d <= usize::MAX) by (nonlinear_arith)
                    requires
                        value <= (usize::MAX - d) / 10,
                        d <= 9,
                ;
                value = value * 10 + d;
            },
        }
        i += 1;
    }
    assert(text@.subrange(0, n as int) =~= text@);
    Some(value)
}

/// The settings after one more source entry: the entry's value under the
/// setting that its key names, all other settings kept. An entry with a key
/// that names no setting changes nothing, and so does a value for the bound
/// on concurrent messages that denotes no count.
pub open spec fn with_entry(settings: ConfigView, key: Seq<char>, value: Seq<char>) -> ConfigView {
    if key == "service.name"@ {
        ConfigView { service_name: value, ..settings }
    } else if key == "service.log_level"@ {
        ConfigView { log_level: value, ..settings }
    } else if key == "pubsub.project_id"@ {
        ConfigView { project_id: value, ..settings }
    } else if key == "pubsub.request_subscription"@ {
        ConfigView { request_subscription: value, ..settings }
    } else if key == "pubsub.response_topic"@ {
        ConfigView { response_topic: value, ..settings }
    } else if key == "pubsub.max_concurrent_messages"@ {
        match count_of(value) {
            Some(n) => ConfigView { max_concurrent_messages: n, ..settings },
            None => settings,
        }
    } else if key == "templates.path"@ {
        ConfigView { templates_path: value, ..settings }
    } else {
        settings
    }
}

/// Whether an entry gives the bound on concurrent messages a value that
/// denotes no count.
pub open spec fn is_bad_entry(key: Seq<char>, value: Seq<char>) -> bool {
    key == "pubsub.max_concurrent_messages"@ && count_of(value).is_none()
}

/// The settings after the entries of all sources, taken in order, so that a
/// later entry overrides an earlier one.
pub open spec fn with_entries(settings: ConfigView, entries: Seq<(String, String)>) -> ConfigView
    decreases entries.len(),
{
    if entries.len() == 0 {
        settings
    } else {
        with_entry(
            with_entries(settings, entries.drop_last()),
            entries.last().0@,
            entries.last().1@,
        )
    }
}

/// Whether some entry is a bad one.
pub open spec fn has_bad_entry(entries: Seq<(String, String)>) -> bool {
    exists|i: int| 0 <= i < entries.len() && (#[trigger] is_bad_entry(entries[i].0@, entries[i].1@))
}

impl Config {
    /// The settings of a service for which nothing is configured.
    pub fn defaults() -> (config: Config)
        ensures
            config@ == default_settings(),
    {
        Config {
            service: ServiceConfig {
                name: String::from_str("document-generation-service"),
                log_level: String::from_str("info"),
            },
            pubsub: PubSubConfig {
                project_id: String::from_str("mcxtest"),
                request_subscription: String::from_str("document-generation-requests-sub"),
                response_topic: String::from_str("document-generation-results"),
                max_concurrent_messages: 10,
            },
            templates: TemplateConfig { path: String::from_str("./templates") },
        }
    }

    /// Loads the settings: the defaults, overridden by the entries that the
    /// configuration sources gave, in the sources' order. Fails exactly when
    /// an entry gives the bound on concurrent messages a value that is no
    /// count, and then names the first such entry.
    pub fn load(entries: &Vec<(String, String)>) -> (loaded: Result<Config, ConfigError>)
        ensures
            match loaded {
                Ok(config) => !has_bad_entry(entries@) && config@ == with_entries(
                    default_settings(),
                    entries@,
                ),
                Err(ConfigError::InvalidNumber { key, value }) => exists|i: int|
                    {
                        &&& 0 <= i < entries@.len()
                        &&& (#[trigger] is_bad_entry(entries@[i].0@, entries@[i].1@))
                        &&& key@ == entries@[i].0@
                        &&& value@ == entries@[i].1@
                        &&& forall|k: int|
                            0 <= k < i ==> !(#[trigger] is_bad_entry(entries@[k].0@, entries@[k].1@))
                    },
            },
    {
        let mut config = Config::defaults();
        let mut i: usize = 0;
        while i < entries.len()
            invariant
                i <= entries@.len(),
                config@ == with_entries(default_settings(), entries@.subrange(0, i as int)),
                forall|k: int| 0 <= k < i ==> !(#[trigger] is_bad_entry(entries@[k].0@, entries@[k].1@)),
            decreases entries@.len() - i,
        {
            let key = entries[i].0.as_str();
            let value = entries[i].1.as_str();
            proof {
                assert(entries@.subrange(0, i + 1).drop_last() =~= entries@.subrange(0, i as int));
                assert(entries@.subrange(0, i + 1).last() == entries@[i as int]);
                lemma_count_key_stands_apart();
            }
            if str_eq(key, "service.name") {
                config.service.name = String::from_str(value);
            } else if str_eq(key, "service.log_level") {
                config.service.log_level = String::from_str(value);
            } else if str_eq(key, "pubsub.project_id") {
                config.pubsub.project_id = String::from_str(value);
            } else if str_eq(key, "pubsub.request_subscription") {
                config.pubsub.request_subscription = String::from_str(value);
            } else if str_eq(key, "pubsub.response_topic") {
                config.pubsub.response_topic = String::from_str(value);
            } else if str_eq(key, "pubsub.max_concurrent_messages") {
                match parse_count(value) {
                    Some(n) => {
                        config.pubsub.max_concurrent_messages = n;
                    },
                    None => {
                        assert(is_bad_entry(entries@[i as int].0@, entries@[i as int].1@));
                        return Err(
                            ConfigError::InvalidNumber {
                                key: String::from_str(key),
                                value: String::from_str(value),
                            },
                        );
                    },
                }
            } else if str_eq(key, "templates.path") {
                config.templates.path = String::from_str(value);
            }
            assert(!is_bad_entry(entries@[i as int].0@, entries@[i as int].1@));
            i += 1;
        }
        assert(entries@.subrange(0, i as int) =~= entries@);
        Ok(config)
    }
}

} // verus!
