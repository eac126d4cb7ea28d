//! Types of the router listing.

use vstd::prelude::*;

use crate::error::Error;
use crate::json::{
    field, is_absent, json_of, json_text_parses, member, opt_bool, opt_bool_member, opt_int32,
    opt_int32_member, opt_int64, opt_int64_member, opt_text_is, opt_text_member, opt_text_ok,
    take_member, text_equals, Json,
};

verus! {

/// All router configurations.
#[derive(Debug)]
pub struct RouterConfigs {
    /// Every router the gateway serves.
    pub routers: Vec<RouterConfig>,
}

/// Configuration of one router; the gateway may leave any member out.
#[derive(Debug)]
pub struct RouterConfig {
    /// Whether the gateway dispatches to this router.
    pub enabled: Option<bool>,
    /// The models that can serve its requests.
    pub models: Option<Vec<LangModelConfig>>,
    /// Retries when no model is healthy; the gateway applies them.
    pub retry: Option<RetryConfig>,
    /// Unique router ID.
    pub routers: Option<String>,
    /// How the next model is picked.
    pub strategy: Option<String>,
}

/// Retry configuration of a router.
#[derive(Debug, Clone, Copy)]
pub struct RetryConfig {
    pub base_multiplier: Option<i32>,
    pub max_delay: Option<i64>,
    pub min_delay: Option<i64>,
    pub max_retries: Option<i32>,
}

/// Configuration of one model of a router.
#[derive(Debug)]
pub struct LangModelConfig {
    /// Model instance ID, unique within its router.
    pub id: Option<String>,
    /// Whether the model takes requests.
    pub enabled: Option<bool>,
    pub weight: Option<i32>,
    pub error_budget: Option<String>,
    /// The provider and its parameters.
    pub config: Option<ProviderConfig>,
    pub client: Option<ClientsConfig>,
    pub latency_config: Option<LatencyConfig>,
}

/// Timeout configuration.
#[derive(Debug, Clone, Copy)]
pub struct ClientsConfig {
    pub timeout: Option<i64>,
}

/// Latency tracking configuration.
#[derive(Debug)]
pub struct LatencyConfig {
    /// Weight of new latency measurements, a JSON number.
    pub decay: Option<Json>,
    /// How often the gateway probes models other than the fastest.
    pub update_interval: Option<String>,
    /// Probes needed before the moving average starts.
    pub warmup_samples: Option<i32>,
}

/// A provider, tagged by name, with its parameters as they came.
#[derive(Debug)]
pub enum ProviderConfig {
    Anthropic(Json),
    AzureOpenAi(Json),
    Bedrock(Json),
    Cohere(Json),
    Octoml(Json),
    Ollama(Json),
    OpenAi(Json),
    /// A provider this library does not know by name: its tag and parameters.
    Other(String, Json),
}


/// The names under which a model names its provider.
pub open spec fn is_provider_tag(k: Seq<char>) -> bool {
    ||| k == "anthropic"@
    ||| k == "azureopenai"@
    ||| k == "bedrock"@
    ||| k == "cohere"@
    ||| k == "octoml"@
    ||| k == "ollama"@
    ||| k == "openai"@
}

/// The members of a model that are not its provider.
pub open spec fn is_model_field(k: Seq<char>) -> bool {
    ||| k == "id"@
    ||| k == "enabled"@
    ||| k == "weight"@
    ||| k == "error_budget"@
    ||| k == "client"@
    ||| k == "latency_config"@
}

/// The provider named by a tag, with its parameters; a tag not known by
/// name is kept as it came.
pub open spec fn provider_of(tag: String, payload: Json) -> ProviderConfig {
    if !is_provider_tag(tag@) {
        ProviderConfig::Other(tag, payload)
    } else if tag@ == "anthropic"@ {
        ProviderConfig::Anthropic(payload)
    } else if tag@ == "azureopenai"@ {
        ProviderConfig::AzureOpenAi(payload)
    } else if tag@ == "bedrock"@ {
        ProviderConfig::Bedrock(payload)
    } else if tag@ == "cohere"@ {
        ProviderConfig::Cohere(payload)
    } else if tag@ == "octoml"@ {
        ProviderConfig::Octoml(payload)
    } else if tag@ == "ollama"@ {
        ProviderConfig::Ollama(payload)
    } else {
        ProviderConfig::OpenAi(payload)
    }
}

/// Index of the first member that is not one of the model's own: the
/// provider, under its tag.
pub open spec fn first_tagged(fs: Seq<(String, Json)>) -> Option<int>
    decreases fs.len(),
{
    if fs.len() == 0 {
        None
    } else if !is_model_field(fs[0].0@) {
        Some(0)
    } else {
        match first_tagged(fs.drop_first()) {
            Some(i) => Some(i + 1),
            None => None,
        }
    }
}

/// The provider of a model: its first member that is not one of the
/// model's own, if there is one.
pub open spec fn provider_in(fs: Seq<(String, Json)>) -> Option<ProviderConfig> {
    match first_tagged(fs) {
        Some(i) => Some(provider_of(fs[i].0, fs[i].1)),
        None => None,
    }
}

/// Optional retry configuration: `None` where it does not decode.
pub open spec fn opt_retry(j: Option<Json>) -> Option<Option<RetryConfig>> {
    if is_absent(j) {
        Some(None)
    } else {
        match j {
            Some(Json::Object(fs)) => match (
                opt_int32(member(fs@, "base_multiplier"@)),
                opt_int64(member(fs@, "max_delay"@)),
                opt_int64(member(fs@, "min_delay"@)),
                opt_int32(member(fs@, "max_retries"@)),
            ) {
                (Some(b), Some(xd), Some(nd), Some(mr)) => Some(
                    Some(
                        RetryConfig {
                            base_multiplier: b,
                            max_delay: xd,
                            min_delay: nd,
                            max_retries: mr,
                        },
                    ),
                ),
                _ => None,
            },
            _ => None,
        }
    }
}

/// Optional timeout configuration: `None` where it does not decode.
pub open spec fn opt_clients(j: Option<Json>) -> Option<Option<ClientsConfig>> {
    if is_absent(j) {
        Some(None)
    } else {
        match j {
            Some(Json::Object(fs)) => match opt_int64(member(fs@, "timeout"@)) {
                Some(t) => Some(Some(ClientsConfig { timeout: t })),
                None => None,
            },
            _ => None,
        }
    }
}

/// An optional number: missing, `null`, or a JSON number.
pub open spec fn opt_number_ok(j: Option<Json>) -> bool {
    is_absent(j) || j matches Some(Json::Number(_))
}

/// Latency configuration decodes.
pub open spec fn latency_ok(j: Json) -> bool {
    &&& j is Object
    &&& opt_number_ok(field(j, "decay"@))
    &&& opt_text_ok(field(j, "update_interval"@))
    &&& opt_int32(field(j, "warmup_samples"@)) is Some
}

/// Latency configuration decodes to `l`.
pub open spec fn latency_is(j: Json, l: LatencyConfig) -> bool {
    &&& (if is_absent(field(j, "decay"@)) {
        l.decay is None
    } else {
        l.decay == field(j, "decay"@)
    })
    &&& opt_text_is(field(j, "update_interval"@), l.update_interval)
    &&& opt_int32(field(j, "warmup_samples"@)) == Some(l.warmup_samples)
}

/// Optional latency configuration decodes.
pub open spec fn opt_latency_ok(j: Option<Json>) -> bool {
    is_absent(j) || match j {
        Some(x) => latency_ok(x),
        None => false,
    }
}

/// Optional latency configuration decodes to `v`.
pub open spec fn opt_latency_is(j: Option<Json>, v: Option<LatencyConfig>) -> bool {
    if is_absent(j) {
        v is None
    } else {
        match (j, v) {
            (Some(x), Some(l)) => latency_is(x, l),
            _ => false,
        }
    }
}

/// A model configuration decodes: an object whose members, each optional,
/// have their types.
pub open spec fn model_ok(j: Json) -> bool {
    match j {
        Json::Object(fs) => {
            &&& opt_text_ok(member(fs@, "id"@))
            &&& opt_bool(member(fs@, "enabled"@)) is Some
            &&& opt_int32(member(fs@, "weight"@)) is Some
            &&& opt_text_ok(member(fs@, "error_budget"@))
            &&& opt_clients(member(fs@, "client"@)) is Some
            &&& opt_latency_ok(member(fs@, "latency_config"@))
        },
        _ => false,
    }
}

/// A model configuration decodes to `m`.
pub open spec fn model_is(j: Json, m: LangModelConfig) -> bool {
    match j {
        Json::Object(fs) => {
            &&& opt_text_is(member(fs@, "id"@), m.id)
            &&& opt_bool(member(fs@, "enabled"@)) == Some(m.enabled)
            &&& opt_int32(member(fs@, "weight"@)) == Some(m.weight)
            &&& opt_text_is(member(fs@, "error_budget"@), m.error_budget)
            &&& opt_clients(member(fs@, "client"@)) == Some(m.client)
            &&& opt_latency_is(member(fs@, "latency_config"@), m.latency_config)
            &&& provider_in(fs@) == m.config
        },
        _ => false,
    }
}

/// Every model of an array decodes.
pub open spec fn all_models_ok(items: Seq<Json>) -> bool {
    forall|i: int| 0 <= i < items.len() ==> model_ok(#[trigger] items[i])
}

/// Every router of an array decodes.
pub open spec fn all_routers_ok(items: Seq<Json>) -> bool {
    forall|i: int| 0 <= i < items.len() ==> router_ok(#[trigger] items[i])
}

/// A router configuration decodes: an object whose members, each optional,
/// have their types.
pub open spec fn router_ok(j: Json) -> bool {
    &&& j is Object
    &&& opt_bool(field(j, "enabled"@)) is Some
    &&& opt_retry(field(j, "retry"@)) is Some
    &&& opt_text_ok(field(j, "routers"@))
    &&& opt_text_ok(field(j, "strategy"@))
    &&& (is_absent(field(j, "models"@)) || match field(j, "models"@) {
        Some(Json::Array(items)) => all_models_ok(items@),
        _ => false,
    })
}

/// A router configuration decodes to `r`.
pub open spec fn router_is(j: Json, r: RouterConfig) -> bool {
    &&& opt_bool(field(j, "enabled"@)) == Some(r.enabled)
    &&& opt_retry(field(j, "retry"@)) == Some(r.retry)
    &&& opt_text_is(field(j, "routers"@), r.routers)
    &&& opt_text_is(field(j, "strategy"@), r.strategy)
    &&& if is_absent(field(j, "models"@)) {
        r.models is None
    } else {
        match (field(j, "models"@), r.models) {
            (Some(Json::Array(items)), Some(ms)) => items@.len() == ms@.len() && forall|i: int|
                0 <= i < items@.len() ==> model_is(#[trigger] items@[i], ms@[i]),
            _ => false,
        }
    }
}

/// The router listing decodes.
pub open spec fn configs_ok(j: Json) -> bool {
    match field(j, "routers"@) {
        Some(Json::Array(items)) => all_routers_ok(items@),
        _ => false,
    }
}

/// The router listing decodes to `c`.
pub open spec fn configs_is(j: Json, c: RouterConfigs) -> bool {
    match field(j, "routers"@) {
        Some(Json::Array(items)) => items@.len() == c.routers@.len() && forall|i: int|
            0 <= i < items@.len() ==> router_is(#[trigger] items@[i], c.routers@[i]),
        _ => false,
    }
}

fn tag_of(k: &String) -> (r: bool)
    ensures
        r == is_provider_tag(k@),
{
    text_equals(k, "anthropic") || text_equals(k, "azureopenai") || text_equals(k, "bedrock")
        || text_equals(k, "cohere") || text_equals(k, "octoml") || text_equals(k, "ollama")
        || text_equals(k, "openai")
}

fn provider_named(tag: String, payload: Json) -> (r: ProviderConfig)
    ensures
        r == provider_of(tag, payload),
{
    if !tag_of(&tag) {
        ProviderConfig::Other(tag, payload)
    } else if text_equals(&tag, "anthropic") {
        ProviderConfig::Anthropic(payload)
    } else if text_equals(&tag, "azureopenai") {
        ProviderConfig::AzureOpenAi(payload)
    } else if text_equals(&tag, "bedrock") {
        ProviderConfig::Bedrock(payload)
    } else if text_equals(&tag, "cohere") {
        ProviderConfig::Cohere(payload)
    } else if text_equals(&tag, "octoml") {
        ProviderConfig::Octoml(payload)
    } else if text_equals(&tag, "ollama") {
        ProviderConfig::Ollama(payload)
    } else {
        ProviderConfig::OpenAi(payload)
    }
}

proof fn lemma_first_tagged(fs: Seq<(String, Json)>, i: int)
    requires
        0 <= i <= fs.len(),
        forall|j: int| 0 <= j < i ==> is_model_field(#[trigger] fs[j].0@),
    ensures
        i < fs.len() && !is_model_field(fs[i].0@) ==> first_tagged(fs) == Some(i),
        i == fs.len() ==> first_tagged(fs) is None,
    decreases i,
{
    if i > 0 {
        lemma_first_tagged(fs.drop_first(), i - 1);
    }
}

fn model_field(k: &String) -> (r: bool)
    ensures
        r == is_model_field(k@),
{
    text_equals(k, "id") || text_equals(k, "enabled") || text_equals(k, "weight") || text_equals(
        k,
        "error_budget",
    ) || text_equals(k, "client") || text_equals(k, "latency_config")
}

/// Takes out the provider member of a model: its first member that is not
/// one of the model's own.
fn take_provider(fs: &mut Vec<(String, Json)>) -> (r: Option<ProviderConfig>)
    ensures
        r == provider_in(old(fs)@),
        forall|k: Seq<char>| is_model_field(k) ==> member(final(fs)@, k) == member(old(fs)@, k),
{
    let mut i: usize = 0;
    while i < fs.len()
        invariant
            i <= fs@.len(),
            fs@ == old(fs)@,
            forall|j: int| 0 <= j < i ==> is_model_field(#[trigger] fs@[j].0@),
        decreases fs@.len() - i,
    {
        if !model_field(&fs[i].0) {
            proof {
                lemma_first_tagged(fs@, i as int);
            }
            let ghost before = fs@;
            let (tag, payload) = fs.remove(i);
            proof {
                assert forall|k: Seq<char>| is_model_field(k) implies member(fs@, k) == member(
                    before,
                    k,
                ) by {
                    crate::json::lemma_remove_other(before, i as int, k);
                }
            }
            return Some(provider_named(tag, payload));
        }
        i = i + 1;
    }
    proof {
        lemma_first_tagged(fs@, i as int);
    }
    None
}

fn retry_of(obj: &Json) -> (r: Option<Option<RetryConfig>>)
    ensures
        r == opt_retry(field(*obj, "retry"@)),
{
    match obj.get("retry") {
        None => Some(None),
        Some(Json::Null) => Some(None),
        Some(x) => match x {
            Json::Object(_) => match (
                opt_int32_member(x, "base_multiplier"),
                opt_int64_member(x, "max_delay"),
                opt_int64_member(x, "min_delay"),
                opt_int32_member(x, "max_retries"),
            ) {
                (Some(b), Some(xd), Some(nd), Some(mr)) => Some(
                    Some(
                        RetryConfig {
                            base_multiplier: b,
                            max_delay: xd,
                            min_delay: nd,
                            max_retries: mr,
                        },
                    ),
                ),
                _ => None,
            },
            _ => None,
        },
    }
}

fn clients_of(obj: &Json) -> (r: Option<Option<ClientsConfig>>)
    ensures
        r == opt_clients(field(*obj, "client"@)),
{
    match obj.get("client") {
        None => Some(None),
        Some(Json::Null) => Some(None),
        Some(x) => match x {
            Json::Object(_) => match opt_int64_member(x, "timeout") {
                Some(t) => Some(Some(ClientsConfig { timeout: t })),
                None => None,
            },
            _ => None,
        },
    }
}

fn latency_of(j: Json) -> (r: Option<LatencyConfig>)
    ensures
        r is Some <==> latency_ok(j),
        r matches Some(l) ==> latency_is(j, l),
{
    match j {
        Json::Object(_) => {},
        _ => return None,
    }
    let update_interval = match opt_text_member(&j, "update_interval") {
        Some(x) => x,
        None => return None,
    };
    let warmup_samples = match opt_int32_member(&j, "warmup_samples") {
        Some(x) => x,
        None => return None,
    };
    let decay = match j.get("decay") {
        None => None,
        Some(Json::Null) => None,
        Some(Json::Number(_)) => match j {
            Json::Object(fs) => {
                let mut fs = fs;
                take_member(&mut fs, "decay")
            },
            _ => None,
        },
        _ => return None,
    };
    Some(LatencyConfig { decay, update_interval, warmup_samples })
}

impl LangModelConfig {
    /// Decodes one model of a router, taking its provider parameters over.
    pub fn from_json(j: Json) -> (r: Result<LangModelConfig, Error>)
        ensures
            r is Ok <==> model_ok(j),
            r matches Ok(m) ==> model_is(j, m),
            r matches Err(e) ==> e is Decode,
    {
        let shape = Err(Error::Decode(String::from_str("unexpected model configuration shape")));
        match j {
            Json::Object(_) => {},
            _ => return shape,
        }
        let id = match opt_text_member(&j, "id") {
            Some(x) => x,
            None => return shape,
        };
        let enabled = match opt_bool_member(&j, "enabled") {
            Some(x) => x,
            None => return shape,
        };
        let weight = match opt_int32_member(&j, "weight") {
            Some(x) => x,
            None => return shape,
        };
        let error_budget = match opt_text_member(&j, "error_budget") {
            Some(x) => x,
            None => return shape,
        };
        let client = match clients_of(&j) {
            Some(x) => x,
            None => return shape,
        };
        let ghost whole = j;
        let mut fs = match j {
            Json::Object(fs) => fs,
            _ => return shape,
        };
        let ghost orig = fs@;
        let config = take_provider(&mut fs);
        assert(is_model_field("latency_config"@));
        assert(member(fs@, "latency_config"@) == member(orig, "latency_config"@));
        let latency_config = match take_member(&mut fs, "latency_config") {
            None => None,
            Some(Json::Null) => None,
            Some(x) => match latency_of(x) {
                Some(l) => Some(l),
                None => return shape,
            },
        };
        Ok(
            LangModelConfig {
                id,
                enabled,
                weight,
                error_budget,
                config,
                client,
                latency_config,
            },
        )
    }
}

/// Takes the member named `key` out of an object.
fn take_field(j: Json, key: &str) -> (r: Option<Json>)
    ensures
        r == field(j, key@),
{
    match j {
        Json::Object(fs) => {
            let mut fs = fs;
            take_member(&mut fs, key)
        },
        _ => None,
    }
}

impl RouterConfig {
    /// Decodes one router configuration.
    pub fn from_json(j: Json) -> (r: Result<RouterConfig, Error>)
        ensures
            r is Ok <==> router_ok(j),
            r matches Ok(x) ==> router_is(j, x),
            r matches Err(e) ==> e is Decode,
    {
        let shape = Err(Error::Decode(String::from_str("unexpected router configuration shape")));
        match j {
            Json::Object(_) => {},
            _ => return shape,
        }
        let enabled = match opt_bool_member(&j, "enabled") {
            Some(x) => x,
            None => return shape,
        };
        let retry = match retry_of(&j) {
            Some(x) => x,
            None => return shape,
        };
        let routers = match opt_text_member(&j, "routers") {
            Some(x) => x,
            None => return shape,
        };
        let strategy = match opt_text_member(&j, "strategy") {
            Some(x) => x,
            None => return shape,
        };
        let mut items = match take_field(j, "models") {
            None => return Ok(RouterConfig { enabled, models: None, retry, routers, strategy }),
            Some(Json::Null) => return Ok(
                RouterConfig { enabled, models: None, retry, routers, strategy },
            ),
            Some(Json::Array(items)) => items,
            Some(_) => return shape,
        };
        let ghost orig = items;
        let ghost all = items@;
        let mut models: Vec<LangModelConfig> = Vec::new();
        assert(all.skip(0) =~= all);
        while items.len() > 0
            invariant
                models@.len() + items@.len() == all.len(),
                orig@ == all,
                field(j, "models"@) == Some(Json::Array(orig)),
                items@ == all.skip(models@.len() as int),
                forall|i: int| 0 <= i < models@.len() ==> model_ok(#[trigger] all[i]),
                forall|i: int| 0 <= i < models@.len() ==> model_is(#[trigger] all[i], models@[i]),
            decreases items@.len(),
        {
            let ghost n = models@.len() as int;
            assert(items@[0] == all[n]);
            let item = items.remove(0);
            assert(items@ =~= all.skip(n + 1));
            match LangModelConfig::from_json(item) {
                Ok(m) => models.push(m),
                Err(e) => {
                    assert(!model_ok(orig@[n]));
                    assert(!all_models_ok(orig@));
                    return Err(e);
                },
            }
        }
        Ok(RouterConfig { enabled, models: Some(models), retry, routers, strategy })
    }
}

impl RouterConfigs {
    /// Decodes the router listing.
    pub fn from_json(j: Json) -> (r: Result<RouterConfigs, Error>)
        ensures
            r is Ok <==> configs_ok(j),
            r matches Ok(x) ==> configs_is(j, x),
            r matches Err(e) ==> e is Decode,
    {
        let ghost whole = j;
        let mut items = match take_field(j, "routers") {
            Some(Json::Array(items)) => items,
            _ => return Err(Error::Decode(String::from_str("unexpected router listing shape"))),
        };
        let ghost orig = items;
        let ghost all = items@;
        let mut routers: Vec<RouterConfig> = Vec::new();
        assert(all.skip(0) =~= all);
        while items.len() > 0
            invariant
                routers@.len() + items@.len() == all.len(),
                orig@ == all,
                field(j, "routers"@) == Some(Json::Array(orig)),
                items@ == all.skip(routers@.len() as int),
                forall|i: int| 0 <= i < routers@.len() ==> router_ok(#[trigger] all[i]),
                forall|i: int| 0 <= i < routers@.len() ==> router_is(#[trigger] all[i], routers@[i]),
            decreases items@.len(),
        {
            let ghost n = routers@.len() as int;
            assert(items@[0] == all[n]);
            let item = items.remove(0);
            assert(items@ =~= all.skip(n + 1));
            match RouterConfig::from_json(item) {
                Ok(x) => routers.push(x),
                Err(e) => {
                    assert(!router_ok(orig@[n]));
                    assert(!all_routers_ok(orig@));
                    return Err(e);
                },
            }
        }
        Ok(RouterConfigs { routers })
    }

    /// Decodes the router listing from the body text of a successful reply.
    pub fn decode(text: &str) -> (r: Result<RouterConfigs, Error>)
        ensures
            r is Ok <==> json_text_parses(text@) && configs_ok(json_of(text@)),
            r matches Ok(x) ==> configs_is(json_of(text@), x),
            r matches Err(e) ==> e is Decode,
    {
        match Json::parse(text) {
            Ok(j) => RouterConfigs::from_json(j),
            Err(m) => Err(Error::Decode(m)),
        }
    }
}

} // verus!
