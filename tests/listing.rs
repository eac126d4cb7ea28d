use glide_rs::json::Json;
use glide_rs::lang::list::{ProviderConfig, RouterConfigs};
use glide_rs::Error;

const LISTING: &str = r#"{
  "routers": [{
    "enabled": true,
    "models": [{
      "id": "openai-boring",
      "enabled": true,
      "weight": 1,
      "error_budget": "100/1s",
      "client": {"timeout": 10000},
      "latency_config": {"decay": 0.06, "update_interval": "30s", "warmup_samples": 3},
      "openai": {"model": "gpt-3.5-turbo", "base_url": "https://api.openai.com/v1"}
    }],
    "retry": {"base_multiplier": 2, "max_delay": 5000, "min_delay": 2000, "max_retries": 3},
    "routers": "myrouter",
    "strategy": "priority"
  }]
}"#;

#[test]
fn listing_decodes() {
    let list = RouterConfigs::decode(LISTING).unwrap();
    assert_eq!(list.routers.len(), 1);
    let router = &list.routers[0];
    assert_eq!(router.enabled, Some(true));
    assert_eq!(router.routers.as_deref(), Some("myrouter"));
    assert_eq!(router.strategy.as_deref(), Some("priority"));
    let retry = router.retry.unwrap();
    assert_eq!(retry.base_multiplier, Some(2));
    assert_eq!(retry.max_delay, Some(5000));
    assert_eq!(retry.min_delay, Some(2000));
    assert_eq!(retry.max_retries, Some(3));
    let model = &router.models.as_ref().unwrap()[0];
    assert_eq!(model.id.as_deref(), Some("openai-boring"));
    assert_eq!(model.enabled, Some(true));
    assert_eq!(model.weight, Some(1));
    assert_eq!(model.error_budget.as_deref(), Some("100/1s"));
    assert_eq!(model.client.unwrap().timeout, Some(10000));
    let latency = model.latency_config.as_ref().unwrap();
    assert!(matches!(&latency.decay, Some(Json::Number(n)) if n == "0.06"));
    assert_eq!(latency.update_interval.as_deref(), Some("30s"));
    assert_eq!(latency.warmup_samples, Some(3));
    match &model.config {
        Some(ProviderConfig::OpenAi(params)) => {
            assert!(matches!(params.get("model"), Some(Json::Str(m)) if m == "gpt-3.5-turbo"));
        }
        other => panic!("unexpected {other:?}"),
    }
}

#[test]
fn empty_router_decodes() {
    let list = RouterConfigs::decode(r#"{"routers": [{}, {"strategy": null}]}"#).unwrap();
    assert_eq!(list.routers.len(), 2);
    for router in &list.routers {
        assert!(router.enabled.is_none());
        assert!(router.models.is_none());
        assert!(router.retry.is_none());
        assert!(router.routers.is_none());
        assert!(router.strategy.is_none());
    }
}

#[test]
fn routers_keep_their_order() {
    let list = RouterConfigs::decode(
        r#"{"routers": [{"routers": "a"}, {"routers": "b"}, {"routers": "c"}]}"#,
    )
    .unwrap();
    let names: Vec<_> = list.routers.iter().map(|r| r.routers.clone().unwrap()).collect();
    assert_eq!(names, ["a", "b", "c"]);
}

#[test]
fn partial_retry_decodes() {
    let list = RouterConfigs::decode(r#"{"routers": [{"retry": {"max_retries": 2}}]}"#).unwrap();
    let retry = list.routers[0].retry.unwrap();
    assert_eq!(retry.max_retries, Some(2));
    assert!(retry.base_multiplier.is_none());
}

#[test]
fn empty_model_decodes() {
    let list = RouterConfigs::decode(r#"{"routers": [{"models": [{}]}]}"#).unwrap();
    let model = &list.routers[0].models.as_ref().unwrap()[0];
    assert!(model.id.is_none());
    assert!(model.enabled.is_none());
    assert!(model.config.is_none());
}

#[test]
fn optional_model_members_may_be_null() {
    let text = r#"{"routers": [{"models": [
        {"id": "m", "enabled": false, "client": null, "latency_config": null, "ollama": {}}
    ]}]}"#;
    let list = RouterConfigs::decode(text).unwrap();
    let model = &list.routers[0].models.as_ref().unwrap()[0];
    assert!(model.weight.is_none());
    assert!(model.client.is_none());
    assert!(model.latency_config.is_none());
    assert!(matches!(model.config, Some(ProviderConfig::Ollama(Json::Object(_)))));
}

#[test]
fn unknown_provider_is_kept() {
    let text = r#"{"routers": [{"models": [{"id": "m", "mistral": {"model": "small"}}]}]}"#;
    let list = RouterConfigs::decode(text).unwrap();
    match &list.routers[0].models.as_ref().unwrap()[0].config {
        Some(ProviderConfig::Other(tag, Json::Object(fs))) => {
            assert_eq!(tag, "mistral");
            assert_eq!(fs.len(), 1);
        }
        other => panic!("unexpected {other:?}"),
    }
}

#[test]
fn integer_decay_is_kept() {
    let text = r#"{"routers": [{"models": [{"latency_config": {"decay": 1}, "cohere": null}]}]}"#;
    let list = RouterConfigs::decode(text).unwrap();
    let model = &list.routers[0].models.as_ref().unwrap()[0];
    assert!(matches!(&model.latency_config.as_ref().unwrap().decay, Some(Json::Number(n)) if n == "1"));
    assert!(matches!(model.config, Some(ProviderConfig::Cohere(Json::Null))));
}

#[test]
fn first_provider_member_is_taken() {
    let text = r#"{"routers": [{"models": [{"id": "m", "openai": 1, "anthropic": 2}]}]}"#;
    let list = RouterConfigs::decode(text).unwrap();
    let model = &list.routers[0].models.as_ref().unwrap()[0];
    assert!(matches!(&model.config, Some(ProviderConfig::Anthropic(Json::Number(n))) if n == "2"));
}

#[test]
fn empty_listing_decodes() {
    assert_eq!(RouterConfigs::decode(r#"{"routers": []}"#).unwrap().routers.len(), 0);
}

#[test]
fn malformed_listings_are_decode_errors() {
    for text in [
        "",
        "[]",
        "{}",
        r#"{"routers": {}}"#,
        r#"{"routers": [1]}"#,
        r#"{"routers": [{"enabled": "yes"}]}"#,
        r#"{"routers": [{"models": {}}]}"#,
        r#"{"routers": [{"models": [7]}]}"#,
        r#"{"routers": [{"retry": {"max_retries": 3000000000}}]}"#,
        r#"{"routers": [{"retry": 5}]}"#,
        r#"{"routers": [{"models": [{"weight": "heavy"}]}]}"#,
        r#"{"routers": [{"models": [{"latency_config": {"decay": "fast"}}]}]}"#,
    ] {
        assert!(matches!(RouterConfigs::decode(text), Err(Error::Decode(_))), "{text}");
    }
}
