use weather::codec::{decode, encode, DecodeError, ProviderRecord};
use weather::config::{encode_config, load_config, Config, ConfigDocument};
use weather::date::CalendarDate;
use weather::provider::{DummyProvider, Provider, VisualCrossingProvider};
use weather::registry::Registry;
use weather::report::Temperature;

#[test]
fn encode_dummy_record() {
    let record = encode(&Provider::Dummy(DummyProvider::new()));
    assert_eq!(record.tag, "dummy");
    assert!(record.fields.is_empty());
}

#[test]
fn encode_network_record() {
    let provider = VisualCrossingProvider::with_base_url("http://mock".into(), "SECRET".into());
    let record = encode(&Provider::VisualCrossing(provider));
    assert_eq!(record.tag, "vc");
    assert_eq!(
        record.fields,
        vec![
            ("base_url".to_string(), "http://mock".to_string()),
            ("key".to_string(), "SECRET".to_string()),
        ]
    );
}

#[test]
fn decode_restores_dummy() {
    let record = encode(&Provider::Dummy(DummyProvider::new()));
    match decode(&record).unwrap() {
        Provider::Dummy(_) => {}
        _ => panic!("decoded to the wrong kind"),
    }
}

#[test]
fn decode_restores_network_provider() {
    let provider = VisualCrossingProvider::with_base_url("http://mock".into(), "SECRET".into());
    let record = encode(&Provider::VisualCrossing(provider));
    match decode(&record).unwrap() {
        Provider::VisualCrossing(v) => {
            assert_eq!(v.base_url().as_str(), "http://mock");
            assert_eq!(v.key().as_str(), "SECRET");
        }
        _ => panic!("decoded to the wrong kind"),
    }
}

#[test]
fn decode_unknown_tag() {
    let record = ProviderRecord {
        tag: "nonesuch".to_string(),
        fields: Vec::new(),
    };
    assert_eq!(decode(&record).unwrap_err(), DecodeError::UnknownTag);
}

#[test]
fn decode_malformed_network_record() {
    let record = ProviderRecord {
        tag: "vc".to_string(),
        fields: vec![("base_url".to_string(), "http://mock".to_string())],
    };
    assert_eq!(decode(&record).unwrap_err(), DecodeError::MalformedData);
}

#[test]
fn registry_lists_providers_by_name() {
    let registry = Registry::new();
    let listed = registry.list();
    assert_eq!(
        listed,
        vec![
            ("dummy".to_string(), "Dummy provider".to_string()),
            ("vc".to_string(), "Visual Crossing weather provider".to_string()),
        ]
    );
}

#[test]
fn registry_resolves_known_names() {
    let registry = Registry::new();
    match registry.resolve("dummy").unwrap() {
        Provider::Dummy(_) => {}
        _ => panic!("resolved to the wrong kind"),
    }
    match registry.resolve("vc").unwrap() {
        Provider::VisualCrossing(v) => {
            assert_eq!(
                v.base_url().as_str(),
                "https://weather.visualcrossing.com/VisualCrossingWebServices/rest/services/timeline"
            );
            assert_eq!(v.key().as_str(), "");
        }
        _ => panic!("resolved to the wrong kind"),
    }
    assert!(registry.resolve("nonesuch").is_none());
}

#[test]
fn config_document_round_trip() {
    let mut config = Config::default();
    config.add("dummy".to_string(), Provider::Dummy(DummyProvider::new()));

    let document = encode_config(&config);
    let reloaded = load_config(Some(&document));

    let provider = reloaded.get_default().expect("default survives the round trip");
    let date = CalendarDate::new(2023, 5, 1).unwrap();
    let report = match provider {
        Provider::Dummy(d) => d.get_weather("Minsk", date).unwrap(),
        _ => panic!("restored to the wrong kind"),
    };
    assert!(matches!(report.temperature, Temperature::C(205)));
    assert_eq!(report.condition, "Sunny");
}

#[test]
fn config_document_round_trip_both_kinds() {
    let mut config = Config::default();
    config.add("dummy".to_string(), Provider::Dummy(DummyProvider::new()));
    config.add(
        "vc".to_string(),
        Provider::VisualCrossing(VisualCrossingProvider::new("SECRET".into())),
    );
    assert!(config.set_default("vc".to_string()));

    let document = encode_config(&config);
    assert_eq!(document.default, Some("vc".to_string()));
    let reloaded = load_config(Some(&document));

    assert_eq!(reloaded.provider_count(), 2);
    match reloaded.get_default() {
        Some(Provider::VisualCrossing(v)) => assert_eq!(v.key().as_str(), "SECRET"),
        _ => panic!("restored default has the wrong kind"),
    }
}

#[test]
fn load_config_from_absent_source() {
    let config = load_config(None);
    assert!(config.get_default().is_none());
    assert_eq!(config.provider_count(), 0);
}

#[test]
fn load_config_from_undecodable_document() {
    let document = ConfigDocument {
        default: Some("mystery".to_string()),
        providers: vec![(
            "mystery".to_string(),
            ProviderRecord {
                tag: "mystery".to_string(),
                fields: Vec::new(),
            },
        )],
    };
    let config = load_config(Some(&document));
    assert!(config.get_default().is_none());
    assert_eq!(config.provider_count(), 0);
}

#[test]
fn load_config_with_dangling_default() {
    let document = ConfigDocument {
        default: Some("gone".to_string()),
        providers: vec![(
            "dummy".to_string(),
            ProviderRecord {
                tag: "dummy".to_string(),
                fields: Vec::new(),
            },
        )],
    };
    let config = load_config(Some(&document));
    assert_eq!(config.provider_count(), 1);
    assert!(config.get_default().is_none());
}
