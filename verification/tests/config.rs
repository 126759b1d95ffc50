use weather::config::Config;
use weather::provider::{DummyProvider, Provider, VisualCrossingProvider};

#[test]
fn get_default_provider_from_empty_config() {
    let config = Config::default();

    assert!(config.get_default().is_none());
}

#[test]
fn add_single_provider() {
    let mut config = Config::default();
    config.add(
        DummyProvider::name().to_owned(),
        Provider::Dummy(DummyProvider::new()),
    );

    assert_eq!(
        config.default_name(),
        Some(&DummyProvider::name().to_owned())
    );
    assert_eq!(config.provider_count(), 1);
}

#[test]
fn add_multiple_providers() {
    let mut config = Config::default();
    config.add(
        DummyProvider::name().to_owned(),
        Provider::Dummy(DummyProvider::new()),
    );
    config.add(
        VisualCrossingProvider::name().to_owned(),
        Provider::VisualCrossing(VisualCrossingProvider::new("SECRET".into())),
    );

    assert_eq!(
        config.default_name(),
        Some(&DummyProvider::name().to_owned())
    );
    assert_eq!(config.provider_count(), 2);
}

#[test]
fn set_default_provider() {
    let mut config = Config::default();
    config.add(
        DummyProvider::name().to_owned(),
        Provider::Dummy(DummyProvider::new()),
    );
    config.add(
        VisualCrossingProvider::name().to_owned(),
        Provider::VisualCrossing(VisualCrossingProvider::new("SECRET".into())),
    );

    let name = VisualCrossingProvider::name().to_owned();
    assert!(config.set_default(name.clone()));
    assert_eq!(config.default_name(), Some(&name));
}

#[test]
fn set_default_provider_wrong_name() {
    let mut config = Config::default();

    assert!(!config.set_default("".to_string()));
}

#[test]
fn replace_provider_keeps_count_and_default() {
    let mut config = Config::default();
    config.add(
        VisualCrossingProvider::name().to_owned(),
        Provider::VisualCrossing(VisualCrossingProvider::new("first".into())),
    );
    config.add(
        VisualCrossingProvider::name().to_owned(),
        Provider::VisualCrossing(VisualCrossingProvider::new("second".into())),
    );

    assert_eq!(config.provider_count(), 1);
    assert_eq!(
        config.default_name(),
        Some(&VisualCrossingProvider::name().to_owned())
    );
    match config.get_default() {
        Some(Provider::VisualCrossing(v)) => assert_eq!(v.key().as_str(), "second"),
        _ => panic!("expected the replaced provider"),
    }
}

#[test]
fn get_default_returns_added_instance() {
    let mut config = Config::default();
    config.add("dummy".to_string(), Provider::Dummy(DummyProvider::new()));

    match config.get_default() {
        Some(Provider::Dummy(_)) => {}
        _ => panic!("expected the dummy provider as default"),
    }
}

#[test]
fn set_default_then_get_default() {
    let mut config = Config::default();
    config.add("dummy".to_string(), Provider::Dummy(DummyProvider::new()));
    config.add(
        "vc".to_string(),
        Provider::VisualCrossing(VisualCrossingProvider::new("SECRET".into())),
    );

    assert!(config.set_default("vc".to_string()));
    match config.get_default() {
        Some(Provider::VisualCrossing(v)) => assert_eq!(v.key().as_str(), "SECRET"),
        _ => panic!("expected the network provider as default"),
    }
}
