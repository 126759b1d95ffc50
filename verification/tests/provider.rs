use weather::date::CalendarDate;
use weather::provider::{
    interpret_response, DayData, DummyProvider, Error, HttpEvent, Provider,
    VisualCrossingProvider,
};
use weather::report::Temperature;

fn day(temp: Temperature, conditions: &str, description: &str) -> DayData {
    DayData {
        temp,
        conditions: conditions.to_string(),
        description: description.to_string(),
    }
}

#[test]
fn get_weather() {
    let days = vec![day(
        Temperature::C(77),
        "Clear",
        "Clear conditions throughout the day.",
    )];
    let report = interpret_response(HttpEvent::Success(days)).unwrap();
    assert!(matches!(report.temperature, Temperature::C(77)));
    assert_eq!(
        report.condition,
        "Clear (Clear conditions throughout the day.)"
    );
}

#[test]
fn get_weather_invalid_key() {
    let event = HttpEvent::Failure(401, "No account found with API key 'SECRET'".to_string());
    let err = interpret_response(event).unwrap_err();
    assert!(matches!(err, Error::Auth));
}

#[test]
fn get_weather_invalid_location() {
    let body = "Invalid location found. Please check your location parameter".to_string();
    let err = interpret_response(HttpEvent::Failure(400, body.clone())).unwrap_err();
    assert!(matches!(err, Error::Api(value) if value == body));
}

#[test]
fn get_weather_invalid_date() {
    let body = "Invalid year requested. Years must be between 1950 and 2050".to_string();
    let err = interpret_response(HttpEvent::Failure(400, body.clone())).unwrap_err();
    assert!(matches!(err, Error::Api(value) if value == body));
}

#[test]
fn get_weather_server_error() {
    let err = interpret_response(HttpEvent::Failure(500, "status code 500".to_string()))
        .unwrap_err();
    assert!(matches!(err, Error::Other(_)));
}

#[test]
fn get_weather_broken_transport() {
    let err =
        interpret_response(HttpEvent::Broken("connection refused".to_string())).unwrap_err();
    assert!(matches!(err, Error::Other(cause) if cause == "connection refused"));
}

#[test]
fn get_weather_empty_days() {
    let err = interpret_response(HttpEvent::Success(Vec::new())).unwrap_err();
    assert!(matches!(err, Error::Api(value) if value == "no weather data in response"));
}

#[test]
fn get_weather_without_description() {
    let days = vec![day(Temperature::C(205), "Sunny", "")];
    let report = interpret_response(HttpEvent::Success(days)).unwrap();
    assert_eq!(report.condition, "Sunny");
}

#[test]
fn dummy_get_weather() {
    let date = CalendarDate::new(2023, 5, 1).unwrap();
    let report = DummyProvider::new().get_weather("Minsk", date).unwrap();
    assert!(matches!(report.temperature, Temperature::C(205)));
    assert_eq!(report.condition, "Sunny");
    assert_eq!(report.render(), "20.5C, Sunny");
}

#[test]
fn provider_names() {
    assert_eq!(DummyProvider::name(), "dummy");
    assert_eq!(VisualCrossingProvider::name(), "vc");
    assert_eq!(Provider::Dummy(DummyProvider::new()).name(), "dummy");
    assert_eq!(
        Provider::VisualCrossing(VisualCrossingProvider::new("k".into())).name(),
        "vc"
    );
}

#[test]
fn plan_request_shape() {
    let provider = VisualCrossingProvider::with_base_url("http://mock".to_string(), "SECRET".to_string());
    let date = CalendarDate::new(2023, 5, 1).unwrap();
    let plan = provider.plan_request("Minsk", date);
    assert_eq!(plan.url, "http://mock/Minsk/2023-05-01");
    let query: Vec<(String, String)> = plan.query;
    assert_eq!(query[0], ("key".to_string(), "SECRET".to_string()));
    assert_eq!(query[1], ("unitGroup".to_string(), "metric".to_string()));
    assert_eq!(query[2], ("include".to_string(), "days".to_string()));
    assert_eq!(
        query[3],
        (
            "elements".to_string(),
            "datetime,temp,conditions,description".to_string()
        )
    );
}

#[test]
fn plan_request_real_base_url() {
    let provider = VisualCrossingProvider::new("k".to_string());
    let date = CalendarDate::new(1900, 1, 1).unwrap();
    let plan = provider.plan_request("Minsk", date);
    assert_eq!(
        plan.url,
        "https://weather.visualcrossing.com/VisualCrossingWebServices/rest/services/timeline/Minsk/1900-01-01"
    );
}

#[test]
fn set_credential_on_network_provider() {
    let mut p = Provider::VisualCrossing(VisualCrossingProvider::new(String::new()));
    p.set_credential("fresh".to_string());
    match p {
        Provider::VisualCrossing(v) => assert_eq!(v.key().as_str(), "fresh"),
        _ => panic!("variant changed"),
    }
}

#[test]
fn temperature_render() {
    assert_eq!(Temperature::C(205).render(), "20.5C");
    assert_eq!(Temperature::C(77).render(), "7.7C");
    assert_eq!(Temperature::C(70).render(), "7C");
    assert_eq!(Temperature::C(0).render(), "0C");
    assert_eq!(Temperature::C(-5).render(), "-0.5C");
    assert_eq!(Temperature::C(-123).render(), "-12.3C");
}

#[test]
fn error_render() {
    assert_eq!(Error::Auth.render(), "authentication error");
    assert_eq!(
        Error::Api("bad location".to_string()).render(),
        "external API error: bad location"
    );
    assert_eq!(Error::Other("boom".to_string()).render(), "boom");
}

#[test]
fn date_parse_and_format() {
    let date = CalendarDate::parse("2023-05-01").unwrap();
    assert_eq!(date.year(), 2023);
    assert_eq!(date.month(), 5);
    assert_eq!(date.day(), 1);
    assert_eq!(date.format_iso(), "2023-05-01");

    assert!(CalendarDate::parse("2023-13-01").is_none());
    assert!(CalendarDate::parse("1900-02-29").is_none());
    assert!(CalendarDate::parse("2000-02-29").is_some());
    assert!(CalendarDate::parse("2023-5-1").is_none());
    assert!(CalendarDate::parse("not-a-date").is_none());
    assert!(CalendarDate::parse("").is_none());
}

#[test]
fn date_format_zero_padded() {
    let date = CalendarDate::new(1, 1, 1).unwrap();
    assert_eq!(date.format_iso(), "0001-01-01");
    let parsed = CalendarDate::parse("0001-01-01").unwrap();
    assert_eq!(parsed.year(), 1);
}
