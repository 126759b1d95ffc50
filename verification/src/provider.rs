//! The provider contract: the error taxonomy every backend shares, the
//! two concrete providers, and the closed set of provider kinds as one
//! tagged union, so that a stored instance can be restored with its
//! original concrete behaviour.

use vstd::prelude::*;
use crate::date::{iso_chars, CalendarDate};
use crate::report::{temp_deci, Temperature, WeatherReport};

verus! {

/// The error taxonomy of a weather query.
#[derive(Debug)]
pub enum Error {
    /// The backend rejected the credential; the user must reconfigure.
    Auth,
    /// The backend explicitly rejected the request; the message is
    /// surfaced verbatim.
    Api(String),
    /// Any other failure; the cause is opaque but displayable.
    Other(String),
}

/// The rendering of an error.
pub open spec fn error_chars(e: &Error) -> Seq<char> {
    match e {
        Error::Auth => "authentication error"@,
        Error::Api(m) => "external API error: "@ + m@,
        Error::Other(m) => m@,
    }
}

impl Error {
    /// Renders the error for display.
    pub fn render(&self) -> (r: String)
        ensures
            r@ == error_chars(self),
    {
        match self {
            Error::Auth => String::from_str("authentication error"),
            Error::Api(m) => {
                let mut s = String::from_str("external API error: ");
                s.append(m.as_str());
                s
            },
            Error::Other(m) => m.clone(),
        }
    }
}

/// The trivial reference provider: every query succeeds with the same
/// report.
#[derive(Debug)]
pub struct DummyProvider {}

impl DummyProvider {
    pub fn new() -> (r: Self) {
        Self {  }
    }

    /// The short name of the provider type, also its serialization tag.
    pub fn name() -> (r: &'static str)
        ensures
            r@ == "dummy"@,
    {
        "dummy"
    }

    /// The one-line description of the provider type.
    pub fn description() -> (r: &'static str)
        ensures
            r@ == "Dummy provider"@,
    {
        "Dummy provider"
    }

    /// Returns the fixed report: 20.5 degrees Celsius, sunny, for any
    /// location and date.
    pub fn get_weather(&self, _location: &str, _date: CalendarDate) -> (r: Result<
        WeatherReport,
        Error,
    >)
        ensures
            r matches Ok(rep) && temp_deci(rep.temperature) == 205 && rep.condition@ == "Sunny"@,
    {
        Ok(WeatherReport { temperature: Temperature::C(205), condition: String::from_str("Sunny") })
    }
}

/// The base address of the Visual Crossing timeline service.
pub open spec fn vc_base_url() -> Seq<char> {
    "https://weather.visualcrossing.com/VisualCrossingWebServices/rest/services/timeline"@
}

/// The HTTP-backed provider: holds the service address and the stored
/// credential. The network call itself lives outside the library; this
/// type contributes the request plan and the response interpretation.
#[derive(Debug)]
pub struct VisualCrossingProvider {
    base_url: String,
    key: String,
}

impl VisualCrossingProvider {
    /// The service address of this instance.
    pub closed spec fn base_url_spec(&self) -> Seq<char> {
        self.base_url@
    }

    /// The stored credential of this instance.
    pub closed spec fn key_spec(&self) -> Seq<char> {
        self.key@
    }

    /// Builds an instance against the real service address.
    pub fn new(key: String) -> (r: Self)
        ensures
            r.base_url_spec() == vc_base_url(),
            r.key_spec() == key@,
    {
        Self {
            base_url: String::from_str(
                "https://weather.visualcrossing.com/VisualCrossingWebServices/rest/services/timeline",
            ),
            key,
        }
    }

    /// Builds an instance against a chosen service address.
    pub fn with_base_url(base_url: String, key: String) -> (r: Self)
        ensures
            r.base_url_spec() == base_url@,
            r.key_spec() == key@,
    {
        Self { base_url, key }
    }

    /// The short name of the provider type, also its serialization tag.
    pub fn name() -> (r: &'static str)
        ensures
            r@ == "vc"@,
    {
        "vc"
    }

    /// The one-line description of the provider type.
    pub fn description() -> (r: &'static str)
        ensures
            r@ == "Visual Crossing weather provider"@,
    {
        "Visual Crossing weather provider"
    }

    /// The service address as a plain value.
    pub fn base_url(&self) -> (r: &String)
        ensures
            r@ == self.base_url_spec(),
    {
        &self.base_url
    }

    /// The stored credential as a plain value.
    pub fn key(&self) -> (r: &String)
        ensures
            r@ == self.key_spec(),
    {
        &self.key
    }

    /// Replaces the stored credential.
    pub fn set_key(&mut self, key: String)
        ensures
            final(self).base_url_spec() == old(self).base_url_spec(),
            final(self).key_spec() == key@,
    {
        self.key = key;
    }

    /// The request that a query for a location and date issues: the
    /// timeline path with both as segments, and the fixed query options
    /// beside the credential.
    pub fn plan_request(&self, location: &str, date: CalendarDate) -> (r: HttpRequestPlan)
        ensures
            r.url@ == self.base_url_spec() + seq!['/'] + location@ + seq!['/'] + iso_chars(
                date.y(),
                date.m(),
                date.d(),
            ),
            r.query@.len() == 4,
            r.query@[0].0@ == "key"@ && r.query@[0].1@ == self.key_spec(),
            r.query@[1].0@ == "unitGroup"@ && r.query@[1].1@ == "metric"@,
            r.query@[2].0@ == "include"@ && r.query@[2].1@ == "days"@,
            r.query@[3].0@ == "elements"@ && r.query@[3].1@
                == "datetime,temp,conditions,description"@,
    {
        let mut url = self.base_url.clone();
        url.append("/");
        url.append(location);
        url.append("/");
        let iso = date.format_iso();
        url.append(iso.as_str());
        let mut query: Vec<(String, String)> = Vec::new();
        query.push((String::from_str("key"), self.key.clone()));
        query.push((String::from_str("unitGroup"), String::from_str("metric")));
        query.push((String::from_str("include"), String::from_str("days")));
        query.push(
            (
                String::from_str("elements"),
                String::from_str("datetime,temp,conditions,description"),
            ),
        );
        proof {
            reveal_strlit("/");
            assert(url@ =~= self.base_url_spec() + seq!['/'] + location@ + seq!['/'] + iso_chars(
                date.y(),
                date.m(),
                date.d(),
            ));
        }
        HttpRequestPlan { url, query }
    }
}

/// One planned HTTP GET: the full path and the query parameters.
pub struct HttpRequestPlan {
    pub url: String,
    pub query: Vec<(String, String)>,
}

/// Any concrete provider, as one value of a closed union. The variant
/// tag plays the role the provider contract gives to the type: it fixes
/// the name and the behaviour.
#[derive(Debug)]
pub enum Provider {
    Dummy(DummyProvider),
    VisualCrossing(VisualCrossingProvider),
}

/// The mathematical model of a provider: its kind and the plain values
/// of its fields.
#[verifier::ext_equal]
pub enum ProviderModel {
    Dummy,
    VisualCrossing { base_url: Seq<char>, key: Seq<char> },
}

impl View for Provider {
    type V = ProviderModel;

    open spec fn view(&self) -> ProviderModel {
        match self {
            Provider::Dummy(_) => ProviderModel::Dummy,
            Provider::VisualCrossing(v) => ProviderModel::VisualCrossing {
                base_url: v.base_url_spec(),
                key: v.key_spec(),
            },
        }
    }
}

/// The tag of a provider model: the short name of its concrete type.
pub open spec fn provider_tag(m: ProviderModel) -> Seq<char> {
    match m {
        ProviderModel::Dummy => "dummy"@,
        ProviderModel::VisualCrossing { .. } => "vc"@,
    }
}

impl Provider {
    /// The short name of the concrete provider type.
    pub fn name(&self) -> (r: &'static str)
        ensures
            r@ == provider_tag(self@),
    {
        match self {
            Provider::Dummy(_) => DummyProvider::name(),
            Provider::VisualCrossing(_) => VisualCrossingProvider::name(),
        }
    }

    /// Replaces the stored credential on a provider that holds one;
    /// leaves a provider without credentials unchanged.
    pub fn set_credential(&mut self, key: String)
        ensures
            final(self)@ == credential_set(old(self)@, key@),
    {
        match self {
            Provider::Dummy(_) => {},
            Provider::VisualCrossing(v) => v.set_key(key),
        }
    }
}

/// The model of a provider after its credential is replaced.
pub open spec fn credential_set(m: ProviderModel, key: Seq<char>) -> ProviderModel {
    match m {
        ProviderModel::Dummy => ProviderModel::Dummy,
        ProviderModel::VisualCrossing { base_url, .. } => ProviderModel::VisualCrossing {
            base_url,
            key,
        },
    }
}

/// One day of weather data handed back by the Visual Crossing service,
/// with the temperature already carried as tenths of a degree.
#[derive(Debug)]
pub struct DayData {
    pub temp: Temperature,
    pub conditions: String,
    pub description: String,
}

/// The condition text of a report built from one day of data: the
/// conditions alone when the description is empty, else the conditions
/// with the description in parentheses.
pub open spec fn combined_condition(conditions: Seq<char>, description: Seq<char>) -> Seq<char> {
    if description.len() == 0 {
        conditions
    } else {
        conditions + seq![' ', '('] + description + seq![')']
    }
}

/// Builds the report from the day list of a successful response: the
/// first day's temperature and condition text, or an explicit error on
/// an empty list.
pub fn report_from_days(days: Vec<DayData>) -> (r: Result<WeatherReport, Error>)
    ensures
        days@.len() == 0 ==> (r matches Err(e) && e matches Error::Api(m) && m@
            == "no weather data in response"@),
        days@.len() > 0 ==> (r matches Ok(rep) && rep.temperature == days@[0].temp
            && rep.condition@ == combined_condition(days@[0].conditions@, days@[0].description@)),
{
    let mut days = days;
    let ghost days0 = days@;
    if days.len() == 0 {
        return Err(Error::Api(String::from_str("no weather data in response")));
    }
    let day = days.remove(0);
    let condition = if day.description.as_str().unicode_len() == 0 {
        day.conditions
    } else {
        let mut c = day.conditions;
        c.append(" (");
        c.append(day.description.as_str());
        c.append(")");
        proof {
            reveal_strlit(" (");
            reveal_strlit(")");
        }
        c
    };
    proof {
        assert(condition@ =~= combined_condition(days0[0].conditions@, days0[0].description@));
    }
    Ok(WeatherReport { temperature: day.temp, condition })
}

/// What came back from one HTTP exchange with a weather service, as the
/// library sees it: the decision logic below is a function of this value
/// alone, whatever the network did.
pub enum HttpEvent {
    /// A success status whose body parsed into a day list.
    Success(Vec<DayData>),
    /// An error status, with the body text for a rejected request or a
    /// description of the failure.
    Failure(u16, String),
    /// A transport failure or an unreadable body, with a description.
    Broken(String),
}

/// Maps the outcome of one HTTP exchange to a report or an error:
/// status 401 means the credential was rejected, status 400 surfaces the
/// body verbatim, any other failure is opaque, and a success builds the
/// report from its day list.
pub fn interpret_response(event: HttpEvent) -> (r: Result<WeatherReport, Error>)
    ensures
        event matches HttpEvent::Success(days) ==> {
            &&& days@.len() == 0 ==> (r matches Err(e) && e matches Error::Api(m) && m@
                == "no weather data in response"@)
            &&& days@.len() > 0 ==> (r matches Ok(rep) && rep.temperature == days@[0].temp
                && rep.condition@ == combined_condition(
                days@[0].conditions@,
                days@[0].description@,
            ))
        },
        event matches HttpEvent::Failure(code, body) ==> {
            &&& code == 401 ==> (r matches Err(e) && e is Auth)
            &&& code == 400 ==> (r matches Err(e) && e matches Error::Api(m) && m@ == body@)
            &&& code != 400 && code != 401 ==> (r matches Err(e) && e matches Error::Other(m)
                && m@ == body@)
        },
        event matches HttpEvent::Broken(cause) ==> (r matches Err(e) && e matches Error::Other(m)
            && m@ == cause@),
{
    match event {
        HttpEvent::Success(days) => report_from_days(days),
        HttpEvent::Failure(code, body) => {
            if code == 401 {
                Err(Error::Auth)
            } else if code == 400 {
                Err(Error::Api(body))
            } else {
                Err(Error::Other(body))
            }
        },
        HttpEvent::Broken(cause) => Err(Error::Other(cause)),
    }
}

} // verus!
