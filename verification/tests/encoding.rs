use openweather_onecall::{
    Alert, FromJson, Json, Member, Number, OnecallResponse, Rain, Timestamp, ToJson, Weather,
};
use serde_json::Value;

const REPORT: &str = r#"{
  "lat": -33.87, "lon": 151.21, "timezone": "Australia/Sydney", "timezone_offset": 36000,
  "current": {
    "dt": 1684929490, "sunrise": 1684926645, "sunset": 1684977332, "temp": 292.55,
    "feels_like": 292.87, "pressure": 1014, "humidity": 89, "dew_point": 290.69, "uvi": 0.16,
    "clouds": 53, "visibility": 10000, "wind_speed": 3.13, "wind_deg": 93,
    "weather": [{"id": 803, "main": "Clouds", "description": "broken clouds", "icon": "04d"}],
    "alerts": [{"sender_name": "BOM", "event": "Gale", "start": -5, "end": 1684990000,
                "description": "wind", "tags": ["Wind", "Marine"]}]
  },
  "minutely": [{"dt": 1684929540, "precipitation": 0}],
  "hourly": [{
    "dt": 1684926000, "temp": 292.01, "feels_like": 292.33, "pressure": 1014, "humidity": 91,
    "dew_point": 290.51, "uvi": 0, "clouds": 54, "visibility": 10000, "wind_speed": 2.58,
    "wind_deg": 86, "wind_gust": 3.88,
    "weather": [{"id": 803, "main": "Clouds", "description": "broken clouds", "icon": "04n"}],
    "pop": 0.15, "rain": {"1h": 1.25}
  }],
  "daily": [{
    "dt": 1684951200, "sunrise": 1684926645, "sunset": 1684977332, "moonrise": 1684941060,
    "moonset": 1684905480, "moon_phase": 0.16,
    "temp": {"day": 299.03, "min": 290.69, "max": 300.35, "night": 291.45, "eve": 297.51,
             "morn": 292.55},
    "feels_like": {"day": 299.21, "night": 291.37, "eve": 297.86, "morn": 292.87},
    "pressure": 1016, "humidity": 59, "dew_point": 290.48, "wind_speed": 3.98, "wind_deg": 76,
    "weather": [{"id": 500, "main": "Rain", "description": "light rain", "icon": "10d"}],
    "clouds": 92, "pop": 0.47, "uvi": 9.23
  }]
}"#;

fn lower(json: &Json) -> Value {
    match json {
        Json::Null => Value::Null,
        Json::Bool(b) => Value::Bool(*b),
        Json::Number(Number::Unsigned(u)) => Value::from(*u),
        Json::Number(Number::Signed(i)) => Value::from(*i),
        Json::Number(Number::Double(bits)) => Value::from(f64::from_bits(*bits)),
        Json::Text(text) => Value::String(text.clone()),
        Json::List(items) => Value::Array(items.iter().map(lower).collect()),
        Json::Object(members) => Value::Object(
            members.iter().map(|member| (member.key.clone(), lower(&member.value))).collect(),
        ),
    }
}

fn keys(json: &Json) -> Vec<&str> {
    match json {
        Json::Object(members) => members.iter().map(|member| member.key.as_str()).collect(),
        _ => panic!("no object"),
    }
}

#[test]
fn a_decoded_report_comes_back_from_its_encoding() {
    let report = OnecallResponse::from_slice(REPORT.as_bytes()).unwrap();
    let again = OnecallResponse::from_json(&report.to_json()).unwrap();
    assert_eq!(again, report);
    assert_eq!(again.current.alerts.as_ref().unwrap()[0].tags, vec!["Wind", "Marine"]);
    assert_eq!(again.current.alerts.as_ref().unwrap()[0].start.seconds(), -5);
    assert!(again.daily[0].rain.is_none());
    assert_eq!(again.hourly[0].rain, Some(Rain { one_hour: Number::Double(1.25f64.to_bits()) }));
}

#[test]
fn a_decoded_report_comes_back_from_its_text() {
    let report = OnecallResponse::from_slice(REPORT.as_bytes()).unwrap();
    let text = serde_json::to_vec(&lower(&report.to_json())).unwrap();
    let again = OnecallResponse::from_slice(&text).unwrap();
    assert_eq!(again, report);
    let written: Value = serde_json::from_slice(&text).unwrap();
    let source: Value = serde_json::from_str(REPORT).unwrap();
    assert_eq!(written, source);
}

#[test]
fn an_absent_field_is_not_written() {
    let report = OnecallResponse::from_slice(REPORT.as_bytes()).unwrap();
    let json = report.to_json();
    assert_eq!(
        keys(&json),
        vec!["lat", "lon", "timezone", "timezone_offset", "current", "minutely", "hourly", "daily"]
    );
    assert!(json.get("current").unwrap().get("wind_gust").is_none());
    assert!(json.get("current").unwrap().get("rain").is_none());
    assert!(json.get("current").unwrap().get("alerts").is_some());
    let mut without = report.clone();
    without.minutely = None;
    assert_eq!(
        keys(&without.to_json()),
        vec!["lat", "lon", "timezone", "timezone_offset", "current", "hourly", "daily"]
    );
    assert_eq!(OnecallResponse::from_json(&without.to_json()).unwrap(), without);
}

#[test]
fn the_one_hour_volume_is_written_under_its_literal_key() {
    let rain = Rain { one_hour: Number::Unsigned(3) };
    let json = rain.to_json();
    assert_eq!(keys(&json), vec!["1h"]);
    assert!(matches!(json.get("1h"), Some(Json::Number(Number::Unsigned(3)))));
    assert_eq!(Rain::from_json(&json).unwrap(), rain);
}

#[test]
fn scalars_are_written_as_they_are_read() {
    assert!(matches!(7u32.to_json(), Json::Number(Number::Unsigned(7))));
    assert!(matches!(7i32.to_json(), Json::Number(Number::Unsigned(7))));
    assert!(matches!((-7i32).to_json(), Json::Number(Number::Signed(-7))));
    assert_eq!(i32::from_json(&i32::MIN.to_json()).unwrap(), i32::MIN);
    assert_eq!(u32::from_json(&u32::MAX.to_json()).unwrap(), u32::MAX);
    let before = Timestamp::from_seconds(-86400).unwrap();
    assert!(matches!(before.to_json(), Json::Number(Number::Signed(-86400))));
    assert_eq!(Timestamp::from_json(&before.to_json()).unwrap(), before);
    let text = String::from("light rain");
    assert!(matches!(text.to_json(), Json::Text(s) if s == "light rain"));
    let number = Number::Double(0.5f64.to_bits());
    assert_eq!(Number::from_json(&number.to_json()).unwrap(), number);
}

#[test]
fn the_first_of_two_members_with_one_key_is_found() {
    let json = Json::Object(vec![
        Member { key: String::from("id"), value: Json::Number(Number::Unsigned(1)) },
        Member { key: String::from("id"), value: Json::Number(Number::Unsigned(2)) },
    ]);
    assert!(matches!(json.get("id"), Some(Json::Number(Number::Unsigned(1)))));
    assert!(Json::Null.get("id").is_none());
    assert!(Json::List(vec![]).get("id").is_none());
}

#[test]
fn records_are_built_and_compared_field_by_field() {
    let weather = Weather {
        id: 800,
        main: String::from("Clear"),
        description: String::from("clear sky"),
        icon: String::from("01d"),
    };
    assert_eq!(Weather::from_json(&weather.to_json()).unwrap(), weather);
    let alert = Alert {
        sender_name: String::from("NWS"),
        event: String::from("Heat"),
        start: Timestamp::from_seconds(10).unwrap(),
        end: Timestamp::from_seconds(20).unwrap(),
        description: String::new(),
        tags: vec![],
    };
    let again = Alert::from_json(&alert.to_json()).unwrap();
    assert_eq!(again, alert);
    assert_ne!(again.start, again.end);
}
