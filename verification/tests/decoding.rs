use chrono::{TimeZone, Utc};
use openweather_onecall::{
    ErrorKind, Fault, FromJson, Json, Number, OnecallError, OnecallResponse, Rain, SchemaError,
    Step, Timestamp,
};
use serde_json::Value;

const SAMPLE: &str = r#"{
  "lat": 33.44,
  "lon": -94.04,
  "timezone": "America/Chicago",
  "timezone_offset": -18000,
  "current": {
    "dt": 1618317040,
    "sunrise": 1618282134,
    "sunset": 1618333901,
    "temp": 284.07,
    "feels_like": 282.84,
    "pressure": 1019,
    "humidity": 62,
    "dew_point": 277.08,
    "uvi": 0.89,
    "clouds": 0,
    "visibility": 10000,
    "wind_speed": 6,
    "wind_deg": 300,
    "wind_gust": 8.2,
    "weather": [
      {"id": 500, "main": "Rain", "description": "light rain", "icon": "10d"}
    ],
    "rain": {"1h": 0.21}
  },
  "minutely": [
    {"dt": 1618317060, "precipitation": 0.205},
    {"dt": 1618317120, "precipitation": 0}
  ],
  "hourly": [
    {
      "dt": 1618315200,
      "temp": 282.58,
      "feels_like": 280.4,
      "pressure": 1019,
      "humidity": 68,
      "dew_point": 276.98,
      "uvi": 1.4,
      "clouds": 19,
      "visibility": 306,
      "wind_speed": 4.12,
      "wind_deg": 296,
      "wind_gust": 7.33,
      "weather": [
        {"id": 801, "main": "Clouds", "description": "few clouds", "icon": "02d"}
      ],
      "pop": 0
    },
    {
      "dt": 1618318800,
      "temp": 283.11,
      "feels_like": 281.02,
      "pressure": 1018,
      "humidity": 66,
      "dew_point": 277.03,
      "uvi": 1.1,
      "clouds": 75,
      "visibility": 10000,
      "wind_speed": 4.5,
      "wind_deg": 290,
      "weather": [
        {"id": 500, "main": "Rain", "description": "light rain", "icon": "10d"},
        {"id": 701, "main": "Mist", "description": "mist", "icon": "50d"}
      ],
      "pop": 0.35,
      "rain": {"1h": 0.4}
    }
  ],
  "daily": [
    {
      "dt": 1618308000,
      "sunrise": 1618282134,
      "sunset": 1618333901,
      "moonrise": 1618284960,
      "moonset": 1618339740,
      "moon_phase": 0.04,
      "temp": {
        "day": 279.79,
        "min": 275.09,
        "max": 284.07,
        "night": 275.09,
        "eve": 279.21,
        "morn": 278.49
      },
      "feels_like": {"day": 277.59, "night": 276.27, "eve": 276.49, "morn": 276.27},
      "pressure": 1020,
      "humidity": 81,
      "dew_point": 276.77,
      "wind_speed": 3.06,
      "wind_deg": 294,
      "wind_gust": 5.5,
      "weather": [
        {"id": 500, "main": "Rain", "description": "light rain", "icon": "10d"}
      ],
      "clouds": 56,
      "pop": 0.2,
      "rain": 0.62,
      "uvi": 1.93
    }
  ],
  "alerts": [
    {"sender_name": "NWS", "event": "Flood Watch", "start": 1618300000, "end": 1618400000,
     "description": "...", "tags": ["Flood"]}
  ]
}"#;

fn single(number: Number) -> f32 {
    match number {
        Number::Unsigned(u) => u as f32,
        Number::Signed(i) => i as f32,
        Number::Double(bits) => f64::from_bits(bits) as f32,
    }
}

fn seconds(instant: Timestamp) -> i64 {
    instant.seconds()
}

fn sample() -> Value {
    serde_json::from_str(SAMPLE).unwrap()
}

fn decode(document: &Value) -> Result<OnecallResponse, OnecallError> {
    OnecallResponse::from_slice(&serde_json::to_vec(document).unwrap())
}

fn schema_error(result: Result<OnecallResponse, OnecallError>) -> SchemaError {
    match result {
        Err(OnecallError::Schema(error)) => error,
        other => panic!("no schema error: {:?}", other.map(|_| ())),
    }
}

fn path(error: &SchemaError) -> Vec<String> {
    error
        .path
        .iter()
        .map(|step| match step {
            Step::Key(key) => key.clone(),
            Step::Index(index) => format!("[{}]", index),
        })
        .collect()
}

#[test]
fn deserialize_onecall_response() {
    let _response: OnecallResponse = OnecallResponse::from_slice(SAMPLE.as_bytes()).unwrap();
}

#[test]
fn sample_decodes_to_its_values() {
    let report = OnecallResponse::from_slice(SAMPLE.as_bytes()).unwrap();
    assert_eq!(single(report.lat), 33.44);
    assert_eq!(single(report.lon), -94.04);
    assert_eq!(report.timezone, "America/Chicago");
    assert_eq!(report.timezone_offset, -18000);

    let current = &report.current;
    assert_eq!(seconds(current.dt), 1618317040);
    assert_eq!(seconds(current.sunrise), 1618282134);
    assert_eq!(seconds(current.sunset), 1618333901);
    assert_eq!(single(current.temp), 284.07);
    assert_eq!(single(current.feels_like), 282.84);
    assert_eq!(current.pressure, 1019);
    assert_eq!(current.humidity, 62);
    assert_eq!(single(current.dew_point), 277.08);
    assert_eq!(single(current.uvi), 0.89);
    assert_eq!(current.clouds, 0);
    assert_eq!(current.visibility, 10000);
    assert_eq!(current.wind_speed, Number::Unsigned(6));
    assert_eq!(single(current.wind_speed), 6.0);
    assert_eq!(current.wind_deg, 300);
    assert_eq!(current.wind_gust.map(single), Some(8.2));
    assert_eq!(current.weather.len(), 1);
    assert_eq!(current.weather[0].id, 500);
    assert_eq!(current.weather[0].main, "Rain");
    assert_eq!(current.weather[0].description, "light rain");
    assert_eq!(current.weather[0].icon, "10d");
    assert_eq!(current.rain.as_ref().map(|rain| single(rain.one_hour)), Some(0.21));
    assert!(current.alerts.is_none());

    let minutely = report.minutely.as_ref().unwrap();
    assert_eq!(minutely.len(), 2);
    assert_eq!(seconds(minutely[0].dt), 1618317060);
    assert_eq!(single(minutely[0].precipitation), 0.205);
    assert_eq!(seconds(minutely[1].dt), 1618317120);
    assert_eq!(single(minutely[1].precipitation), 0.0);

    assert_eq!(report.hourly.len(), 2);
    let hour = &report.hourly[0];
    assert_eq!(seconds(hour.dt), 1618315200);
    assert_eq!(single(hour.temp), 282.58);
    assert_eq!(single(hour.feels_like), 280.4);
    assert_eq!(hour.pressure, 1019);
    assert_eq!(hour.humidity, 68);
    assert_eq!(single(hour.dew_point), 276.98);
    assert_eq!(single(hour.uvi), 1.4);
    assert_eq!(hour.clouds, 19);
    assert_eq!(hour.visibility, 306);
    assert_eq!(single(hour.wind_speed), 4.12);
    assert_eq!(hour.wind_deg, 296);
    assert_eq!(hour.wind_gust.map(single), Some(7.33));
    assert_eq!(hour.weather[0].id, 801);
    assert_eq!(single(hour.pop), 0.0);
    assert!(hour.rain.is_none());
    let hour = &report.hourly[1];
    assert_eq!(hour.wind_gust, None);
    assert_eq!(hour.weather.len(), 2);
    assert_eq!(hour.weather[1].main, "Mist");
    assert_eq!(single(hour.pop), 0.35);
    assert_eq!(hour.rain.as_ref().map(|rain| single(rain.one_hour)), Some(0.4));

    assert_eq!(report.daily.len(), 1);
    let day = &report.daily[0];
    assert_eq!(seconds(day.dt), 1618308000);
    assert_eq!(seconds(day.sunrise), 1618282134);
    assert_eq!(seconds(day.sunset), 1618333901);
    assert_eq!(seconds(day.moonrise), 1618284960);
    assert_eq!(seconds(day.moonset), 1618339740);
    assert_eq!(single(day.moon_phase), 0.04);
    assert_eq!(single(day.temp.day), 279.79);
    assert_eq!(single(day.temp.min), 275.09);
    assert_eq!(single(day.temp.max), 284.07);
    assert_eq!(single(day.temp.night), 275.09);
    assert_eq!(single(day.temp.eve), 279.21);
    assert_eq!(single(day.temp.morn), 278.49);
    assert_eq!(single(day.feels_like.day), 277.59);
    assert_eq!(single(day.feels_like.night), 276.27);
    assert_eq!(single(day.feels_like.eve), 276.49);
    assert_eq!(single(day.feels_like.morn), 276.27);
    assert_eq!(day.pressure, 1020);
    assert_eq!(day.humidity, 81);
    assert_eq!(single(day.dew_point), 276.77);
    assert_eq!(single(day.wind_speed), 3.06);
    assert_eq!(day.wind_deg, 294);
    assert_eq!(day.wind_gust.map(single), Some(5.5));
    assert_eq!(day.weather[0].icon, "10d");
    assert_eq!(day.clouds, 56);
    assert_eq!(single(day.pop), 0.2);
    assert_eq!(day.rain.map(single), Some(0.62));
    assert_eq!(single(day.uvi), 1.93);
}

#[test]
fn timestamps_are_instants_of_utc() {
    let report = OnecallResponse::from_slice(SAMPLE.as_bytes()).unwrap();
    assert_eq!(
        report.current.dt.naive_utc().and_utc(),
        Utc.with_ymd_and_hms(2021, 4, 13, 12, 30, 40).unwrap()
    );
    assert_eq!(
        report.daily[0].moonset.naive_utc().and_utc(),
        Utc.with_ymd_and_hms(2021, 4, 13, 18, 49, 0).unwrap()
    );
}

#[test]
fn minutely_may_be_absent() {
    let mut document = sample();
    document.as_object_mut().unwrap().remove("minutely");
    let report = decode(&document).unwrap();
    assert!(report.minutely.is_none());
    let whole = OnecallResponse::from_slice(SAMPLE.as_bytes()).unwrap();
    assert_eq!(report.timezone, whole.timezone);
    assert_eq!(report.lat, whole.lat);
    assert_eq!(report.current.dt, whole.current.dt);
    assert_eq!(report.hourly.len(), whole.hourly.len());
    assert_eq!(report.daily.len(), whole.daily.len());
    assert_eq!(report.daily[0].temp.max, whole.daily[0].temp.max);
}

#[test]
fn minutely_may_be_null() {
    let mut document = sample();
    document["minutely"] = Value::Null;
    assert!(decode(&document).unwrap().minutely.is_none());
}

#[test]
fn current_wind_gust_may_be_absent() {
    let mut document = sample();
    document["current"].as_object_mut().unwrap().remove("wind_gust");
    let report = decode(&document).unwrap();
    assert_eq!(report.current.wind_gust, None);
    assert_eq!(report.current.wind_deg, 300);
    assert_eq!(report.current.weather.len(), 1);
}

#[test]
fn daily_wind_gust_may_be_absent() {
    let mut document = sample();
    document["daily"][0].as_object_mut().unwrap().remove("wind_gust");
    let report = decode(&document).unwrap();
    assert_eq!(report.daily[0].wind_gust, None);
}

#[test]
fn daily_is_required() {
    let mut document = sample();
    document.as_object_mut().unwrap().remove("daily");
    let result = decode(&document);
    assert_eq!(result.as_ref().err().map(|error| error.kind()), Some(ErrorKind::Parse));
    let error = schema_error(result);
    assert_eq!(error.fault, Fault::Missing);
    assert_eq!(path(&error), vec!["daily"]);
}

#[test]
fn every_required_member_is_required() {
    for key in ["lat", "lon", "timezone", "timezone_offset", "current", "hourly", "daily"] {
        let mut document = sample();
        document.as_object_mut().unwrap().remove(key);
        let error = schema_error(decode(&document));
        assert_eq!(error.fault, Fault::Missing);
        assert_eq!(path(&error), vec![key]);
    }
}

#[test]
fn one_hour_is_read_from_its_literal_key() {
    let json = Json::read(br#"{"1h": 0.25, "one_hour": 7}"#).unwrap();
    let rain = Rain::from_json(&json).unwrap();
    assert_eq!(single(rain.one_hour), 0.25);
    let json = Json::read(br#"{"one_hour": 7}"#).unwrap();
    let error = Rain::from_json(&json).unwrap_err();
    assert_eq!(error.fault, Fault::Missing);
    assert_eq!(path(&error), vec!["1h"]);
}

#[test]
fn a_wrong_type_is_named_by_its_path() {
    let mut document = sample();
    document["hourly"][1]["weather"][0]["id"] = Value::from("500");
    let error = schema_error(decode(&document));
    assert_eq!(error.fault, Fault::WrongType);
    assert_eq!(path(&error), vec!["hourly", "[1]", "weather", "[0]", "id"]);
}

#[test]
fn the_first_field_that_does_not_fit_is_named() {
    let mut document = sample();
    document["timezone"] = Value::from(5);
    document.as_object_mut().unwrap().remove("lon");
    document.as_object_mut().unwrap().remove("daily");
    let error = schema_error(decode(&document));
    assert_eq!(error.fault, Fault::Missing);
    assert_eq!(path(&error), vec!["lon"]);
}

#[test]
fn a_count_is_a_non_negative_integer_of_32_bits() {
    let mut document = sample();
    document["current"]["pressure"] = Value::from(4294967295u64);
    assert_eq!(decode(&document).unwrap().current.pressure, 4294967295);
    document["current"]["pressure"] = Value::from(4294967296u64);
    let error = schema_error(decode(&document));
    assert_eq!(error.fault, Fault::OutOfRange);
    assert_eq!(path(&error), vec!["current", "pressure"]);
    document["current"]["pressure"] = Value::from(-1);
    assert_eq!(schema_error(decode(&document)).fault, Fault::OutOfRange);
    document["current"]["pressure"] = Value::from(1019.0);
    assert_eq!(schema_error(decode(&document)).fault, Fault::WrongType);
    document["current"]["pressure"] = Value::Null;
    assert_eq!(schema_error(decode(&document)).fault, Fault::WrongType);
}

#[test]
fn the_offset_is_a_signed_integer_of_32_bits() {
    let mut document = sample();
    document["timezone_offset"] = Value::from(-2147483648i64);
    assert_eq!(decode(&document).unwrap().timezone_offset, i32::MIN);
    document["timezone_offset"] = Value::from(2147483647);
    assert_eq!(decode(&document).unwrap().timezone_offset, i32::MAX);
    document["timezone_offset"] = Value::from(2147483648u64);
    assert_eq!(schema_error(decode(&document)).fault, Fault::OutOfRange);
    document["timezone_offset"] = Value::from(-2147483649i64);
    assert_eq!(schema_error(decode(&document)).fault, Fault::OutOfRange);
}

#[test]
fn a_timestamp_is_a_representable_count_of_seconds() {
    let mut document = sample();
    document["current"]["dt"] = Value::from(-1);
    assert_eq!(seconds(decode(&document).unwrap().current.dt), -1);
    document["current"]["dt"] = Value::from(8210266876799i64);
    assert_eq!(seconds(decode(&document).unwrap().current.dt), 8210266876799);
    document["current"]["dt"] = Value::from(8210266876800i64);
    let error = schema_error(decode(&document));
    assert_eq!(error.fault, Fault::BadInstant);
    assert_eq!(path(&error), vec!["current", "dt"]);
    document["current"]["dt"] = Value::from(u64::MAX);
    assert_eq!(schema_error(decode(&document)).fault, Fault::BadInstant);
    document["current"]["dt"] = Value::from(i64::MIN);
    assert_eq!(schema_error(decode(&document)).fault, Fault::BadInstant);
    document["current"]["dt"] = Value::from(1618317040.5);
    assert_eq!(schema_error(decode(&document)).fault, Fault::WrongType);
    document["current"]["dt"] = Value::from("2021-04-13T12:30:40Z");
    assert_eq!(schema_error(decode(&document)).fault, Fault::WrongType);
}

#[test]
fn a_report_is_an_object() {
    let error = schema_error(OnecallResponse::from_slice(b"[1, 2]"));
    assert_eq!(error.fault, Fault::WrongType);
    assert!(error.path.is_empty());
    let mut document = sample();
    document["hourly"] = Value::from("none");
    let error = schema_error(decode(&document));
    assert_eq!(error.fault, Fault::WrongType);
    assert_eq!(path(&error), vec!["hourly"]);
    document = sample();
    document["daily"][0]["temp"] = Value::from(280.5);
    let error = schema_error(decode(&document));
    assert_eq!(error.fault, Fault::WrongType);
    assert_eq!(path(&error), vec!["daily", "[0]", "temp"]);
}

#[test]
fn a_body_that_is_no_json_is_a_parse_error() {
    let result = OnecallResponse::from_slice(b"<html>Bad Gateway</html>");
    match result {
        Err(OnecallError::Syntax(message)) => assert!(message.contains("line 1")),
        other => panic!("no syntax error: {:?}", other.map(|_| ())),
    }
    let error = OnecallResponse::from_slice(&SAMPLE.as_bytes()[..100]).unwrap_err();
    assert_eq!(error.kind(), ErrorKind::Parse);
}

#[test]
fn a_status_outside_success_is_a_transport_error() {
    for status in [100u16, 199, 300, 401, 404, 429, 500] {
        match OnecallResponse::from_reply(status, SAMPLE.as_bytes()) {
            Err(error) => {
                assert_eq!(error.kind(), ErrorKind::Transport);
                assert!(matches!(error, OnecallError::Status(s) if s == status));
            }
            Ok(_) => panic!("status {} gave a report", status),
        }
    }
    for status in [200u16, 204, 299] {
        assert!(OnecallResponse::from_reply(status, SAMPLE.as_bytes()).is_ok());
    }
    let error = OnecallResponse::from_reply(200, br#"{"cod": 401}"#).unwrap_err();
    assert_eq!(error.kind(), ErrorKind::Parse);
}

#[test]
fn alerts_of_the_current_weather_are_decoded() {
    let mut document = sample();
    let alerts = document["alerts"].clone();
    document["current"]["alerts"] = alerts;
    let report = decode(&document).unwrap();
    let alerts = report.current.alerts.unwrap();
    assert_eq!(alerts.len(), 1);
    assert_eq!(alerts[0].sender_name, "NWS");
    assert_eq!(alerts[0].event, "Flood Watch");
    assert_eq!(seconds(alerts[0].start), 1618300000);
    assert_eq!(seconds(alerts[0].end), 1618400000);
    assert_eq!(alerts[0].description, "...");
    assert_eq!(alerts[0].tags, vec!["Flood"]);
}
