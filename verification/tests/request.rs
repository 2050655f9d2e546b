use openweather_onecall::{Coords, OpenWeatherClient};

#[test]
fn url_holds_latitude_longitude_and_credential_in_that_order() {
    let client = OpenWeatherClient::new("0123456789abcdef");
    let coords = Coords::new("40.7128", "-74.006").unwrap();
    assert_eq!(
        client.onecall_url(&coords),
        "https://api.openweathermap.org/data/2.5/onecall?lat=40.7128&lon=-74.006&appid=0123456789abcdef"
    );
}

#[test]
fn url_has_three_parameters() {
    let client = OpenWeatherClient::new("SECRET-REDACTED");
    let coords = Coords::new(&(-33.5f32).to_string(), &151.25f32.to_string()).unwrap();
    let url = client.onecall_url(&coords);
    let (address, query) = url.split_once('?').unwrap();
    assert_eq!(address, "https://api.openweathermap.org/data/2.5/onecall");
    let parameters: Vec<&str> = query.split('&').collect();
    assert_eq!(parameters, vec!["lat=-33.5", "lon=151.25", "appid=SECRET-REDACTED"]);
}

#[test]
fn credential_is_forwarded_as_it_is() {
    let client = OpenWeatherClient::new("a b&c=d");
    let coords = Coords::new("0", "0").unwrap();
    assert_eq!(
        client.onecall_url(&coords),
        "https://api.openweathermap.org/data/2.5/onecall?lat=0&lon=0&appid=a b&c=d"
    );
}

#[test]
fn coordinates_are_what_a_float_prints() {
    for value in [0.0f32, -0.0, 1.0, 40.7128, -74.006, 1e-7, 3.4028235e38, f32::MIN_POSITIVE] {
        let text = value.to_string();
        assert!(Coords::new(&text, &text).is_some(), "{}", text);
    }
    for value in [f32::NAN, f32::INFINITY, f32::NEG_INFINITY] {
        let text = value.to_string();
        assert!(Coords::new(&text, "0").is_some(), "{}", text);
    }
    let coords = Coords::new("12.5", "-0.25").unwrap();
    assert_eq!(coords.lat(), "12.5");
    assert_eq!(coords.lon(), "-0.25");
    assert_eq!(coords.clone().lon(), "-0.25");
}

#[test]
fn other_text_is_no_coordinate() {
    for text in ["", "-", ".", ".5", "5.", "1e5", "+1", "1,5", "--1", "1.2.3", "1&x=2", " 1", "nan", "٣"] {
        assert!(Coords::new(text, "0").is_none(), "{:?}", text);
        assert!(Coords::new("0", text).is_none(), "{:?}", text);
    }
}
