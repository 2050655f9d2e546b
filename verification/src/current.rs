//! The current weather.

use crate::conditions::{Alert, AlertView, Rain, RainView, Weather, WeatherView};
use crate::decode::{
    field, field_items, FromJson, maybe, maybe_items, optional, optional_list, required,
    required_list,
};
use crate::encode::{
    lemma_items_round_trip, lemma_lookups, new_members, no_members, object, put, put_items,
    put_list, put_maybe, put_maybe_items, put_member, put_optional, put_optional_list, ToJson,
    valid_maybe_items, written_items,
};
use crate::fault::{Fault, SchemaError, SchemaErrorView};
use crate::instant::Timestamp;
use crate::json::{Json, JsonView};
use crate::number::Number;
use crate::views::{option_view, option_views, views};
use vstd::prelude::*;

verus! {

/// The current weather.
#[derive(Clone, Debug, PartialEq)]
pub struct Current {
    /// The instant that the data are of.
    pub dt: Timestamp,
    /// Sunrise.
    pub sunrise: Timestamp,
    /// Sunset.
    pub sunset: Timestamp,
    /// The temperature.
    pub temp: Number,
    /// The temperature as a human feels it.
    pub feels_like: Number,
    /// The atmospheric pressure at sea level, in hPa.
    pub pressure: u32,
    /// The humidity, in percent.
    pub humidity: u32,
    /// The temperature below which dew forms.
    pub dew_point: Number,
    /// The UV index.
    pub uvi: Number,
    /// The cloudiness, in percent.
    pub clouds: u32,
    /// The average visibility, in metres.
    pub visibility: u32,
    /// The wind speed.
    pub wind_speed: Number,
    /// The wind direction, in degrees.
    pub wind_deg: u32,
    /// The wind gust, where the service reports one.
    pub wind_gust: Option<Number>,
    /// The weather conditions.
    pub weather: Vec<Weather>,
    /// The rain, where there is any.
    pub rain: Option<Rain>,
    /// The alerts in force, where the service reports them here.
    pub alerts: Option<Vec<Alert>>,
}

/// The mathematical value of a [`Current`].
pub ghost struct CurrentView {
    pub dt: int,
    pub sunrise: int,
    pub sunset: int,
    pub temp: Number,
    pub feels_like: Number,
    pub pressure: u32,
    pub humidity: u32,
    pub dew_point: Number,
    pub uvi: Number,
    pub clouds: u32,
    pub visibility: u32,
    pub wind_speed: Number,
    pub wind_deg: u32,
    pub wind_gust: Option<Number>,
    pub weather: Seq<WeatherView>,
    pub rain: Option<RainView>,
    pub alerts: Option<Seq<AlertView>>,
}

impl View for Current {
    type V = CurrentView;

    open spec fn view(&self) -> CurrentView {
        CurrentView {
            dt: self.dt@,
            sunrise: self.sunrise@,
            sunset: self.sunset@,
            temp: self.temp@,
            feels_like: self.feels_like@,
            pressure: self.pressure@,
            humidity: self.humidity@,
            dew_point: self.dew_point@,
            uvi: self.uvi@,
            clouds: self.clouds@,
            visibility: self.visibility@,
            wind_speed: self.wind_speed@,
            wind_deg: self.wind_deg@,
            wind_gust: option_view(self.wind_gust),
            weather: views(self.weather@),
            rain: option_view(self.rain),
            alerts: option_views(self.alerts),
        }
    }
}

impl FromJson for Current {
    /// An object whose members fit the fields of [`Current`]; of several
    /// members that do not fit, the error names the first in the order of the
    /// fields.
    open spec fn read(json: JsonView) -> Result<CurrentView, SchemaErrorView> {
        let dt = field::<Timestamp>(json, "dt"@);
        let sunrise = field::<Timestamp>(json, "sunrise"@);
        let sunset = field::<Timestamp>(json, "sunset"@);
        let temp = field::<Number>(json, "temp"@);
        let feels_like = field::<Number>(json, "feels_like"@);
        let pressure = field::<u32>(json, "pressure"@);
        let humidity = field::<u32>(json, "humidity"@);
        let dew_point = field::<Number>(json, "dew_point"@);
        let uvi = field::<Number>(json, "uvi"@);
        let clouds = field::<u32>(json, "clouds"@);
        let visibility = field::<u32>(json, "visibility"@);
        let wind_speed = field::<Number>(json, "wind_speed"@);
        let wind_deg = field::<u32>(json, "wind_deg"@);
        let wind_gust = maybe::<Number>(json, "wind_gust"@);
        let weather = field_items::<Weather>(json, "weather"@);
        let rain = maybe::<Rain>(json, "rain"@);
        let alerts = maybe_items::<Alert>(json, "alerts"@);
        if !(json is Object) {
            Err(SchemaErrorView::here(Fault::WrongType))
        } else if dt is Err {
            Err(dt->Err_0)
        } else if sunrise is Err {
            Err(sunrise->Err_0)
        } else if sunset is Err {
            Err(sunset->Err_0)
        } else if temp is Err {
            Err(temp->Err_0)
        } else if feels_like is Err {
            Err(feels_like->Err_0)
        } else if pressure is Err {
            Err(pressure->Err_0)
        } else if humidity is Err {
            Err(humidity->Err_0)
        } else if dew_point is Err {
            Err(dew_point->Err_0)
        } else if uvi is Err {
            Err(uvi->Err_0)
        } else if clouds is Err {
            Err(clouds->Err_0)
        } else if visibility is Err {
            Err(visibility->Err_0)
        } else if wind_speed is Err {
            Err(wind_speed->Err_0)
        } else if wind_deg is Err {
            Err(wind_deg->Err_0)
        } else if wind_gust is Err {
            Err(wind_gust->Err_0)
        } else if weather is Err {
            Err(weather->Err_0)
        } else if rain is Err {
            Err(rain->Err_0)
        } else if alerts is Err {
            Err(alerts->Err_0)
        } else {
            Ok(
                CurrentView {
                    dt: dt->Ok_0,
                    sunrise: sunrise->Ok_0,
                    sunset: sunset->Ok_0,
                    temp: temp->Ok_0,
                    feels_like: feels_like->Ok_0,
                    pressure: pressure->Ok_0,
                    humidity: humidity->Ok_0,
                    dew_point: dew_point->Ok_0,
                    uvi: uvi->Ok_0,
                    clouds: clouds->Ok_0,
                    visibility: visibility->Ok_0,
                    wind_speed: wind_speed->Ok_0,
                    wind_deg: wind_deg->Ok_0,
                    wind_gust: wind_gust->Ok_0,
                    weather: weather->Ok_0,
                    rain: rain->Ok_0,
                    alerts: alerts->Ok_0,
                },
            )
        }
    }

    fn from_json(json: &Json) -> (decoded: Result<Current, SchemaError>) {
        if !json.is_object() {
            return Err(SchemaError::here(Fault::WrongType));
        }
        let dt = required::<Timestamp>(json, "dt")?;
        let sunrise = required::<Timestamp>(json, "sunrise")?;
        let sunset = required::<Timestamp>(json, "sunset")?;
        let temp = required::<Number>(json, "temp")?;
        let feels_like = required::<Number>(json, "feels_like")?;
        let pressure = required::<u32>(json, "pressure")?;
        let humidity = required::<u32>(json, "humidity")?;
        let dew_point = required::<Number>(json, "dew_point")?;
        let uvi = required::<Number>(json, "uvi")?;
        let clouds = required::<u32>(json, "clouds")?;
        let visibility = required::<u32>(json, "visibility")?;
        let wind_speed = required::<Number>(json, "wind_speed")?;
        let wind_deg = required::<u32>(json, "wind_deg")?;
        let wind_gust = optional::<Number>(json, "wind_gust")?;
        let weather = required_list::<Weather>(json, "weather")?;
        let rain = optional::<Rain>(json, "rain")?;
        let alerts = optional_list::<Alert>(json, "alerts")?;
        Ok(
            Current {
                dt,
                sunrise,
                sunset,
                temp,
                feels_like,
                pressure,
                humidity,
                dew_point,
                uvi,
                clouds,
                visibility,
                wind_speed,
                wind_deg,
                wind_gust,
                weather,
                rain,
                alerts,
            },
        )
    }
}

impl ToJson for Current {
    /// The instants in `value` are representable.
    open spec fn valid(value: CurrentView) -> bool {
        &&& Timestamp::valid(value.dt)
        &&& Timestamp::valid(value.sunrise)
        &&& Timestamp::valid(value.sunset)
        &&& valid_maybe_items::<Alert>(value.alerts)
    }

    /// An object with one member for each field that is there, in the order
    /// of the fields.
    open spec fn written(value: CurrentView) -> JsonView {
        JsonView::Object(
            no_members() + put::<Timestamp>("dt"@, value.dt)
                + put::<Timestamp>("sunrise"@, value.sunrise)
                + put::<Timestamp>("sunset"@, value.sunset)
                + put::<Number>("temp"@, value.temp)
                + put::<Number>("feels_like"@, value.feels_like)
                + put::<u32>("pressure"@, value.pressure)
                + put::<u32>("humidity"@, value.humidity)
                + put::<Number>("dew_point"@, value.dew_point)
                + put::<Number>("uvi"@, value.uvi)
                + put::<u32>("clouds"@, value.clouds)
                + put::<u32>("visibility"@, value.visibility)
                + put::<Number>("wind_speed"@, value.wind_speed)
                + put::<u32>("wind_deg"@, value.wind_deg)
                + put_maybe::<Number>("wind_gust"@, value.wind_gust)
                + put_items::<Weather>("weather"@, value.weather)
                + put_maybe::<Rain>("rain"@, value.rain)
                + put_maybe_items::<Alert>("alerts"@, value.alerts),
        )
    }

    fn to_json(&self) -> (json: Json) {
        let mut members = new_members();
        put_member::<Timestamp>(&mut members, "dt", &self.dt);
        put_member::<Timestamp>(&mut members, "sunrise", &self.sunrise);
        put_member::<Timestamp>(&mut members, "sunset", &self.sunset);
        put_member::<Number>(&mut members, "temp", &self.temp);
        put_member::<Number>(&mut members, "feels_like", &self.feels_like);
        put_member::<u32>(&mut members, "pressure", &self.pressure);
        put_member::<u32>(&mut members, "humidity", &self.humidity);
        put_member::<Number>(&mut members, "dew_point", &self.dew_point);
        put_member::<Number>(&mut members, "uvi", &self.uvi);
        put_member::<u32>(&mut members, "clouds", &self.clouds);
        put_member::<u32>(&mut members, "visibility", &self.visibility);
        put_member::<Number>(&mut members, "wind_speed", &self.wind_speed);
        put_member::<u32>(&mut members, "wind_deg", &self.wind_deg);
        put_optional::<Number>(&mut members, "wind_gust", &self.wind_gust);
        put_list::<Weather>(&mut members, "weather", &self.weather);
        put_optional::<Rain>(&mut members, "rain", &self.rain);
        put_optional_list::<Alert>(&mut members, "alerts", &self.alerts);
        object(members)
    }

    proof fn round_trip(value: CurrentView) {
        lemma_current_members(value);
        Timestamp::round_trip(value.dt);
        Timestamp::round_trip(value.sunrise);
        Timestamp::round_trip(value.sunset);
        Number::round_trip(value.temp);
        Number::round_trip(value.feels_like);
        u32::round_trip(value.pressure);
        u32::round_trip(value.humidity);
        Number::round_trip(value.dew_point);
        Number::round_trip(value.uvi);
        u32::round_trip(value.clouds);
        u32::round_trip(value.visibility);
        Number::round_trip(value.wind_speed);
        u32::round_trip(value.wind_deg);
        if value.wind_gust is Some {
            Number::round_trip(value.wind_gust->Some_0);
        }
        lemma_items_round_trip::<Weather>(value.weather);
        if value.rain is Some {
            Rain::round_trip(value.rain->Some_0);
        }
        if value.alerts is Some {
            lemma_items_round_trip::<Alert>(value.alerts->Some_0);
        }
    }
}

/// In the encoding of a [`Current`], each key finds the member that was
/// written under it, and the key of an absent field finds none.
pub proof fn lemma_current_members(value: CurrentView)
    ensures
        Current::written(value).member("dt"@) == Some(Timestamp::written(value.dt)),
        Current::written(value).member("sunrise"@) == Some(Timestamp::written(value.sunrise)),
        Current::written(value).member("sunset"@) == Some(Timestamp::written(value.sunset)),
        Current::written(value).member("temp"@) == Some(Number::written(value.temp)),
        Current::written(value).member("feels_like"@) == Some(Number::written(value.feels_like)),
        Current::written(value).member("pressure"@) == Some(u32::written(value.pressure)),
        Current::written(value).member("humidity"@) == Some(u32::written(value.humidity)),
        Current::written(value).member("dew_point"@) == Some(Number::written(value.dew_point)),
        Current::written(value).member("uvi"@) == Some(Number::written(value.uvi)),
        Current::written(value).member("clouds"@) == Some(u32::written(value.clouds)),
        Current::written(value).member("visibility"@) == Some(u32::written(value.visibility)),
        Current::written(value).member("wind_speed"@) == Some(Number::written(value.wind_speed)),
        Current::written(value).member("wind_deg"@) == Some(u32::written(value.wind_deg)),
        Current::written(value).member("wind_gust"@) == match value.wind_gust {
            Some(x) => Some(Number::written(x)),
            None => None,
        },
        Current::written(value).member("weather"@) == Some(written_items::<Weather>(value.weather)),
        Current::written(value).member("rain"@) == match value.rain {
            Some(x) => Some(Rain::written(x)),
            None => None,
        },
        Current::written(value).member("alerts"@) == match value.alerts {
            Some(x) => Some(written_items::<Alert>(x)),
            None => None,
        },
{
    reveal_strlit("dt");
    reveal_strlit("sunrise");
    reveal_strlit("sunset");
    reveal_strlit("temp");
    reveal_strlit("feels_like");
    reveal_strlit("pressure");
    reveal_strlit("humidity");
    reveal_strlit("dew_point");
    reveal_strlit("uvi");
    reveal_strlit("clouds");
    reveal_strlit("visibility");
    reveal_strlit("wind_speed");
    reveal_strlit("wind_deg");
    reveal_strlit("wind_gust");
    reveal_strlit("weather");
    reveal_strlit("rain");
    reveal_strlit("alerts");
    assert("dt"@ =~= seq!['d', 't']);
    assert("sunrise"@ =~= seq!['s', 'u', 'n', 'r', 'i', 's', 'e']);
    assert("sunset"@ =~= seq!['s', 'u', 'n', 's', 'e', 't']);
    assert("temp"@ =~= seq!['t', 'e', 'm', 'p']);
    assert("feels_like"@ =~= seq!['f', 'e', 'e', 'l', 's', '_', 'l', 'i', 'k', 'e']);
    assert("pressure"@ =~= seq!['p', 'r', 'e', 's', 's', 'u', 'r', 'e']);
    assert("humidity"@ =~= seq!['h', 'u', 'm', 'i', 'd', 'i', 't', 'y']);
    assert("dew_point"@ =~= seq!['d', 'e', 'w', '_', 'p', 'o', 'i', 'n', 't']);
    assert("uvi"@ =~= seq!['u', 'v', 'i']);
    assert("clouds"@ =~= seq!['c', 'l', 'o', 'u', 'd', 's']);
    assert("visibility"@ =~= seq!['v', 'i', 's', 'i', 'b', 'i', 'l', 'i', 't', 'y']);
    assert("wind_speed"@ =~= seq!['w', 'i', 'n', 'd', '_', 's', 'p', 'e', 'e', 'd']);
    assert("wind_deg"@ =~= seq!['w', 'i', 'n', 'd', '_', 'd', 'e', 'g']);
    assert("wind_gust"@ =~= seq!['w', 'i', 'n', 'd', '_', 'g', 'u', 's', 't']);
    assert("weather"@ =~= seq!['w', 'e', 'a', 't', 'h', 'e', 'r']);
    assert("rain"@ =~= seq!['r', 'a', 'i', 'n']);
    assert("alerts"@ =~= seq!['a', 'l', 'e', 'r', 't', 's']);
    lemma_lookups();
}
/// Current weather without `wind_gust` decodes as the same with `wind_gust`
/// does, but for the gust, which is absent: when `with` is current weather,
/// and `without` has no member `wind_gust` and under every other key what
/// `with` has, then `without` is the same weather with no gust.
pub proof fn lemma_wind_gust_may_be_absent(with: JsonView, without: JsonView)
    requires
        without.member("wind_gust"@) is None,
        forall|key: Seq<char>| key != "wind_gust"@ ==> without.member(key) == with.member(key),
        Current::read(with) is Ok,
    ensures
        Current::read(without) == Ok::<_, SchemaErrorView>(
            CurrentView { wind_gust: None, ..Current::read(with)->Ok_0 },
        ),
{
    reveal_strlit("dt");
    reveal_strlit("sunrise");
    reveal_strlit("sunset");
    reveal_strlit("temp");
    reveal_strlit("feels_like");
    reveal_strlit("pressure");
    reveal_strlit("humidity");
    reveal_strlit("dew_point");
    reveal_strlit("uvi");
    reveal_strlit("clouds");
    reveal_strlit("visibility");
    reveal_strlit("wind_speed");
    reveal_strlit("wind_deg");
    reveal_strlit("wind_gust");
    reveal_strlit("weather");
    reveal_strlit("rain");
    reveal_strlit("alerts");
    assert("dt"@ =~= seq!['d', 't']);
    assert("sunrise"@ =~= seq!['s', 'u', 'n', 'r', 'i', 's', 'e']);
    assert("sunset"@ =~= seq!['s', 'u', 'n', 's', 'e', 't']);
    assert("temp"@ =~= seq!['t', 'e', 'm', 'p']);
    assert("feels_like"@ =~= seq!['f', 'e', 'e', 'l', 's', '_', 'l', 'i', 'k', 'e']);
    assert("pressure"@ =~= seq!['p', 'r', 'e', 's', 's', 'u', 'r', 'e']);
    assert("humidity"@ =~= seq!['h', 'u', 'm', 'i', 'd', 'i', 't', 'y']);
    assert("dew_point"@ =~= seq!['d', 'e', 'w', '_', 'p', 'o', 'i', 'n', 't']);
    assert("uvi"@ =~= seq!['u', 'v', 'i']);
    assert("clouds"@ =~= seq!['c', 'l', 'o', 'u', 'd', 's']);
    assert("visibility"@ =~= seq!['v', 'i', 's', 'i', 'b', 'i', 'l', 'i', 't', 'y']);
    assert("wind_speed"@ =~= seq!['w', 'i', 'n', 'd', '_', 's', 'p', 'e', 'e', 'd']);
    assert("wind_deg"@ =~= seq!['w', 'i', 'n', 'd', '_', 'd', 'e', 'g']);
    assert("wind_gust"@ =~= seq!['w', 'i', 'n', 'd', '_', 'g', 'u', 's', 't']);
    assert("weather"@ =~= seq!['w', 'e', 'a', 't', 'h', 'e', 'r']);
    assert("rain"@ =~= seq!['r', 'a', 'i', 'n']);
    assert("alerts"@ =~= seq!['a', 'l', 'e', 'r', 't', 's']);
}

} // verus!
