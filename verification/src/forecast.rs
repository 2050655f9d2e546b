//! The forecasts: by the minute, by the hour and by the day.

use crate::conditions::{Rain, RainView, Weather, WeatherView};
use crate::decode::{field, field_items, FromJson, maybe, optional, required, required_list};
use crate::encode::{
    lemma_items_round_trip, lemma_lookups, new_members, no_members, object, put, put_items,
    put_list, put_maybe, put_member, put_optional, ToJson, written_items,
};
use crate::fault::{Fault, SchemaError, SchemaErrorView};
use crate::instant::Timestamp;
use crate::json::{Json, JsonView};
use crate::number::Number;
use crate::views::{option_view, views};
use vstd::prelude::*;

verus! {

/// The forecast for one minute.
#[derive(Clone, Debug, PartialEq)]
pub struct Minutely {
    /// The minute that the forecast is for.
    pub dt: Timestamp,
    /// The precipitation volume, in millimetres.
    pub precipitation: Number,
}

/// The mathematical value of a [`Minutely`].
pub ghost struct MinutelyView {
    pub dt: int,
    pub precipitation: Number,
}

impl View for Minutely {
    type V = MinutelyView;

    open spec fn view(&self) -> MinutelyView {
        MinutelyView {
            dt: self.dt@,
            precipitation: self.precipitation@,
        }
    }
}

impl FromJson for Minutely {
    /// An object whose members fit the fields of [`Minutely`]; of several
    /// members that do not fit, the error names the first in the order of the
    /// fields.
    open spec fn read(json: JsonView) -> Result<MinutelyView, SchemaErrorView> {
        let dt = field::<Timestamp>(json, "dt"@);
        let precipitation = field::<Number>(json, "precipitation"@);
        if !(json is Object) {
            Err(SchemaErrorView::here(Fault::WrongType))
        } else if dt is Err {
            Err(dt->Err_0)
        } else if precipitation is Err {
            Err(precipitation->Err_0)
        } else {
            Ok(
                MinutelyView {
                    dt: dt->Ok_0,
                    precipitation: precipitation->Ok_0,
                },
            )
        }
    }

    fn from_json(json: &Json) -> (decoded: Result<Minutely, SchemaError>) {
        if !json.is_object() {
            return Err(SchemaError::here(Fault::WrongType));
        }
        let dt = required::<Timestamp>(json, "dt")?;
        let precipitation = required::<Number>(json, "precipitation")?;
        Ok(Minutely { dt, precipitation })
    }
}

impl ToJson for Minutely {
    /// The instants in `value` are representable.
    open spec fn valid(value: MinutelyView) -> bool {
        Timestamp::valid(value.dt)
    }

    /// An object with one member for each field that is there, in the order
    /// of the fields.
    open spec fn written(value: MinutelyView) -> JsonView {
        JsonView::Object(
            no_members() + put::<Timestamp>("dt"@, value.dt)
                + put::<Number>("precipitation"@, value.precipitation),
        )
    }

    fn to_json(&self) -> (json: Json) {
        let mut members = new_members();
        put_member::<Timestamp>(&mut members, "dt", &self.dt);
        put_member::<Number>(&mut members, "precipitation", &self.precipitation);
        object(members)
    }

    proof fn round_trip(value: MinutelyView) {
        lemma_minutely_members(value);
        Timestamp::round_trip(value.dt);
        Number::round_trip(value.precipitation);
    }
}

/// In the encoding of a [`Minutely`], each key finds the member that was
/// written under it, and the key of an absent field finds none.
pub proof fn lemma_minutely_members(value: MinutelyView)
    ensures
        Minutely::written(value).member("dt"@) == Some(Timestamp::written(value.dt)),
        Minutely::written(value).member("precipitation"@) == Some(Number::written(value.precipitation)),
{
    reveal_strlit("dt");
    reveal_strlit("precipitation");
    assert("dt"@ =~= seq!['d', 't']);
    assert("precipitation"@ =~= seq!['p', 'r', 'e', 'c', 'i', 'p', 'i', 't', 'a', 't', 'i', 'o', 'n']);
    lemma_lookups();
}

/// The forecast for one hour.
#[derive(Clone, Debug, PartialEq)]
pub struct Hourly {
    /// The instant that the data are of.
    pub dt: Timestamp,
    /// The temperature.
    pub temp: Number,
    /// The temperature as a human feels it.
    pub feels_like: Number,
    /// The atmospheric pressure at sea level, in hPa.
    pub pressure: u32,
    /// The humidity, in percent.
    pub humidity: u32,
    /// The temperature below which dew forms.
    pub dew_point: Number,
    /// The UV index.
    pub uvi: Number,
    /// The cloudiness, in percent.
    pub clouds: u32,
    /// The average visibility, in metres.
    pub visibility: u32,
    /// The wind speed.
    pub wind_speed: Number,
    /// The wind direction, in degrees.
    pub wind_deg: u32,
    /// The wind gust, where the service reports one.
    pub wind_gust: Option<Number>,
    /// The weather conditions.
    pub weather: Vec<Weather>,
    /// The probability of precipitation, from 0 to 1.
    pub pop: Number,
    /// The rain, where there is any.
    pub rain: Option<Rain>,
}

/// The mathematical value of an [`Hourly`].
pub ghost struct HourlyView {
    pub dt: int,
    pub temp: Number,
    pub feels_like: Number,
    pub pressure: u32,
    pub humidity: u32,
    pub dew_point: Number,
    pub uvi: Number,
    pub clouds: u32,
    pub visibility: u32,
    pub wind_speed: Number,
    pub wind_deg: u32,
    pub wind_gust: Option<Number>,
    pub weather: Seq<WeatherView>,
    pub pop: Number,
    pub rain: Option<RainView>,
}

impl View for Hourly {
    type V = HourlyView;

    open spec fn view(&self) -> HourlyView {
        HourlyView {
            dt: self.dt@,
            temp: self.temp@,
            feels_like: self.feels_like@,
            pressure: self.pressure@,
            humidity: self.humidity@,
            dew_point: self.dew_point@,
            uvi: self.uvi@,
            clouds: self.clouds@,
            visibility: self.visibility@,
            wind_speed: self.wind_speed@,
            wind_deg: self.wind_deg@,
            wind_gust: option_view(self.wind_gust),
            weather: views(self.weather@),
            pop: self.pop@,
            rain: option_view(self.rain),
        }
    }
}

impl FromJson for Hourly {
    /// An object whose members fit the fields of [`Hourly`]; of several
    /// members that do not fit, the error names the first in the order of the
    /// fields.
    open spec fn read(json: JsonView) -> Result<HourlyView, SchemaErrorView> {
        let dt = field::<Timestamp>(json, "dt"@);
        let temp = field::<Number>(json, "temp"@);
        let feels_like = field::<Number>(json, "feels_like"@);
        let pressure = field::<u32>(json, "pressure"@);
        let humidity = field::<u32>(json, "humidity"@);
        let dew_point = field::<Number>(json, "dew_point"@);
        let uvi = field::<Number>(json, "uvi"@);
        let clouds = field::<u32>(json, "clouds"@);
        let visibility = field::<u32>(json, "visibility"@);
        let wind_speed = field::<Number>(json, "wind_speed"@);
        let wind_deg = field::<u32>(json, "wind_deg"@);
        let wind_gust = maybe::<Number>(json, "wind_gust"@);
        let weather = field_items::<Weather>(json, "weather"@);
        let pop = field::<Number>(json, "pop"@);
        let rain = maybe::<Rain>(json, "rain"@);
        if !(json is Object) {
            Err(SchemaErrorView::here(Fault::WrongType))
        } else if dt is Err {
            Err(dt->Err_0)
        } else if temp is Err {
            Err(temp->Err_0)
        } else if feels_like is Err {
            Err(feels_like->Err_0)
        } else if pressure is Err {
            Err(pressure->Err_0)
        } else if humidity is Err {
            Err(humidity->Err_0)
        } else if dew_point is Err {
            Err(dew_point->Err_0)
        } else if uvi is Err {
            Err(uvi->Err_0)
        } else if clouds is Err {
            Err(clouds->Err_0)
        } else if visibility is Err {
            Err(visibility->Err_0)
        } else if wind_speed is Err {
            Err(wind_speed->Err_0)
        } else if wind_deg is Err {
            Err(wind_deg->Err_0)
        } else if wind_gust is Err {
            Err(wind_gust->Err_0)
        } else if weather is Err {
            Err(weather->Err_0)
        } else if pop is Err {
            Err(pop->Err_0)
        } else if rain is Err {
            Err(rain->Err_0)
        } else {
            Ok(
                HourlyView {
                    dt: dt->Ok_0,
                    temp: temp->Ok_0,
                    feels_like: feels_like->Ok_0,
                    pressure: pressure->Ok_0,
                    humidity: humidity->Ok_0,
                    dew_point: dew_point->Ok_0,
                    uvi: uvi->Ok_0,
                    clouds: clouds->Ok_0,
                    visibility: visibility->Ok_0,
                    wind_speed: wind_speed->Ok_0,
                    wind_deg: wind_deg->Ok_0,
                    wind_gust: wind_gust->Ok_0,
                    weather: weather->Ok_0,
                    pop: pop->Ok_0,
                    rain: rain->Ok_0,
                },
            )
        }
    }

    fn from_json(json: &Json) -> (decoded: Result<Hourly, SchemaError>) {
        if !json.is_object() {
            return Err(SchemaError::here(Fault::WrongType));
        }
        let dt = required::<Timestamp>(json, "dt")?;
        let temp = required::<Number>(json, "temp")?;
        let feels_like = required::<Number>(json, "feels_like")?;
        let pressure = required::<u32>(json, "pressure")?;
        let humidity = required::<u32>(json, "humidity")?;
        let dew_point = required::<Number>(json, "dew_point")?;
        let uvi = required::<Number>(json, "uvi")?;
        let clouds = required::<u32>(json, "clouds")?;
        let visibility = required::<u32>(json, "visibility")?;
        let wind_speed = required::<Number>(json, "wind_speed")?;
        let wind_deg = required::<u32>(json, "wind_deg")?;
        let wind_gust = optional::<Number>(json, "wind_gust")?;
        let weather = required_list::<Weather>(json, "weather")?;
        let pop = required::<Number>(json, "pop")?;
        let rain = optional::<Rain>(json, "rain")?;
        Ok(
            Hourly {
                dt,
                temp,
                feels_like,
                pressure,
                humidity,
                dew_point,
                uvi,
                clouds,
                visibility,
                wind_speed,
                wind_deg,
                wind_gust,
                weather,
                pop,
                rain,
            },
        )
    }
}

impl ToJson for Hourly {
    /// The instants in `value` are representable.
    open spec fn valid(value: HourlyView) -> bool {
        Timestamp::valid(value.dt)
    }

    /// An object with one member for each field that is there, in the order
    /// of the fields.
    open spec fn written(value: HourlyView) -> JsonView {
        JsonView::Object(
            no_members() + put::<Timestamp>("dt"@, value.dt)
                + put::<Number>("temp"@, value.temp)
                + put::<Number>("feels_like"@, value.feels_like)
                + put::<u32>("pressure"@, value.pressure)
                + put::<u32>("humidity"@, value.humidity)
                + put::<Number>("dew_point"@, value.dew_point)
                + put::<Number>("uvi"@, value.uvi)
                + put::<u32>("clouds"@, value.clouds)
                + put::<u32>("visibility"@, value.visibility)
                + put::<Number>("wind_speed"@, value.wind_speed)
                + put::<u32>("wind_deg"@, value.wind_deg)
                + put_maybe::<Number>("wind_gust"@, value.wind_gust)
                + put_items::<Weather>("weather"@, value.weather)
                + put::<Number>("pop"@, value.pop)
                + put_maybe::<Rain>("rain"@, value.rain),
        )
    }

    fn to_json(&self) -> (json: Json) {
        let mut members = new_members();
        put_member::<Timestamp>(&mut members, "dt", &self.dt);
        put_member::<Number>(&mut members, "temp", &self.temp);
        put_member::<Number>(&mut members, "feels_like", &self.feels_like);
        put_member::<u32>(&mut members, "pressure", &self.pressure);
        put_member::<u32>(&mut members, "humidity", &self.humidity);
        put_member::<Number>(&mut members, "dew_point", &self.dew_point);
        put_member::<Number>(&mut members, "uvi", &self.uvi);
        put_member::<u32>(&mut members, "clouds", &self.clouds);
        put_member::<u32>(&mut members, "visibility", &self.visibility);
        put_member::<Number>(&mut members, "wind_speed", &self.wind_speed);
        put_member::<u32>(&mut members, "wind_deg", &self.wind_deg);
        put_optional::<Number>(&mut members, "wind_gust", &self.wind_gust);
        put_list::<Weather>(&mut members, "weather", &self.weather);
        put_member::<Number>(&mut members, "pop", &self.pop);
        put_optional::<Rain>(&mut members, "rain", &self.rain);
        object(members)
    }

    proof fn round_trip(value: HourlyView) {
        lemma_hourly_members(value);
        Timestamp::round_trip(value.dt);
        Number::round_trip(value.temp);
        Number::round_trip(value.feels_like);
        u32::round_trip(value.pressure);
        u32::round_trip(value.humidity);
        Number::round_trip(value.dew_point);
        Number::round_trip(value.uvi);
        u32::round_trip(value.clouds);
        u32::round_trip(value.visibility);
        Number::round_trip(value.wind_speed);
        u32::round_trip(value.wind_deg);
        if value.wind_gust is Some {
            Number::round_trip(value.wind_gust->Some_0);
        }
        lemma_items_round_trip::<Weather>(value.weather);
        Number::round_trip(value.pop);
        if value.rain is Some {
            Rain::round_trip(value.rain->Some_0);
        }
    }
}

/// In the encoding of an [`Hourly`], each key finds the member that was
/// written under it, and the key of an absent field finds none.
pub proof fn lemma_hourly_members(value: HourlyView)
    ensures
        Hourly::written(value).member("dt"@) == Some(Timestamp::written(value.dt)),
        Hourly::written(value).member("temp"@) == Some(Number::written(value.temp)),
        Hourly::written(value).member("feels_like"@) == Some(Number::written(value.feels_like)),
        Hourly::written(value).member("pressure"@) == Some(u32::written(value.pressure)),
        Hourly::written(value).member("humidity"@) == Some(u32::written(value.humidity)),
        Hourly::written(value).member("dew_point"@) == Some(Number::written(value.dew_point)),
        Hourly::written(value).member("uvi"@) == Some(Number::written(value.uvi)),
        Hourly::written(value).member("clouds"@) == Some(u32::written(value.clouds)),
        Hourly::written(value).member("visibility"@) == Some(u32::written(value.visibility)),
        Hourly::written(value).member("wind_speed"@) == Some(Number::written(value.wind_speed)),
        Hourly::written(value).member("wind_deg"@) == Some(u32::written(value.wind_deg)),
        Hourly::written(value).member("wind_gust"@) == match value.wind_gust {
            Some(x) => Some(Number::written(x)),
            None => None,
        },
        Hourly::written(value).member("weather"@) == Some(written_items::<Weather>(value.weather)),
        Hourly::written(value).member("pop"@) == Some(Number::written(value.pop)),
        Hourly::written(value).member("rain"@) == match value.rain {
            Some(x) => Some(Rain::written(x)),
            None => None,
        },
{
    reveal_strlit("dt");
    reveal_strlit("temp");
    reveal_strlit("feels_like");
    reveal_strlit("pressure");
    reveal_strlit("humidity");
    reveal_strlit("dew_point");
    reveal_strlit("uvi");
    reveal_strlit("clouds");
    reveal_strlit("visibility");
    reveal_strlit("wind_speed");
    reveal_strlit("wind_deg");
    reveal_strlit("wind_gust");
    reveal_strlit("weather");
    reveal_strlit("pop");
    reveal_strlit("rain");
    assert("dt"@ =~= seq!['d', 't']);
    assert("temp"@ =~= seq!['t', 'e', 'm', 'p']);
    assert("feels_like"@ =~= seq!['f', 'e', 'e', 'l', 's', '_', 'l', 'i', 'k', 'e']);
    assert("pressure"@ =~= seq!['p', 'r', 'e', 's', 's', 'u', 'r', 'e']);
    assert("humidity"@ =~= seq!['h', 'u', 'm', 'i', 'd', 'i', 't', 'y']);
    assert("dew_point"@ =~= seq!['d', 'e', 'w', '_', 'p', 'o', 'i', 'n', 't']);
    assert("uvi"@ =~= seq!['u', 'v', 'i']);
    assert("clouds"@ =~= seq!['c', 'l', 'o', 'u', 'd', 's']);
    assert("visibility"@ =~= seq!['v', 'i', 's', 'i', 'b', 'i', 'l', 'i', 't', 'y']);
    assert("wind_speed"@ =~= seq!['w', 'i', 'n', 'd', '_', 's', 'p', 'e', 'e', 'd']);
    assert("wind_deg"@ =~= seq!['w', 'i', 'n', 'd', '_', 'd', 'e', 'g']);
    assert("wind_gust"@ =~= seq!['w', 'i', 'n', 'd', '_', 'g', 'u', 's', 't']);
    assert("weather"@ =~= seq!['w', 'e', 'a', 't', 'h', 'e', 'r']);
    assert("pop"@ =~= seq!['p', 'o', 'p']);
    assert("rain"@ =~= seq!['r', 'a', 'i', 'n']);
    lemma_lookups();
}

/// The temperatures of one day.
#[derive(Clone, Debug, PartialEq)]
pub struct Temp {
    /// The temperature by day.
    pub day: Number,
    /// The lowest temperature of the day.
    pub min: Number,
    /// The highest temperature of the day.
    pub max: Number,
    /// The temperature by night.
    pub night: Number,
    /// The temperature in the evening.
    pub eve: Number,
    /// The temperature in the morning.
    pub morn: Number,
}

/// The mathematical value of a [`Temp`].
pub ghost struct TempView {
    pub day: Number,
    pub min: Number,
    pub max: Number,
    pub night: Number,
    pub eve: Number,
    pub morn: Number,
}

impl View for Temp {
    type V = TempView;

    open spec fn view(&self) -> TempView {
        TempView {
            day: self.day@,
            min: self.min@,
            max: self.max@,
            night: self.night@,
            eve: self.eve@,
            morn: self.morn@,
        }
    }
}

impl FromJson for Temp {
    /// An object whose members fit the fields of [`Temp`]; of several
    /// members that do not fit, the error names the first in the order of the
    /// fields.
    open spec fn read(json: JsonView) -> Result<TempView, SchemaErrorView> {
        let day = field::<Number>(json, "day"@);
        let min = field::<Number>(json, "min"@);
        let max = field::<Number>(json, "max"@);
        let night = field::<Number>(json, "night"@);
        let eve = field::<Number>(json, "eve"@);
        let morn = field::<Number>(json, "morn"@);
        if !(json is Object) {
            Err(SchemaErrorView::here(Fault::WrongType))
        } else if day is Err {
            Err(day->Err_0)
        } else if min is Err {
            Err(min->Err_0)
        } else if max is Err {
            Err(max->Err_0)
        } else if night is Err {
            Err(night->Err_0)
        } else if eve is Err {
            Err(eve->Err_0)
        } else if morn is Err {
            Err(morn->Err_0)
        } else {
            Ok(
                TempView {
                    day: day->Ok_0,
                    min: min->Ok_0,
                    max: max->Ok_0,
                    night: night->Ok_0,
                    eve: eve->Ok_0,
                    morn: morn->Ok_0,
                },
            )
        }
    }

    fn from_json(json: &Json) -> (decoded: Result<Temp, SchemaError>) {
        if !json.is_object() {
            return Err(SchemaError::here(Fault::WrongType));
        }
        let day = required::<Number>(json, "day")?;
        let min = required::<Number>(json, "min")?;
        let max = required::<Number>(json, "max")?;
        let night = required::<Number>(json, "night")?;
        let eve = required::<Number>(json, "eve")?;
        let morn = required::<Number>(json, "morn")?;
        Ok(Temp { day, min, max, night, eve, morn })
    }
}

impl ToJson for Temp {
    /// Every value is one of a [`Temp`].
    open spec fn valid(value: TempView) -> bool {
        true
    }

    /// An object with one member for each field that is there, in the order
    /// of the fields.
    open spec fn written(value: TempView) -> JsonView {
        JsonView::Object(
            no_members() + put::<Number>("day"@, value.day)
                + put::<Number>("min"@, value.min)
                + put::<Number>("max"@, value.max)
                + put::<Number>("night"@, value.night)
                + put::<Number>("eve"@, value.eve)
                + put::<Number>("morn"@, value.morn),
        )
    }

    fn to_json(&self) -> (json: Json) {
        let mut members = new_members();
        put_member::<Number>(&mut members, "day", &self.day);
        put_member::<Number>(&mut members, "min", &self.min);
        put_member::<Number>(&mut members, "max", &self.max);
        put_member::<Number>(&mut members, "night", &self.night);
        put_member::<Number>(&mut members, "eve", &self.eve);
        put_member::<Number>(&mut members, "morn", &self.morn);
        object(members)
    }

    proof fn round_trip(value: TempView) {
        lemma_temp_members(value);
        Number::round_trip(value.day);
        Number::round_trip(value.min);
        Number::round_trip(value.max);
        Number::round_trip(value.night);
        Number::round_trip(value.eve);
        Number::round_trip(value.morn);
    }
}

/// In the encoding of a [`Temp`], each key finds the member that was
/// written under it, and the key of an absent field finds none.
pub proof fn lemma_temp_members(value: TempView)
    ensures
        Temp::written(value).member("day"@) == Some(Number::written(value.day)),
        Temp::written(value).member("min"@) == Some(Number::written(value.min)),
        Temp::written(value).member("max"@) == Some(Number::written(value.max)),
        Temp::written(value).member("night"@) == Some(Number::written(value.night)),
        Temp::written(value).member("eve"@) == Some(Number::written(value.eve)),
        Temp::written(value).member("morn"@) == Some(Number::written(value.morn)),
{
    reveal_strlit("day");
    reveal_strlit("min");
    reveal_strlit("max");
    reveal_strlit("night");
    reveal_strlit("eve");
    reveal_strlit("morn");
    assert("day"@ =~= seq!['d', 'a', 'y']);
    assert("min"@ =~= seq!['m', 'i', 'n']);
    assert("max"@ =~= seq!['m', 'a', 'x']);
    assert("night"@ =~= seq!['n', 'i', 'g', 'h', 't']);
    assert("eve"@ =~= seq!['e', 'v', 'e']);
    assert("morn"@ =~= seq!['m', 'o', 'r', 'n']);
    lemma_lookups();
}

/// The temperatures of one day as a human feels them.
#[derive(Clone, Debug, PartialEq)]
pub struct FeelsLike {
    /// By day.
    pub day: Number,
    /// By night.
    pub night: Number,
    /// In the evening.
    pub eve: Number,
    /// In the morning.
    pub morn: Number,
}

/// The mathematical value of a [`FeelsLike`].
pub ghost struct FeelsLikeView {
    pub day: Number,
    pub night: Number,
    pub eve: Number,
    pub morn: Number,
}

impl View for FeelsLike {
    type V = FeelsLikeView;

    open spec fn view(&self) -> FeelsLikeView {
        FeelsLikeView {
            day: self.day@,
            night: self.night@,
            eve: self.eve@,
            morn: self.morn@,
        }
    }
}

impl FromJson for FeelsLike {
    /// An object whose members fit the fields of [`FeelsLike`]; of several
    /// members that do not fit, the error names the first in the order of the
    /// fields.
    open spec fn read(json: JsonView) -> Result<FeelsLikeView, SchemaErrorView> {
        let day = field::<Number>(json, "day"@);
        let night = field::<Number>(json, "night"@);
        let eve = field::<Number>(json, "eve"@);
        let morn = field::<Number>(json, "morn"@);
        if !(json is Object) {
            Err(SchemaErrorView::here(Fault::WrongType))
        } else if day is Err {
            Err(day->Err_0)
        } else if night is Err {
            Err(night->Err_0)
        } else if eve is Err {
            Err(eve->Err_0)
        } else if morn is Err {
            Err(morn->Err_0)
        } else {
            Ok(
                FeelsLikeView {
                    day: day->Ok_0,
                    night: night->Ok_0,
                    eve: eve->Ok_0,
                    morn: morn->Ok_0,
                },
            )
        }
    }

    fn from_json(json: &Json) -> (decoded: Result<FeelsLike, SchemaError>) {
        if !json.is_object() {
            return Err(SchemaError::here(Fault::WrongType));
        }
        let day = required::<Number>(json, "day")?;
        let night = required::<Number>(json, "night")?;
        let eve = required::<Number>(json, "eve")?;
        let morn = required::<Number>(json, "morn")?;
        Ok(FeelsLike { day, night, eve, morn })
    }
}

impl ToJson for FeelsLike {
    /// Every value is one of a [`FeelsLike`].
    open spec fn valid(value: FeelsLikeView) -> bool {
        true
    }

    /// An object with one member for each field that is there, in the order
    /// of the fields.
    open spec fn written(value: FeelsLikeView) -> JsonView {
        JsonView::Object(
            no_members() + put::<Number>("day"@, value.day)
                + put::<Number>("night"@, value.night)
                + put::<Number>("eve"@, value.eve)
                + put::<Number>("morn"@, value.morn),
        )
    }

    fn to_json(&self) -> (json: Json) {
        let mut members = new_members();
        put_member::<Number>(&mut members, "day", &self.day);
        put_member::<Number>(&mut members, "night", &self.night);
        put_member::<Number>(&mut members, "eve", &self.eve);
        put_member::<Number>(&mut members, "morn", &self.morn);
        object(members)
    }

    proof fn round_trip(value: FeelsLikeView) {
        lemma_feels_like_members(value);
        Number::round_trip(value.day);
        Number::round_trip(value.night);
        Number::round_trip(value.eve);
        Number::round_trip(value.morn);
    }
}

/// In the encoding of a [`FeelsLike`], each key finds the member that was
/// written under it, and the key of an absent field finds none.
pub proof fn lemma_feels_like_members(value: FeelsLikeView)
    ensures
        FeelsLike::written(value).member("day"@) == Some(Number::written(value.day)),
        FeelsLike::written(value).member("night"@) == Some(Number::written(value.night)),
        FeelsLike::written(value).member("eve"@) == Some(Number::written(value.eve)),
        FeelsLike::written(value).member("morn"@) == Some(Number::written(value.morn)),
{
    reveal_strlit("day");
    reveal_strlit("night");
    reveal_strlit("eve");
    reveal_strlit("morn");
    assert("day"@ =~= seq!['d', 'a', 'y']);
    assert("night"@ =~= seq!['n', 'i', 'g', 'h', 't']);
    assert("eve"@ =~= seq!['e', 'v', 'e']);
    assert("morn"@ =~= seq!['m', 'o', 'r', 'n']);
    lemma_lookups();
}

/// The forecast for one day.
#[derive(Clone, Debug, PartialEq)]
pub struct Daily {
    /// The day that the forecast is for.
    pub dt: Timestamp,
    /// Sunrise.
    pub sunrise: Timestamp,
    /// Sunset.
    pub sunset: Timestamp,
    /// Moonrise.
    pub moonrise: Timestamp,
    /// Moonset.
    pub moonset: Timestamp,
    /// The phase of the moon, from 0 to 1.
    pub moon_phase: Number,
    /// The temperatures.
    pub temp: Temp,
    /// The temperatures as a human feels them.
    pub feels_like: FeelsLike,
    /// The atmospheric pressure at sea level, in hPa.
    pub pressure: u32,
    /// The humidity, in percent.
    pub humidity: u32,
    /// The temperature below which dew forms.
    pub dew_point: Number,
    /// The wind speed.
    pub wind_speed: Number,
    /// The wind direction, in degrees.
    pub wind_deg: u32,
    /// The wind gust, where the service reports one.
    pub wind_gust: Option<Number>,
    /// The weather conditions.
    pub weather: Vec<Weather>,
    /// The cloudiness, in percent.
    pub clouds: u32,
    /// The probability of precipitation, from 0 to 1.
    pub pop: Number,
    /// The rain volume, in millimetres, where there is any.
    pub rain: Option<Number>,
    /// The highest UV index of the day.
    pub uvi: Number,
}

/// The mathematical value of a [`Daily`].
pub ghost struct DailyView {
    pub dt: int,
    pub sunrise: int,
    pub sunset: int,
    pub moonrise: int,
    pub moonset: int,
    pub moon_phase: Number,
    pub temp: TempView,
    pub feels_like: FeelsLikeView,
    pub pressure: u32,
    pub humidity: u32,
    pub dew_point: Number,
    pub wind_speed: Number,
    pub wind_deg: u32,
    pub wind_gust: Option<Number>,
    pub weather: Seq<WeatherView>,
    pub clouds: u32,
    pub pop: Number,
    pub rain: Option<Number>,
    pub uvi: Number,
}

impl View for Daily {
    type V = DailyView;

    open spec fn view(&self) -> DailyView {
        DailyView {
            dt: self.dt@,
            sunrise: self.sunrise@,
            sunset: self.sunset@,
            moonrise: self.moonrise@,
            moonset: self.moonset@,
            moon_phase: self.moon_phase@,
            temp: self.temp@,
            feels_like: self.feels_like@,
            pressure: self.pressure@,
            humidity: self.humidity@,
            dew_point: self.dew_point@,
            wind_speed: self.wind_speed@,
            wind_deg: self.wind_deg@,
            wind_gust: option_view(self.wind_gust),
            weather: views(self.weather@),
            clouds: self.clouds@,
            pop: self.pop@,
            rain: option_view(self.rain),
            uvi: self.uvi@,
        }
    }
}

impl FromJson for Daily {
    /// An object whose members fit the fields of [`Daily`]; of several
    /// members that do not fit, the error names the first in the order of the
    /// fields.
    open spec fn read(json: JsonView) -> Result<DailyView, SchemaErrorView> {
        let dt = field::<Timestamp>(json, "dt"@);
        let sunrise = field::<Timestamp>(json, "sunrise"@);
        let sunset = field::<Timestamp>(json, "sunset"@);
        let moonrise = field::<Timestamp>(json, "moonrise"@);
        let moonset = field::<Timestamp>(json, "moonset"@);
        let moon_phase = field::<Number>(json, "moon_phase"@);
        let temp = field::<Temp>(json, "temp"@);
        let feels_like = field::<FeelsLike>(json, "feels_like"@);
        let pressure = field::<u32>(json, "pressure"@);
        let humidity = field::<u32>(json, "humidity"@);
        let dew_point = field::<Number>(json, "dew_point"@);
        let wind_speed = field::<Number>(json, "wind_speed"@);
        let wind_deg = field::<u32>(json, "wind_deg"@);
        let wind_gust = maybe::<Number>(json, "wind_gust"@);
        let weather = field_items::<Weather>(json, "weather"@);
        let clouds = field::<u32>(json, "clouds"@);
        let pop = field::<Number>(json, "pop"@);
        let rain = maybe::<Number>(json, "rain"@);
        let uvi = field::<Number>(json, "uvi"@);
        if !(json is Object) {
            Err(SchemaErrorView::here(Fault::WrongType))
        } else if dt is Err {
            Err(dt->Err_0)
        } else if sunrise is Err {
            Err(sunrise->Err_0)
        } else if sunset is Err {
            Err(sunset->Err_0)
        } else if moonrise is Err {
            Err(moonrise->Err_0)
        } else if moonset is Err {
            Err(moonset->Err_0)
        } else if moon_phase is Err {
            Err(moon_phase->Err_0)
        } else if temp is Err {
            Err(temp->Err_0)
        } else if feels_like is Err {
            Err(feels_like->Err_0)
        } else if pressure is Err {
            Err(pressure->Err_0)
        } else if humidity is Err {
            Err(humidity->Err_0)
        } else if dew_point is Err {
            Err(dew_point->Err_0)
        } else if wind_speed is Err {
            Err(wind_speed->Err_0)
        } else if wind_deg is Err {
            Err(wind_deg->Err_0)
        } else if wind_gust is Err {
            Err(wind_gust->Err_0)
        } else if weather is Err {
            Err(weather->Err_0)
        } else if clouds is Err {
            Err(clouds->Err_0)
        } else if pop is Err {
            Err(pop->Err_0)
        } else if rain is Err {
            Err(rain->Err_0)
        } else if uvi is Err {
            Err(uvi->Err_0)
        } else {
            Ok(
                DailyView {
                    dt: dt->Ok_0,
                    sunrise: sunrise->Ok_0,
                    sunset: sunset->Ok_0,
                    moonrise: moonrise->Ok_0,
                    moonset: moonset->Ok_0,
                    moon_phase: moon_phase->Ok_0,
                    temp: temp->Ok_0,
                    feels_like: feels_like->Ok_0,
                    pressure: pressure->Ok_0,
                    humidity: humidity->Ok_0,
                    dew_point: dew_point->Ok_0,
                    wind_speed: wind_speed->Ok_0,
                    wind_deg: wind_deg->Ok_0,
                    wind_gust: wind_gust->Ok_0,
                    weather: weather->Ok_0,
                    clouds: clouds->Ok_0,
                    pop: pop->Ok_0,
                    rain: rain->Ok_0,
                    uvi: uvi->Ok_0,
                },
            )
        }
    }

    fn from_json(json: &Json) -> (decoded: Result<Daily, SchemaError>) {
        if !json.is_object() {
            return Err(SchemaError::here(Fault::WrongType));
        }
        let dt = required::<Timestamp>(json, "dt")?;
        let sunrise = required::<Timestamp>(json, "sunrise")?;
        let sunset = required::<Timestamp>(json, "sunset")?;
        let moonrise = required::<Timestamp>(json, "moonrise")?;
        let moonset = required::<Timestamp>(json, "moonset")?;
        let moon_phase = required::<Number>(json, "moon_phase")?;
        let temp = required::<Temp>(json, "temp")?;
        let feels_like = required::<FeelsLike>(json, "feels_like")?;
        let pressure = required::<u32>(json, "pressure")?;
        let humidity = required::<u32>(json, "humidity")?;
        let dew_point = required::<Number>(json, "dew_point")?;
        let wind_speed = required::<Number>(json, "wind_speed")?;
        let wind_deg = required::<u32>(json, "wind_deg")?;
        let wind_gust = optional::<Number>(json, "wind_gust")?;
        let weather = required_list::<Weather>(json, "weather")?;
        let clouds = required::<u32>(json, "clouds")?;
        let pop = required::<Number>(json, "pop")?;
        let rain = optional::<Number>(json, "rain")?;
        let uvi = required::<Number>(json, "uvi")?;
        Ok(
            Daily {
                dt,
                sunrise,
                sunset,
                moonrise,
                moonset,
                moon_phase,
                temp,
                feels_like,
                pressure,
                humidity,
                dew_point,
                wind_speed,
                wind_deg,
                wind_gust,
                weather,
                clouds,
                pop,
                rain,
                uvi,
            },
        )
    }
}

impl ToJson for Daily {
    /// The instants in `value` are representable.
    open spec fn valid(value: DailyView) -> bool {
        &&& Timestamp::valid(value.dt)
        &&& Timestamp::valid(value.sunrise)
        &&& Timestamp::valid(value.sunset)
        &&& Timestamp::valid(value.moonrise)
        &&& Timestamp::valid(value.moonset)
    }

    /// An object with one member for each field that is there, in the order
    /// of the fields.
    open spec fn written(value: DailyView) -> JsonView {
        JsonView::Object(
            no_members() + put::<Timestamp>("dt"@, value.dt)
                + put::<Timestamp>("sunrise"@, value.sunrise)
                + put::<Timestamp>("sunset"@, value.sunset)
                + put::<Timestamp>("moonrise"@, value.moonrise)
                + put::<Timestamp>("moonset"@, value.moonset)
                + put::<Number>("moon_phase"@, value.moon_phase)
                + put::<Temp>("temp"@, value.temp)
                + put::<FeelsLike>("feels_like"@, value.feels_like)
                + put::<u32>("pressure"@, value.pressure)
                + put::<u32>("humidity"@, value.humidity)
                + put::<Number>("dew_point"@, value.dew_point)
                + put::<Number>("wind_speed"@, value.wind_speed)
                + put::<u32>("wind_deg"@, value.wind_deg)
                + put_maybe::<Number>("wind_gust"@, value.wind_gust)
                + put_items::<Weather>("weather"@, value.weather)
                + put::<u32>("clouds"@, value.clouds)
                + put::<Number>("pop"@, value.pop)
                + put_maybe::<Number>("rain"@, value.rain)
                + put::<Number>("uvi"@, value.uvi),
        )
    }

    fn to_json(&self) -> (json: Json) {
        let mut members = new_members();
        put_member::<Timestamp>(&mut members, "dt", &self.dt);
        put_member::<Timestamp>(&mut members, "sunrise", &self.sunrise);
        put_member::<Timestamp>(&mut members, "sunset", &self.sunset);
        put_member::<Timestamp>(&mut members, "moonrise", &self.moonrise);
        put_member::<Timestamp>(&mut members, "moonset", &self.moonset);
        put_member::<Number>(&mut members, "moon_phase", &self.moon_phase);
        put_member::<Temp>(&mut members, "temp", &self.temp);
        put_member::<FeelsLike>(&mut members, "feels_like", &self.feels_like);
        put_member::<u32>(&mut members, "pressure", &self.pressure);
        put_member::<u32>(&mut members, "humidity", &self.humidity);
        put_member::<Number>(&mut members, "dew_point", &self.dew_point);
        put_member::<Number>(&mut members, "wind_speed", &self.wind_speed);
        put_member::<u32>(&mut members, "wind_deg", &self.wind_deg);
        put_optional::<Number>(&mut members, "wind_gust", &self.wind_gust);
        put_list::<Weather>(&mut members, "weather", &self.weather);
        put_member::<u32>(&mut members, "clouds", &self.clouds);
        put_member::<Number>(&mut members, "pop", &self.pop);
        put_optional::<Number>(&mut members, "rain", &self.rain);
        put_member::<Number>(&mut members, "uvi", &self.uvi);
        object(members)
    }

    proof fn round_trip(value: DailyView) {
        lemma_daily_members(value);
        Timestamp::round_trip(value.dt);
        Timestamp::round_trip(value.sunrise);
        Timestamp::round_trip(value.sunset);
        Timestamp::round_trip(value.moonrise);
        Timestamp::round_trip(value.moonset);
        Number::round_trip(value.moon_phase);
        Temp::round_trip(value.temp);
        FeelsLike::round_trip(value.feels_like);
        u32::round_trip(value.pressure);
        u32::round_trip(value.humidity);
        Number::round_trip(value.dew_point);
        Number::round_trip(value.wind_speed);
        u32::round_trip(value.wind_deg);
        if value.wind_gust is Some {
            Number::round_trip(value.wind_gust->Some_0);
        }
        lemma_items_round_trip::<Weather>(value.weather);
        u32::round_trip(value.clouds);
        Number::round_trip(value.pop);
        if value.rain is Some {
            Number::round_trip(value.rain->Some_0);
        }
        Number::round_trip(value.uvi);
    }
}

/// In the encoding of a [`Daily`], each key finds the member that was
/// written under it, and the key of an absent field finds none.
pub proof fn lemma_daily_members(value: DailyView)
    ensures
        Daily::written(value).member("dt"@) == Some(Timestamp::written(value.dt)),
        Daily::written(value).member("sunrise"@) == Some(Timestamp::written(value.sunrise)),
        Daily::written(value).member("sunset"@) == Some(Timestamp::written(value.sunset)),
        Daily::written(value).member("moonrise"@) == Some(Timestamp::written(value.moonrise)),
        Daily::written(value).member("moonset"@) == Some(Timestamp::written(value.moonset)),
        Daily::written(value).member("moon_phase"@) == Some(Number::written(value.moon_phase)),
        Daily::written(value).member("temp"@) == Some(Temp::written(value.temp)),
        Daily::written(value).member("feels_like"@) == Some(FeelsLike::written(value.feels_like)),
        Daily::written(value).member("pressure"@) == Some(u32::written(value.pressure)),
        Daily::written(value).member("humidity"@) == Some(u32::written(value.humidity)),
        Daily::written(value).member("dew_point"@) == Some(Number::written(value.dew_point)),
        Daily::written(value).member("wind_speed"@) == Some(Number::written(value.wind_speed)),
        Daily::written(value).member("wind_deg"@) == Some(u32::written(value.wind_deg)),
        Daily::written(value).member("wind_gust"@) == match value.wind_gust {
            Some(x) => Some(Number::written(x)),
            None => None,
        },
        Daily::written(value).member("weather"@) == Some(written_items::<Weather>(value.weather)),
        Daily::written(value).member("clouds"@) == Some(u32::written(value.clouds)),
        Daily::written(value).member("pop"@) == Some(Number::written(value.pop)),
        Daily::written(value).member("rain"@) == match value.rain {
            Some(x) => Some(Number::written(x)),
            None => None,
        },
        Daily::written(value).member("uvi"@) == Some(Number::written(value.uvi)),
{
    reveal_strlit("dt");
    reveal_strlit("sunrise");
    reveal_strlit("sunset");
    reveal_strlit("moonrise");
    reveal_strlit("moonset");
    reveal_strlit("moon_phase");
    reveal_strlit("temp");
    reveal_strlit("feels_like");
    reveal_strlit("pressure");
    reveal_strlit("humidity");
    reveal_strlit("dew_point");
    reveal_strlit("wind_speed");
    reveal_strlit("wind_deg");
    reveal_strlit("wind_gust");
    reveal_strlit("weather");
    reveal_strlit("clouds");
    reveal_strlit("pop");
    reveal_strlit("rain");
    reveal_strlit("uvi");
    assert("dt"@ =~= seq!['d', 't']);
    assert("sunrise"@ =~= seq!['s', 'u', 'n', 'r', 'i', 's', 'e']);
    assert("sunset"@ =~= seq!['s', 'u', 'n', 's', 'e', 't']);
    assert("moonrise"@ =~= seq!['m', 'o', 'o', 'n', 'r', 'i', 's', 'e']);
    assert("moonset"@ =~= seq!['m', 'o', 'o', 'n', 's', 'e', 't']);
    assert("moon_phase"@ =~= seq!['m', 'o', 'o', 'n', '_', 'p', 'h', 'a', 's', 'e']);
    assert("temp"@ =~= seq!['t', 'e', 'm', 'p']);
    assert("feels_like"@ =~= seq!['f', 'e', 'e', 'l', 's', '_', 'l', 'i', 'k', 'e']);
    assert("pressure"@ =~= seq!['p', 'r', 'e', 's', 's', 'u', 'r', 'e']);
    assert("humidity"@ =~= seq!['h', 'u', 'm', 'i', 'd', 'i', 't', 'y']);
    assert("dew_point"@ =~= seq!['d', 'e', 'w', '_', 'p', 'o', 'i', 'n', 't']);
    assert("wind_speed"@ =~= seq!['w', 'i', 'n', 'd', '_', 's', 'p', 'e', 'e', 'd']);
    assert("wind_deg"@ =~= seq!['w', 'i', 'n', 'd', '_', 'd', 'e', 'g']);
    assert("wind_gust"@ =~= seq!['w', 'i', 'n', 'd', '_', 'g', 'u', 's', 't']);
    assert("weather"@ =~= seq!['w', 'e', 'a', 't', 'h', 'e', 'r']);
    assert("clouds"@ =~= seq!['c', 'l', 'o', 'u', 'd', 's']);
    assert("pop"@ =~= seq!['p', 'o', 'p']);
    assert("rain"@ =~= seq!['r', 'a', 'i', 'n']);
    assert("uvi"@ =~= seq!['u', 'v', 'i']);
    lemma_lookups();
}
} // verus!
