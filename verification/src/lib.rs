//! The OpenWeather One Call API, from the side of a client: the URL of the
//! request for a place, and the report that the body of the reply decodes to.
//!
//! The library sends nothing. [`OpenWeatherClient::onecall_url`] gives the
//! URL to get; [`OnecallResponse::from_reply`] takes the status and the body
//! that came back and gives the report, or says why there is none.
//!
//! No floating-point number stands in the library. A measurement is held as
//! the [`Number`] that the document gave, a coordinate as the decimal text
//! that the request carries, and an instant as a [`Timestamp`] of whole
//! seconds.

pub mod client;
pub mod conditions;
pub mod coords;
pub mod current;
pub mod decode;
pub mod encode;
pub mod fault;
pub mod forecast;
pub mod instant;
pub mod json;
pub mod number;
pub mod response;
pub mod text;
pub mod views;

pub use client::OpenWeatherClient;
pub use conditions::{Alert, AlertView, Rain, RainView, Weather, WeatherView};
pub use coords::Coords;
pub use current::{Current, CurrentView};
pub use decode::FromJson;
pub use encode::ToJson;
pub use fault::{
    ErrorKind, Fault, OnecallError, OnecallErrorView, SchemaError, SchemaErrorView, Step, StepView,
};
pub use forecast::{
    Daily, DailyView, FeelsLike, FeelsLikeView, Hourly, HourlyView, Minutely, MinutelyView, Temp,
    TempView,
};
pub use instant::Timestamp;
pub use json::{Json, JsonView, Member, MemberView};
pub use number::Number;
pub use response::{OnecallResponse, OnecallResponseView};
