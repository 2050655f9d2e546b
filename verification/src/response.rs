//! The report as a whole.

use crate::current::{Current, CurrentView};
use crate::decode::{
    field, field_items, FromJson, maybe_items, optional_list, required, required_list,
};
use crate::encode::{
    lemma_items_round_trip, lemma_lookups, new_members, no_members, object, put, put_items,
    put_list, put_maybe_items, put_member, put_optional_list, ToJson, valid_items,
    valid_maybe_items, written_items,
};
use crate::fault::{ErrorKind, Fault, OnecallError, OnecallErrorView, SchemaError, SchemaErrorView};
use crate::forecast::{Daily, DailyView, Hourly, HourlyView, Minutely, MinutelyView};
use crate::json::{document, Json, JsonView};
use crate::number::Number;
use crate::views::{option_views, views};
use vstd::prelude::*;

verus! {

/// A report: the weather at one place, now and to come.
#[derive(Clone, Debug, PartialEq)]
pub struct OnecallResponse {
    /// The latitude of the place.
    pub lat: Number,
    /// The longitude of the place.
    pub lon: Number,
    /// The name of the time zone of the place.
    pub timezone: String,
    /// The shift of that zone from UTC, in seconds.
    pub timezone_offset: i32,
    /// The current weather.
    pub current: Current,
    /// The forecast minute by minute, where the service has one for the
    /// place.
    pub minutely: Option<Vec<Minutely>>,
    /// The forecast hour by hour.
    pub hourly: Vec<Hourly>,
    /// The forecast day by day.
    pub daily: Vec<Daily>,
}

/// The mathematical value of an [`OnecallResponse`].
pub ghost struct OnecallResponseView {
    pub lat: Number,
    pub lon: Number,
    pub timezone: Seq<char>,
    pub timezone_offset: i32,
    pub current: CurrentView,
    pub minutely: Option<Seq<MinutelyView>>,
    pub hourly: Seq<HourlyView>,
    pub daily: Seq<DailyView>,
}

impl View for OnecallResponse {
    type V = OnecallResponseView;

    open spec fn view(&self) -> OnecallResponseView {
        OnecallResponseView {
            lat: self.lat@,
            lon: self.lon@,
            timezone: self.timezone@,
            timezone_offset: self.timezone_offset@,
            current: self.current@,
            minutely: option_views(self.minutely),
            hourly: views(self.hourly@),
            daily: views(self.daily@),
        }
    }
}

impl FromJson for OnecallResponse {
    /// An object whose members fit the fields of [`OnecallResponse`]; of several
    /// members that do not fit, the error names the first in the order of the
    /// fields.
    open spec fn read(json: JsonView) -> Result<OnecallResponseView, SchemaErrorView> {
        let lat = field::<Number>(json, "lat"@);
        let lon = field::<Number>(json, "lon"@);
        let timezone = field::<String>(json, "timezone"@);
        let timezone_offset = field::<i32>(json, "timezone_offset"@);
        let current = field::<Current>(json, "current"@);
        let minutely = maybe_items::<Minutely>(json, "minutely"@);
        let hourly = field_items::<Hourly>(json, "hourly"@);
        let daily = field_items::<Daily>(json, "daily"@);
        if !(json is Object) {
            Err(SchemaErrorView::here(Fault::WrongType))
        } else if lat is Err {
            Err(lat->Err_0)
        } else if lon is Err {
            Err(lon->Err_0)
        } else if timezone is Err {
            Err(timezone->Err_0)
        } else if timezone_offset is Err {
            Err(timezone_offset->Err_0)
        } else if current is Err {
            Err(current->Err_0)
        } else if minutely is Err {
            Err(minutely->Err_0)
        } else if hourly is Err {
            Err(hourly->Err_0)
        } else if daily is Err {
            Err(daily->Err_0)
        } else {
            Ok(
                OnecallResponseView {
                    lat: lat->Ok_0,
                    lon: lon->Ok_0,
                    timezone: timezone->Ok_0,
                    timezone_offset: timezone_offset->Ok_0,
                    current: current->Ok_0,
                    minutely: minutely->Ok_0,
                    hourly: hourly->Ok_0,
                    daily: daily->Ok_0,
                },
            )
        }
    }

    fn from_json(json: &Json) -> (decoded: Result<OnecallResponse, SchemaError>) {
        if !json.is_object() {
            return Err(SchemaError::here(Fault::WrongType));
        }
        let lat = required::<Number>(json, "lat")?;
        let lon = required::<Number>(json, "lon")?;
        let timezone = required::<String>(json, "timezone")?;
        let timezone_offset = required::<i32>(json, "timezone_offset")?;
        let current = required::<Current>(json, "current")?;
        let minutely = optional_list::<Minutely>(json, "minutely")?;
        let hourly = required_list::<Hourly>(json, "hourly")?;
        let daily = required_list::<Daily>(json, "daily")?;
        Ok(
            OnecallResponse {
                lat,
                lon,
                timezone,
                timezone_offset,
                current,
                minutely,
                hourly,
                daily,
            },
        )
    }
}

impl ToJson for OnecallResponse {
    /// The instants in `value` are representable.
    open spec fn valid(value: OnecallResponseView) -> bool {
        &&& Current::valid(value.current)
        &&& valid_maybe_items::<Minutely>(value.minutely)
        &&& valid_items::<Hourly>(value.hourly)
        &&& valid_items::<Daily>(value.daily)
    }

    /// An object with one member for each field that is there, in the order
    /// of the fields.
    open spec fn written(value: OnecallResponseView) -> JsonView {
        JsonView::Object(
            no_members() + put::<Number>("lat"@, value.lat)
                + put::<Number>("lon"@, value.lon)
                + put::<String>("timezone"@, value.timezone)
                + put::<i32>("timezone_offset"@, value.timezone_offset)
                + put::<Current>("current"@, value.current)
                + put_maybe_items::<Minutely>("minutely"@, value.minutely)
                + put_items::<Hourly>("hourly"@, value.hourly)
                + put_items::<Daily>("daily"@, value.daily),
        )
    }

    fn to_json(&self) -> (json: Json) {
        let mut members = new_members();
        put_member::<Number>(&mut members, "lat", &self.lat);
        put_member::<Number>(&mut members, "lon", &self.lon);
        put_member::<String>(&mut members, "timezone", &self.timezone);
        put_member::<i32>(&mut members, "timezone_offset", &self.timezone_offset);
        put_member::<Current>(&mut members, "current", &self.current);
        put_optional_list::<Minutely>(&mut members, "minutely", &self.minutely);
        put_list::<Hourly>(&mut members, "hourly", &self.hourly);
        put_list::<Daily>(&mut members, "daily", &self.daily);
        object(members)
    }

    proof fn round_trip(value: OnecallResponseView) {
        lemma_onecall_response_members(value);
        Number::round_trip(value.lat);
        Number::round_trip(value.lon);
        String::round_trip(value.timezone);
        i32::round_trip(value.timezone_offset);
        Current::round_trip(value.current);
        if value.minutely is Some {
            lemma_items_round_trip::<Minutely>(value.minutely->Some_0);
        }
        lemma_items_round_trip::<Hourly>(value.hourly);
        lemma_items_round_trip::<Daily>(value.daily);
    }
}

/// In the encoding of an [`OnecallResponse`], each key finds the member that was
/// written under it, and the key of an absent field finds none.
pub proof fn lemma_onecall_response_members(value: OnecallResponseView)
    ensures
        OnecallResponse::written(value).member("lat"@) == Some(Number::written(value.lat)),
        OnecallResponse::written(value).member("lon"@) == Some(Number::written(value.lon)),
        OnecallResponse::written(value).member("timezone"@) == Some(String::written(value.timezone)),
        OnecallResponse::written(value).member("timezone_offset"@) == Some(i32::written(value.timezone_offset)),
        OnecallResponse::written(value).member("current"@) == Some(Current::written(value.current)),
        OnecallResponse::written(value).member("minutely"@) == match value.minutely {
            Some(x) => Some(written_items::<Minutely>(x)),
            None => None,
        },
        OnecallResponse::written(value).member("hourly"@) == Some(written_items::<Hourly>(value.hourly)),
        OnecallResponse::written(value).member("daily"@) == Some(written_items::<Daily>(value.daily)),
{
    reveal_strlit("lat");
    reveal_strlit("lon");
    reveal_strlit("timezone");
    reveal_strlit("timezone_offset");
    reveal_strlit("current");
    reveal_strlit("minutely");
    reveal_strlit("hourly");
    reveal_strlit("daily");
    assert("lat"@ =~= seq!['l', 'a', 't']);
    assert("lon"@ =~= seq!['l', 'o', 'n']);
    assert("timezone"@ =~= seq!['t', 'i', 'm', 'e', 'z', 'o', 'n', 'e']);
    assert("timezone_offset"@ =~= seq!['t', 'i', 'm', 'e', 'z', 'o', 'n', 'e', '_', 'o', 'f', 'f', 's', 'e', 't']);
    assert("current"@ =~= seq!['c', 'u', 'r', 'r', 'e', 'n', 't']);
    assert("minutely"@ =~= seq!['m', 'i', 'n', 'u', 't', 'e', 'l', 'y']);
    assert("hourly"@ =~= seq!['h', 'o', 'u', 'r', 'l', 'y']);
    assert("daily"@ =~= seq!['d', 'a', 'i', 'l', 'y']);
    lemma_lookups();
}
/// Whether `status` is one of the statuses of success.
pub open spec fn is_success(status: u16) -> bool {
    200 <= status <= 299
}

/// What the body of a reply gives, by the document that the body spells: the
/// report that the document decodes to; a syntax error where the body spells
/// no document; a schema error where the document is no report.
pub open spec fn report_of(document: Option<JsonView>) -> Result<
    OnecallResponseView,
    OnecallErrorView,
> {
    match document {
        None => Err(OnecallErrorView::Syntax),
        Some(json) => match OnecallResponse::read(json) {
            Ok(report) => Ok(report),
            Err(error) => Err(OnecallErrorView::Schema(error)),
        },
    }
}

/// What a reply gives: with a status of success, what its body gives; with
/// any other status an error that holds the status, whatever the body.
pub open spec fn reply_report(status: u16, document: Option<JsonView>) -> Result<
    OnecallResponseView,
    OnecallErrorView,
> {
    if is_success(status) {
        report_of(document)
    } else {
        Err(OnecallErrorView::Status(status))
    }
}

/// The mathematical value of what reading a reply returned.
pub open spec fn report_outcome(report: Result<OnecallResponse, OnecallError>) -> Result<
    OnecallResponseView,
    OnecallErrorView,
> {
    match report {
        Ok(report) => Ok(report@),
        Err(error) => Err(error@),
    }
}

impl OnecallResponse {
    /// Decodes the body of a reply.
    pub fn from_slice(body: &[u8]) -> (report: Result<OnecallResponse, OnecallError>)
        ensures
            report_outcome(report) == report_of(document(body@)),
    {
        match Json::read(body) {
            Ok(json) => match OnecallResponse::from_json(&json) {
                Ok(report) => Ok(report),
                Err(error) => Err(OnecallError::Schema(error)),
            },
            Err(message) => Err(OnecallError::Syntax(message)),
        }
    }

    /// Reads a reply: the report in its body where the status is one of
    /// success, else the status as an error.
    pub fn from_reply(status: u16, body: &[u8]) -> (report: Result<OnecallResponse, OnecallError>)
        ensures
            report_outcome(report) == reply_report(status, document(body@)),
    {
        if 200 <= status && status <= 299 {
            OnecallResponse::from_slice(body)
        } else {
            Err(OnecallError::Status(status))
        }
    }
}

/// Whether `key` is the key of a member that every report must have.
pub open spec fn is_required_key(key: Seq<char>) -> bool {
    ||| key == "lat"@
    ||| key == "lon"@
    ||| key == "timezone"@
    ||| key == "timezone_offset"@
    ||| key == "current"@
    ||| key == "hourly"@
    ||| key == "daily"@
}

/// A document that lacks a required member, such as `daily`, is no report:
/// it gives a schema error, which is of the parse kind, and never a report
/// with a default in the member's place.
pub proof fn lemma_required_member_absent(json: JsonView, key: Seq<char>)
    requires
        is_required_key(key),
        json.member(key) is None,
    ensures
        OnecallResponse::read(json) is Err,
        report_of(Some(json)) is Err,
        report_of(Some(json))->Err_0 is Schema,
        report_of(Some(json))->Err_0.kind() == ErrorKind::Parse,
{
}

/// A document without `minutely` decodes as the same document with
/// `minutely` does, but for the series, which is absent: when `with` is a
/// report, and `without` has no member `minutely` and under every other key
/// what `with` has, then `without` is the same report with no minutely
/// series.
pub proof fn lemma_minutely_may_be_absent(with: JsonView, without: JsonView)
    requires
        without.member("minutely"@) is None,
        forall|key: Seq<char>| key != "minutely"@ ==> without.member(key) == with.member(key),
        OnecallResponse::read(with) is Ok,
    ensures
        OnecallResponse::read(without) == Ok::<_, SchemaErrorView>(
            OnecallResponseView { minutely: None, ..OnecallResponse::read(with)->Ok_0 },
        ),
{
    reveal_strlit("lat");
    reveal_strlit("lon");
    reveal_strlit("timezone");
    reveal_strlit("timezone_offset");
    reveal_strlit("current");
    reveal_strlit("minutely");
    reveal_strlit("hourly");
    reveal_strlit("daily");
    assert("lat"@ =~= seq!['l', 'a', 't']);
    assert("lon"@ =~= seq!['l', 'o', 'n']);
    assert("timezone"@ =~= seq!['t', 'i', 'm', 'e', 'z', 'o', 'n', 'e']);
    assert("timezone_offset"@ =~= seq!['t', 'i', 'm', 'e', 'z', 'o', 'n', 'e', '_', 'o', 'f', 'f', 's', 'e', 't']);
    assert("current"@ =~= seq!['c', 'u', 'r', 'r', 'e', 'n', 't']);
    assert("minutely"@ =~= seq!['m', 'i', 'n', 'u', 't', 'e', 'l', 'y']);
    assert("hourly"@ =~= seq!['h', 'o', 'u', 'r', 'l', 'y']);
    assert("daily"@ =~= seq!['d', 'a', 'i', 'l', 'y']);
}

/// Encoding a report and decoding what was encoded gives the report back,
/// field for field; so does reading the encoding as the body of a reply.
pub proof fn lemma_report_round_trip(report: OnecallResponseView)
    requires
        OnecallResponse::valid(report),
    ensures
        OnecallResponse::read(OnecallResponse::written(report)) == Ok::<_, SchemaErrorView>(
            report,
        ),
        report_of(Some(OnecallResponse::written(report))) == Ok::<_, OnecallErrorView>(report),
{
    OnecallResponse::round_trip(report);
}

} // verus!
