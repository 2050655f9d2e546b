//! Weather conditions, precipitation and alerts: the small records that the
//! larger ones hold.

use crate::decode::{field, field_items, FromJson, required, required_list};
use crate::encode::{
    lemma_items_round_trip, lemma_lookups, new_members, no_members, object, put, put_items,
    put_list, put_member, ToJson, written_items,
};
use crate::fault::{Fault, SchemaError, SchemaErrorView};
use crate::instant::Timestamp;
use crate::json::{Json, JsonView};
use crate::number::Number;
use crate::views::views;
use vstd::prelude::*;

verus! {

/// One weather condition.
#[derive(Clone, Debug, PartialEq)]
pub struct Weather {
    /// The numeric code of the condition.
    pub id: u32,
    /// The short category, such as `Rain`.
    pub main: String,
    /// The condition in words.
    pub description: String,
    /// The identifier of the icon.
    pub icon: String,
}

/// The mathematical value of a [`Weather`].
pub ghost struct WeatherView {
    pub id: u32,
    pub main: Seq<char>,
    pub description: Seq<char>,
    pub icon: Seq<char>,
}

impl View for Weather {
    type V = WeatherView;

    open spec fn view(&self) -> WeatherView {
        WeatherView {
            id: self.id@,
            main: self.main@,
            description: self.description@,
            icon: self.icon@,
        }
    }
}

impl FromJson for Weather {
    /// An object whose members fit the fields of [`Weather`]; of several
    /// members that do not fit, the error names the first in the order of the
    /// fields.
    open spec fn read(json: JsonView) -> Result<WeatherView, SchemaErrorView> {
        let id = field::<u32>(json, "id"@);
        let main = field::<String>(json, "main"@);
        let description = field::<String>(json, "description"@);
        let icon = field::<String>(json, "icon"@);
        if !(json is Object) {
            Err(SchemaErrorView::here(Fault::WrongType))
        } else if id is Err {
            Err(id->Err_0)
        } else if main is Err {
            Err(main->Err_0)
        } else if description is Err {
            Err(description->Err_0)
        } else if icon is Err {
            Err(icon->Err_0)
        } else {
            Ok(
                WeatherView {
                    id: id->Ok_0,
                    main: main->Ok_0,
                    description: description->Ok_0,
                    icon: icon->Ok_0,
                },
            )
        }
    }

    fn from_json(json: &Json) -> (decoded: Result<Weather, SchemaError>) {
        if !json.is_object() {
            return Err(SchemaError::here(Fault::WrongType));
        }
        let id = required::<u32>(json, "id")?;
        let main = required::<String>(json, "main")?;
        let description = required::<String>(json, "description")?;
        let icon = required::<String>(json, "icon")?;
        Ok(Weather { id, main, description, icon })
    }
}

impl ToJson for Weather {
    /// Every value is one of a [`Weather`].
    open spec fn valid(value: WeatherView) -> bool {
        true
    }

    /// An object with one member for each field that is there, in the order
    /// of the fields.
    open spec fn written(value: WeatherView) -> JsonView {
        JsonView::Object(
            no_members() + put::<u32>("id"@, value.id)
                + put::<String>("main"@, value.main)
                + put::<String>("description"@, value.description)
                + put::<String>("icon"@, value.icon),
        )
    }

    fn to_json(&self) -> (json: Json) {
        let mut members = new_members();
        put_member::<u32>(&mut members, "id", &self.id);
        put_member::<String>(&mut members, "main", &self.main);
        put_member::<String>(&mut members, "description", &self.description);
        put_member::<String>(&mut members, "icon", &self.icon);
        object(members)
    }

    proof fn round_trip(value: WeatherView) {
        lemma_weather_members(value);
        u32::round_trip(value.id);
        String::round_trip(value.main);
        String::round_trip(value.description);
        String::round_trip(value.icon);
    }
}

/// In the encoding of a [`Weather`], each key finds the member that was
/// written under it, and the key of an absent field finds none.
pub proof fn lemma_weather_members(value: WeatherView)
    ensures
        Weather::written(value).member("id"@) == Some(u32::written(value.id)),
        Weather::written(value).member("main"@) == Some(String::written(value.main)),
        Weather::written(value).member("description"@) == Some(String::written(value.description)),
        Weather::written(value).member("icon"@) == Some(String::written(value.icon)),
{
    reveal_strlit("id");
    reveal_strlit("main");
    reveal_strlit("description");
    reveal_strlit("icon");
    assert("id"@ =~= seq!['i', 'd']);
    assert("main"@ =~= seq!['m', 'a', 'i', 'n']);
    assert("description"@ =~= seq!['d', 'e', 's', 'c', 'r', 'i', 'p', 't', 'i', 'o', 'n']);
    assert("icon"@ =~= seq!['i', 'c', 'o', 'n']);
    lemma_lookups();
}

/// A precipitation volume.
#[derive(Clone, Debug, PartialEq)]
pub struct Rain {
    /// The volume of the last hour, in millimetres. Its key in a document is
    /// `1h`.
    pub one_hour: Number,
}

/// The mathematical value of a [`Rain`].
pub ghost struct RainView {
    pub one_hour: Number,
}

impl View for Rain {
    type V = RainView;

    open spec fn view(&self) -> RainView {
        RainView {
            one_hour: self.one_hour@,
        }
    }
}

impl FromJson for Rain {
    /// An object whose members fit the fields of [`Rain`]; of several
    /// members that do not fit, the error names the first in the order of the
    /// fields.
    open spec fn read(json: JsonView) -> Result<RainView, SchemaErrorView> {
        let one_hour = field::<Number>(json, "1h"@);
        if !(json is Object) {
            Err(SchemaErrorView::here(Fault::WrongType))
        } else if one_hour is Err {
            Err(one_hour->Err_0)
        } else {
            Ok(
                RainView {
                    one_hour: one_hour->Ok_0,
                },
            )
        }
    }

    fn from_json(json: &Json) -> (decoded: Result<Rain, SchemaError>) {
        if !json.is_object() {
            return Err(SchemaError::here(Fault::WrongType));
        }
        let one_hour = required::<Number>(json, "1h")?;
        Ok(Rain { one_hour })
    }
}

impl ToJson for Rain {
    /// Every value is one of a [`Rain`].
    open spec fn valid(value: RainView) -> bool {
        true
    }

    /// An object with one member for each field that is there, in the order
    /// of the fields.
    open spec fn written(value: RainView) -> JsonView {
        JsonView::Object(
            no_members() + put::<Number>("1h"@, value.one_hour),
        )
    }

    fn to_json(&self) -> (json: Json) {
        let mut members = new_members();
        put_member::<Number>(&mut members, "1h", &self.one_hour);
        object(members)
    }

    proof fn round_trip(value: RainView) {
        lemma_rain_members(value);
        Number::round_trip(value.one_hour);
    }
}

/// In the encoding of a [`Rain`], each key finds the member that was
/// written under it, and the key of an absent field finds none.
pub proof fn lemma_rain_members(value: RainView)
    ensures
        Rain::written(value).member("1h"@) == Some(Number::written(value.one_hour)),
{
    reveal_strlit("1h");
    assert("1h"@ =~= seq!['1', 'h']);
    lemma_lookups();
}

/// A weather alert of a national service.
#[derive(Clone, Debug, PartialEq)]
pub struct Alert {
    /// The name of the service that issued the alert.
    pub sender_name: String,
    /// The name of the event.
    pub event: String,
    /// When the alert begins.
    pub start: Timestamp,
    /// When the alert ends.
    pub end: Timestamp,
    /// The alert in words.
    pub description: String,
    /// The kinds of severe weather.
    pub tags: Vec<String>,
}

/// The mathematical value of an [`Alert`].
pub ghost struct AlertView {
    pub sender_name: Seq<char>,
    pub event: Seq<char>,
    pub start: int,
    pub end: int,
    pub description: Seq<char>,
    pub tags: Seq<Seq<char>>,
}

impl View for Alert {
    type V = AlertView;

    open spec fn view(&self) -> AlertView {
        AlertView {
            sender_name: self.sender_name@,
            event: self.event@,
            start: self.start@,
            end: self.end@,
            description: self.description@,
            tags: views(self.tags@),
        }
    }
}

impl FromJson for Alert {
    /// An object whose members fit the fields of [`Alert`]; of several
    /// members that do not fit, the error names the first in the order of the
    /// fields.
    open spec fn read(json: JsonView) -> Result<AlertView, SchemaErrorView> {
        let sender_name = field::<String>(json, "sender_name"@);
        let event = field::<String>(json, "event"@);
        let start = field::<Timestamp>(json, "start"@);
        let end = field::<Timestamp>(json, "end"@);
        let description = field::<String>(json, "description"@);
        let tags = field_items::<String>(json, "tags"@);
        if !(json is Object) {
            Err(SchemaErrorView::here(Fault::WrongType))
        } else if sender_name is Err {
            Err(sender_name->Err_0)
        } else if event is Err {
            Err(event->Err_0)
        } else if start is Err {
            Err(start->Err_0)
        } else if end is Err {
            Err(end->Err_0)
        } else if description is Err {
            Err(description->Err_0)
        } else if tags is Err {
            Err(tags->Err_0)
        } else {
            Ok(
                AlertView {
                    sender_name: sender_name->Ok_0,
                    event: event->Ok_0,
                    start: start->Ok_0,
                    end: end->Ok_0,
                    description: description->Ok_0,
                    tags: tags->Ok_0,
                },
            )
        }
    }

    fn from_json(json: &Json) -> (decoded: Result<Alert, SchemaError>) {
        if !json.is_object() {
            return Err(SchemaError::here(Fault::WrongType));
        }
        let sender_name = required::<String>(json, "sender_name")?;
        let event = required::<String>(json, "event")?;
        let start = required::<Timestamp>(json, "start")?;
        let end = required::<Timestamp>(json, "end")?;
        let description = required::<String>(json, "description")?;
        let tags = required_list::<String>(json, "tags")?;
        Ok(Alert { sender_name, event, start, end, description, tags })
    }
}

impl ToJson for Alert {
    /// The instants in `value` are representable.
    open spec fn valid(value: AlertView) -> bool {
        &&& Timestamp::valid(value.start)
        &&& Timestamp::valid(value.end)
    }

    /// An object with one member for each field that is there, in the order
    /// of the fields.
    open spec fn written(value: AlertView) -> JsonView {
        JsonView::Object(
            no_members() + put::<String>("sender_name"@, value.sender_name)
                + put::<String>("event"@, value.event)
                + put::<Timestamp>("start"@, value.start)
                + put::<Timestamp>("end"@, value.end)
                + put::<String>("description"@, value.description)
                + put_items::<String>("tags"@, value.tags),
        )
    }

    fn to_json(&self) -> (json: Json) {
        let mut members = new_members();
        put_member::<String>(&mut members, "sender_name", &self.sender_name);
        put_member::<String>(&mut members, "event", &self.event);
        put_member::<Timestamp>(&mut members, "start", &self.start);
        put_member::<Timestamp>(&mut members, "end", &self.end);
        put_member::<String>(&mut members, "description", &self.description);
        put_list::<String>(&mut members, "tags", &self.tags);
        object(members)
    }

    proof fn round_trip(value: AlertView) {
        lemma_alert_members(value);
        String::round_trip(value.sender_name);
        String::round_trip(value.event);
        Timestamp::round_trip(value.start);
        Timestamp::round_trip(value.end);
        String::round_trip(value.description);
        lemma_items_round_trip::<String>(value.tags);
    }
}

/// In the encoding of an [`Alert`], each key finds the member that was
/// written under it, and the key of an absent field finds none.
pub proof fn lemma_alert_members(value: AlertView)
    ensures
        Alert::written(value).member("sender_name"@) == Some(String::written(value.sender_name)),
        Alert::written(value).member("event"@) == Some(String::written(value.event)),
        Alert::written(value).member("start"@) == Some(Timestamp::written(value.start)),
        Alert::written(value).member("end"@) == Some(Timestamp::written(value.end)),
        Alert::written(value).member("description"@) == Some(String::written(value.description)),
        Alert::written(value).member("tags"@) == Some(written_items::<String>(value.tags)),
{
    reveal_strlit("sender_name");
    reveal_strlit("event");
    reveal_strlit("start");
    reveal_strlit("end");
    reveal_strlit("description");
    reveal_strlit("tags");
    assert("sender_name"@ =~= seq!['s', 'e', 'n', 'd', 'e', 'r', '_', 'n', 'a', 'm', 'e']);
    assert("event"@ =~= seq!['e', 'v', 'e', 'n', 't']);
    assert("start"@ =~= seq!['s', 't', 'a', 'r', 't']);
    assert("end"@ =~= seq!['e', 'n', 'd']);
    assert("description"@ =~= seq!['d', 'e', 's', 'c', 'r', 'i', 'p', 't', 'i', 'o', 'n']);
    assert("tags"@ =~= seq!['t', 'a', 'g', 's']);
    lemma_lookups();
}
/// The volume of the last hour is read from the member whose key is `1h`: an
/// object that holds a number under that key is a [`Rain`] of that number,
/// whatever else the object holds.
pub proof fn lemma_one_hour_key(json: JsonView, volume: Number)
    requires
        json is Object,
        json.member("1h"@) == Some(JsonView::Number(volume)),
    ensures
        Rain::read(json) == Ok::<_, SchemaErrorView>(RainView { one_hour: volume }),
{
}

} // verus!
