//! The client: the credential and the request that carries it.

use crate::coords::{lemma_degrees_have_no_mark, Coords};
use vstd::prelude::*;
use vstd::string::StringExecFns;

verus! {

/// The address of the service.
pub open spec fn endpoint() -> Seq<char> {
    "https://api.openweathermap.org/data/2.5/onecall"@
}

/// The query of a request: the latitude, the longitude and the credential,
/// in that order.
pub open spec fn query_text(lat: Seq<char>, lon: Seq<char>, api_key: Seq<char>) -> Seq<char> {
    "lat="@ + lat + "&lon="@ + lon + "&appid="@ + api_key
}

/// The URL of a request: the address, a question mark and the query.
pub open spec fn request_text(lat: Seq<char>, lon: Seq<char>, api_key: Seq<char>) -> Seq<char> {
    endpoint() + "?"@ + query_text(lat, lon, api_key)
}

/// Where `mark` first stands in `text`; the length of `text` where it stands
/// nowhere.
pub open spec fn position(text: Seq<char>, mark: char) -> int
    decreases text.len(),
{
    if text.len() == 0 || text[0] == mark {
        0
    } else {
        1 + position(text.drop_first(), mark)
    }
}

/// The query of the request `url`: what follows the first question mark.
pub open spec fn query_of(url: Seq<char>) -> Seq<char> {
    url.skip(position(url, '?') + 1)
}

/// The pieces of `text` that the occurrences of `mark` part; there is one
/// piece more than there are marks.
pub open spec fn split(text: Seq<char>, mark: char) -> Seq<Seq<char>>
    decreases text.len(),
{
    if text.len() == 0 {
        seq![Seq::empty()]
    } else {
        let rest = split(text.drop_first(), mark);
        if text[0] == mark {
            seq![Seq::empty()] + rest
        } else {
            seq![seq![text[0]] + rest[0]] + rest.drop_first()
        }
    }
}

/// A mark after `head`, which holds none, is the first.
pub proof fn lemma_position(head: Seq<char>, tail: Seq<char>, mark: char)
    requires
        !head.contains(mark),
    ensures
        position(head + seq![mark] + tail, mark) == head.len(),
    decreases head.len(),
{
    let text = head + seq![mark] + tail;
    if head.len() == 0 {
        assert(text[0] == mark);
    } else {
        assert(head[0] != mark);
        assert(text[0] == head[0]);
        assert(text.drop_first() =~= head.drop_first() + seq![mark] + tail);
        assert forall|i: int| 0 <= i < head.drop_first().len() implies head.drop_first()[i]
            != mark by {
            assert(head.drop_first()[i] == head[i + 1]);
        }
        lemma_position(head.drop_first(), tail, mark);
    }
}

/// The address of the service holds no question mark.
pub proof fn lemma_endpoint_is_plain()
    ensures
        !endpoint().contains('?'),
{
    reveal_strlit("https://api.openweathermap.org/data/2.5/onecall");
    assert(endpoint() =~= seq![
        'h', 't', 't', 'p', 's', ':', '/', '/', 'a', 'p', 'i', '.', 'o', 'p', 'e', 'n', 'w', 'e',
        'a', 't', 'h', 'e', 'r', 'm', 'a', 'p', '.', 'o', 'r', 'g', '/', 'd', 'a', 't', 'a', '/',
        '2', '.', '5', '/', 'o', 'n', 'e', 'c', 'a', 'l', 'l',
    ]);
}

/// A text that begins with `head`, which holds no mark, parts as what follows
/// `head` does, with `head` before the first piece.
pub proof fn lemma_split_head(head: Seq<char>, tail: Seq<char>, mark: char)
    requires
        !head.contains(mark),
    ensures
        split(tail, mark).len() > 0,
        split(head + tail, mark) == seq![head + split(tail, mark)[0]] + split(
            tail,
            mark,
        ).drop_first(),
    decreases head.len() + tail.len(),
{
    let pieces = split(tail, mark);
    if tail.len() > 0 {
        lemma_split_head(Seq::empty(), tail.drop_first(), mark);
    }
    if head.len() == 0 {
        assert(head + tail =~= tail);
        assert(head + pieces[0] =~= pieces[0]);
        assert(seq![pieces[0]] + pieces.drop_first() =~= pieces);
    } else {
        let text = head + tail;
        assert(head[0] != mark);
        assert(text[0] == head[0]);
        assert(text.drop_first() =~= head.drop_first() + tail);
        assert forall|i: int| 0 <= i < head.drop_first().len() implies head.drop_first()[i]
            != mark by {
            assert(head.drop_first()[i] == head[i + 1]);
        }
        lemma_split_head(head.drop_first(), tail, mark);
        assert(seq![head[0]] + (head.drop_first() + pieces[0]) =~= head + pieces[0]);
    }
}

/// A mark after `head`, which holds none, ends the first piece.
pub proof fn lemma_split_at_mark(head: Seq<char>, tail: Seq<char>, mark: char)
    requires
        !head.contains(mark),
    ensures
        split(head + seq![mark] + tail, mark) == seq![head] + split(tail, mark),
{
    let rest = seq![mark] + tail;
    assert(rest.drop_first() =~= tail);
    assert(split(rest, mark) == seq![Seq::<char>::empty()] + split(tail, mark));
    lemma_split_head(head, rest, mark);
    assert(head + seq![mark] + tail =~= head + rest);
    assert(head + Seq::<char>::empty() =~= head);
    assert(split(rest, mark).drop_first() =~= split(tail, mark));
}

/// A text that holds no mark is one piece.
pub proof fn lemma_split_whole(text: Seq<char>, mark: char)
    requires
        !text.contains(mark),
    ensures
        split(text, mark) == seq![text],
{
    lemma_split_head(text, Seq::empty(), mark);
    assert(text + Seq::<char>::empty() =~= text);
    assert(seq![text] + seq![Seq::<char>::empty()].drop_first() =~= seq![text]);
}

/// The query of a request, which is what follows the first question mark of
/// its URL, holds exactly three parameters: `lat`, `lon` and `appid` with
/// their values, in that order; this for every latitude, longitude and
/// credential that hold no `&`.
pub proof fn lemma_query_parameters(lat: Seq<char>, lon: Seq<char>, api_key: Seq<char>)
    requires
        !lat.contains('&'),
        !lon.contains('&'),
        !api_key.contains('&'),
    ensures
        query_of(request_text(lat, lon, api_key)) == query_text(lat, lon, api_key),
        split(query_text(lat, lon, api_key), '&') == seq![
            "lat="@ + lat,
            "lon="@ + lon,
            "appid="@ + api_key,
        ],
{
    reveal_strlit("?");
    reveal_strlit("lat=");
    reveal_strlit("lon=");
    reveal_strlit("appid=");
    reveal_strlit("&lon=");
    reveal_strlit("&appid=");
    let first = "lat="@ + lat;
    let second = "lon="@ + lon;
    let third = "appid="@ + api_key;
    let amp = seq!['&'];
    assert("&lon="@ =~= amp + "lon="@);
    assert("&appid="@ =~= amp + "appid="@);
    assert(query_text(lat, lon, api_key) =~= first + amp + (second + amp + third));
    assert(!first.contains('&')) by {
        if first.contains('&') {
            let i = choose|i: int| 0 <= i < first.len() && first[i] == '&';
            if i >= 4 {
                assert(lat[i - 4] == '&');
            }
        }
    }
    assert(!second.contains('&')) by {
        if second.contains('&') {
            let i = choose|i: int| 0 <= i < second.len() && second[i] == '&';
            if i >= 4 {
                assert(lon[i - 4] == '&');
            }
        }
    }
    assert(!third.contains('&')) by {
        if third.contains('&') {
            let i = choose|i: int| 0 <= i < third.len() && third[i] == '&';
            if i >= 6 {
                assert(api_key[i - 6] == '&');
            }
        }
    }
    lemma_split_whole(third, '&');
    lemma_split_at_mark(second, third, '&');
    lemma_split_at_mark(first, second + amp + third, '&');
    assert(seq![first] + (seq![second] + seq![third]) =~= seq![first, second, third]);
    lemma_endpoint_is_plain();
    lemma_position(endpoint(), query_text(lat, lon, api_key), '?');
    assert("?"@ =~= seq!['?']);
    assert(query_of(request_text(lat, lon, api_key)) =~= query_text(lat, lon, api_key));
}

/// Holds the credential that every request carries.
pub struct OpenWeatherClient<'a> {
    api_key: &'a str,
}

impl<'a> OpenWeatherClient<'a> {
    /// The credential that the client holds.
    pub closed spec fn credential(self) -> Seq<char> {
        self.api_key@
    }

    /// Makes a client that holds `api_key`; nothing is validated or sent.
    pub fn new(api_key: &'a str) -> (client: Self)
        ensures
            client.credential() == api_key@,
    {
        Self { api_key }
    }

    /// The URL of the request for the report on the place `coords`.
    ///
    /// The credential stands in it as it is; where it holds no `&`, the query
    /// has the three parameters `lat`, `lon` and `appid`, and no other.
    pub fn onecall_url(&self, coords: &Coords) -> (url: String)
        ensures
            url@ == request_text(coords.lat_text(), coords.lon_text(), self.credential()),
            !self.credential().contains('&') ==> split(query_of(url@), '&') == seq![
                "lat="@ + coords.lat_text(),
                "lon="@ + coords.lon_text(),
                "appid="@ + self.credential(),
            ],
    {
        let lat = coords.lat();
        let lon = coords.lon();
        let mut url = String::from_str("https://api.openweathermap.org/data/2.5/onecall");
        url.append("?");
        url.append("lat=");
        url.append(lat);
        url.append("&lon=");
        url.append(lon);
        url.append("&appid=");
        url.append(self.api_key);
        proof {
            assert(url@ =~= request_text(lat@, lon@, self.api_key@));
            if !self.api_key@.contains('&') {
                lemma_degrees_have_no_mark(lat@);
                lemma_degrees_have_no_mark(lon@);
                lemma_query_parameters(lat@, lon@, self.api_key@);
            }
        }
        url
    }
}

} // verus!
