use std::sync::Arc;
use vstd::prelude::*;
use vstd::std_specs::iter::IteratorSpec;
use crate::dataset::{Dataset, Stop};
use crate::store::DatasetStore;

verus! {

/// What `str::to_lowercase` makes of a text.
pub uninterp spec fn lower_of(s: Seq<char>) -> Seq<char>;

/// Relies on `str::to_lowercase`: the result depends on the characters alone,
/// and an empty text stays empty.
#[verifier::external_body]
fn lowercase(s: &str) -> (r: String)
    ensures
        r@ == lower_of(s@),
        s@.len() == 0 ==> r@.len() == 0,
{
    s.to_lowercase()
}

/// Relies on chrono's `Utc::now` and `DateTime::to_rfc3339`: the current time
/// as RFC 3339 text. Nothing is promised of its value.
#[verifier::external_body]
fn now_rfc3339() -> (r: String) {
    chrono::Utc::now().to_rfc3339()
}

/// `needle` occurs in `hay` as a contiguous run of characters.
pub open spec fn is_substring(needle: Seq<char>, hay: Seq<char>) -> bool {
    exists|k: int|
        0 <= k && k + needle.len() <= hay.len() && #[trigger] hay.subrange(k, k + needle.len())
            == needle
}

/// The characters of `s`, in order.
pub fn chars_of(s: &str) -> (r: Vec<char>)
    ensures
        r@ == s@,
{
    let mut it = s.chars();
    let mut out: Vec<char> = Vec::new();
    assert(out@ + it.remaining() =~= s@);
    loop
        invariant
            it.obeys_prophetic_iter_laws(),
            out@ + it.remaining() == s@,
        ensures
            out@ == s@,
        decreases s@.len() - out@.len(),
    {
        match it.next() {
            Some(c) => {
                out.push(c);
            },
            None => {
                assert(out@ + it.remaining() =~= out@);
                break;
            },
        }
    }
    out
}

/// Whether `needle` occurs in `hay` starting at position `k`.
fn occurs_at(hay: &Vec<char>, needle: &Vec<char>, k: usize) -> (r: bool)
    requires
        k + needle@.len() <= hay@.len(),
    ensures
        r == (hay@.subrange(k as int, k + needle@.len()) == needle@),
{
    let hay_len = hay.len();
    let mut j: usize = 0;
    while j < needle.len()
        invariant
            hay_len == hay@.len(),
            k + needle@.len() <= hay@.len(),
            j <= needle@.len(),
            forall|m: int| 0 <= m < j ==> hay@[k + m] == needle@[m],
        decreases needle@.len() - j,
    {
        if hay[k + j] != needle[j] {
            assert(hay@.subrange(k as int, k + needle@.len())[j as int] != needle@[j as int]);
            return false;
        }
        j = j + 1;
    }
    assert(hay@.subrange(k as int, k + needle@.len()) =~= needle@);
    true
}

/// Whether `needle` occurs in `hay`; the empty text occurs in every text.
pub fn contains_text(hay: &str, needle: &str) -> (r: bool)
    ensures
        r == is_substring(needle@, hay@),
{
    let h = chars_of(hay);
    let n = chars_of(needle);
    if n.len() > h.len() {
        return false;
    }
    let last: usize = h.len() - n.len();
    let mut k: usize = 0;
    while k <= last
        invariant
            last == h@.len() - n@.len(),
            n@.len() <= h@.len(),
            h@ == hay@,
            n@ == needle@,
            forall|i: int| 0 <= i < k ==> #[trigger] h@.subrange(i, i + n@.len()) != n@,
        decreases last + 1 - k,
    {
        if occurs_at(&h, &n, k) {
            return true;
        }
        if k == last {
            return false;
        }
        k = k + 1;
    }
    false
}

/// Whether the stop's name, lowercased, contains `q` (expected lowercase):
/// the name filter is case-insensitive.
pub fn name_matches(stop: &Stop, q: &str) -> (r: bool)
    ensures
        r == is_substring(q@, lower_of(stop.name@)),
{
    let name = lowercase(stop.name.as_str());
    contains_text(name.as_str(), q)
}

/// `v` lies within the inclusive bounds; an absent bound does not constrain.
pub open spec fn within(v: i64, low: Option<i64>, high: Option<i64>) -> bool {
    &&& (low matches Some(l) ==> l <= v)
    &&& (high matches Some(h) ==> v <= h)
}

fn within_bounds(v: i64, low: Option<i64>, high: Option<i64>) -> (r: bool)
    ensures
        r == within(v, low, high),
{
    let above = match low {
        Some(l) => l <= v,
        None => true,
    };
    let below = match high {
        Some(h) => v <= h,
        None => true,
    };
    above && below
}

/// Whether the stop lies in the bounding box, all four bounds inclusive; an
/// absent bound leaves its side open.
pub fn bounding_box_matches(
    stop: &Stop,
    min_lon: Option<i64>,
    max_lon: Option<i64>,
    min_lat: Option<i64>,
    max_lat: Option<i64>,
) -> (r: bool)
    ensures
        r == (within(stop.longitude, min_lon, max_lon) && within(stop.latitude, min_lat, max_lat)),
{
    within_bounds(stop.longitude, min_lon, max_lon) && within_bounds(stop.latitude, min_lat, max_lat)
}

/// Error payload of a response that could not be served.
#[derive(Clone, Copy, Debug, PartialEq, Eq, Structural)]
pub struct ErrorCondition {}

/// A line serving a stop.
#[derive(Clone, Debug)]
pub struct Line {
    pub line_ref: String,
}

/// Coordinates in ten-millionths of a degree.
#[derive(Clone, Copy, Debug, PartialEq, Eq, Structural)]
pub struct Location {
    pub longitude: i64,
    pub latitude: i64,
}

/// One stop of a response: identifier, name, serving lines and position.
#[derive(Clone, Debug)]
pub struct AnnotatedStopPoint {
    pub stop_point_ref: String,
    pub stop_name: String,
    pub lines: Vec<Line>,
    pub location: Location,
}

/// Body of a stop-point discovery response.
#[derive(Clone, Debug)]
pub struct StopPointsDelivery {
    pub version: String,
    pub response_time_stamp: String,
    pub status: bool,
    pub error_condition: Option<ErrorCondition>,
    pub annotated_stop_point: Vec<AnnotatedStopPoint>,
}

/// Envelope of a stop-point discovery response.
#[derive(Clone, Debug)]
pub struct Siri {
    pub stop_points_delivery: StopPointsDelivery,
}

/// Query parameters: a name filter and the four bounds of a bounding box
/// (ten-millionths of a degree). Each absent parameter filters nothing.
#[derive(Clone, Debug)]
pub struct Params {
    pub q: Option<String>,
    pub upper_left_longitude: Option<i64>,
    pub upper_left_latitude: Option<i64>,
    pub lower_right_longitude: Option<i64>,
    pub lower_right_latitude: Option<i64>,
}

/// `a` describes stop `s` of dataset `d`: same identifier, name and position,
/// and the lines the dataset lists for the stop, in order.
pub open spec fn annotates(a: AnnotatedStopPoint, s: Stop, d: Dataset) -> bool {
    &&& a.stop_point_ref@ == s.id@
    &&& a.stop_name@ == s.name@
    &&& a.location == (Location { longitude: s.longitude, latitude: s.latitude })
    &&& a.lines@.len() == d.lines_of(s.id@).len()
    &&& forall|i: int|
        0 <= i < a.lines@.len() ==> #[trigger] a.lines@[i].line_ref@ == d.lines_of(s.id@)[i]@
}

impl AnnotatedStopPoint {
    /// The response entry for `stop`, with the lines `dataset` lists for it.
    pub fn from(stop: &Stop, dataset: &Dataset) -> (r: Self)
        ensures
            annotates(r, *stop, *dataset),
    {
        let mut lines: Vec<Line> = Vec::new();
        match dataset.lines_of_stop(&stop.id) {
            Some(found) => {
                let mut i: usize = 0;
                while i < found.len()
                    invariant
                        i <= found@.len(),
                        found@ == dataset.lines_of(stop.id@),
                        lines@.len() == i,
                        forall|j: int| 0 <= j < i ==> #[trigger] lines@[j].line_ref@ == found@[j]@,
                    decreases found@.len() - i,
                {
                    lines.push(Line { line_ref: found[i].clone() });
                    i = i + 1;
                }
            },
            None => {},
        }
        AnnotatedStopPoint {
            stop_point_ref: stop.id.clone(),
            stop_name: stop.name.clone(),
            lines,
            location: Location { longitude: stop.longitude, latitude: stop.latitude },
        }
    }
}

/// Whether stop `s` passes both filters of `p`, `q` being the lowercased
/// name filter.
pub open spec fn stop_selected(s: Stop, q: Seq<char>, p: Params) -> bool {
    &&& is_substring(q, lower_of(s.name@))
    &&& within(s.longitude, p.upper_left_longitude, p.lower_right_longitude)
    &&& within(s.latitude, p.lower_right_latitude, p.upper_left_latitude)
}

/// The stops of `stops` that pass the filters, in their order.
pub open spec fn selected(stops: Seq<Stop>, q: Seq<char>, p: Params) -> Seq<Stop>
    decreases stops.len(),
{
    if stops.len() == 0 {
        Seq::empty()
    } else {
        let before = selected(stops.drop_last(), q, p);
        if stop_selected(stops.last(), q, p) {
            before.push(stops.last())
        } else {
            before
        }
    }
}

/// The entries answering a query on `dataset`: one for each stop that passes
/// both filters, in the dataset's order. `q` is the name filter, already
/// lowercased.
pub fn select_stop_points(dataset: &Dataset, q: &str, params: &Params) -> (r: Vec<AnnotatedStopPoint>)
    ensures
        r@.len() == selected(dataset.stops@, q@, *params).len(),
        forall|i: int|
            0 <= i < r@.len() ==> annotates(
                #[trigger] r@[i],
                selected(dataset.stops@, q@, *params)[i],
                *dataset,
            ),
{
    let mut out: Vec<AnnotatedStopPoint> = Vec::new();
    let mut i: usize = 0;
    assert(dataset.stops@.subrange(0, 0) =~= Seq::<Stop>::empty());
    while i < dataset.stops.len()
        invariant
            i <= dataset.stops@.len(),
            out@.len() == selected(dataset.stops@.subrange(0, i as int), q@, *params).len(),
            forall|j: int|
                0 <= j < out@.len() ==> annotates(
                    #[trigger] out@[j],
                    selected(dataset.stops@.subrange(0, i as int), q@, *params)[j],
                    *dataset,
                ),
        decreases dataset.stops@.len() - i,
    {
        let ghost before = dataset.stops@.subrange(0, i as int);
        let ghost after = dataset.stops@.subrange(0, i + 1);
        assert(after.drop_last() =~= before);
        assert(after.last() == dataset.stops@[i as int]);
        let stop = &dataset.stops[i];
        let keep = name_matches(stop, q) && bounding_box_matches(
            stop,
            params.upper_left_longitude,
            params.lower_right_longitude,
            params.lower_right_latitude,
            params.upper_left_latitude,
        );
        if keep {
            let entry = AnnotatedStopPoint::from(stop, dataset);
            out.push(entry);
        }
        i = i + 1;
    }
    assert(dataset.stops@.subrange(0, dataset.stops@.len() as int) =~= dataset.stops@);
    out
}

/// A query without bounding box keeps every stop whose name matches, wherever
/// the stop lies: absent bounds are no constraint.
pub proof fn lemma_absent_box_matches_everywhere(s: Stop, q: Seq<char>, p: Params)
    requires
        p.upper_left_longitude is None,
        p.upper_left_latitude is None,
        p.lower_right_longitude is None,
        p.lower_right_latitude is None,
    ensures
        within(s.longitude, p.upper_left_longitude, p.lower_right_longitude),
        within(s.latitude, p.lower_right_latitude, p.upper_left_latitude),
        stop_selected(s, q, p) == is_substring(q, lower_of(s.name@)),
{
}

/// The name filter of `p`; an absent one is empty and matches every name.
pub open spec fn query_text(p: Params) -> Seq<char> {
    match p.q {
        Some(q) => q@,
        None => Seq::empty(),
    }
}

/// `r` answers query `p` on `dataset`, whatever its time stamp. With no
/// dataset yet the response says so: status false, an error condition and no
/// entries. With one, it succeeds and lists the selected stops in order.
pub open spec fn answers(r: Siri, dataset: Option<Dataset>, p: Params) -> bool {
    let body = r.stop_points_delivery;
    &&& body.version@ == "2.0"@
    &&& match dataset {
        None => {
            &&& !body.status
            &&& body.error_condition == Some(ErrorCondition {  })
            &&& body.annotated_stop_point@.len() == 0
        },
        Some(d) => {
            let chosen = selected(d.stops@, lower_of(query_text(p)), p);
            &&& body.status
            &&& body.error_condition is None
            &&& body.annotated_stop_point@.len() == chosen.len()
            &&& forall|i: int|
                0 <= i < chosen.len() ==> annotates(
                    #[trigger] body.annotated_stop_point@[i],
                    chosen[i],
                    d,
                )
        },
    }
}

/// The response to query `params` on `dataset` (`None` while no dataset has
/// been published), stamped with `time_stamp`.
pub fn siri_response(dataset: Option<&Dataset>, params: &Params, time_stamp: String) -> (r: Siri)
    ensures
        dataset is None ==> answers(r, None, *params),
        dataset matches Some(d) ==> answers(r, Some(*d), *params),
        r.stop_points_delivery.response_time_stamp@ == time_stamp@,
{
    let version = "2.0".to_owned();
    match dataset {
        None => {
            let r = Siri {
                stop_points_delivery: StopPointsDelivery {
                    version,
                    response_time_stamp: time_stamp,
                    status: false,
                    error_condition: Some(ErrorCondition {  }),
                    annotated_stop_point: Vec::new(),
                },
            };
            r
        },
        Some(d) => {
            let q = match &params.q {
                Some(text) => lowercase(text.as_str()),
                None => lowercase(""),
            };
            proof {
                reveal_strlit("");
                assert(""@ =~= Seq::<char>::empty());
            }
            assert(q@ == lower_of(query_text(*params)));
            let found = select_stop_points(d, q.as_str(), params);
            Siri {
                stop_points_delivery: StopPointsDelivery {
                    version,
                    response_time_stamp: time_stamp,
                    status: true,
                    error_condition: None,
                    annotated_stop_point: found,
                },
            }
        },
    }
}

/// Answers query `params` from the store's current snapshot, read once, and
/// stamps the response with the current time. Never waits on a rebuild.
pub fn stoppoints_discovery(store: &DatasetStore, params: &Params) -> (r: Siri)
    ensures
        answers(
            r,
            match store@ {
                Some(a) => Some(*a),
                None => None,
            },
            *params,
        ),
{
    let current: Option<Arc<Dataset>> = store.current();
    let time_stamp = now_rfc3339();
    match &current {
        Some(a) => siri_response(Some(&**a), params, time_stamp),
        None => siri_response(None, params, time_stamp),
    }
}

} // verus!
