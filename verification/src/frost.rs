//! The data provider's response shapes as plain values, the decision
//! rules applied to them, and the flattening of observation payloads
//! into output rows. The HTTP transport and JSON decoding live outside
//! the library and hand these plain structures in.

use vstd::prelude::*;
use crate::rows::{rows_view, PrecipitationRow, RowView};
use crate::stations::{
    spec_county_area, spec_station_area, spec_station_lookup, spec_station_name, county_to_el_area,
    station_by_id, upper_of, ElArea,
};
use crate::text::{
    spec_before_first, spec_str_lt, spec_u64_dec, prefix_before, str_eq, str_lt, u64_dec,
};

verus! {

/// The provider's error body, as decoded from a response.
#[derive(Debug)]
pub struct FrostErrorBody {
    pub reason: Option<String>,
    pub message: Option<String>,
}

/// One observation of one element on one day.
///
/// The measured value arrives in tenths of a millimetre, so the record
/// holds only plain integers.
#[derive(Debug)]
pub struct FrostObservation {
    pub element_id: String,
    pub value_tenths_mm: Option<u64>,
    pub quality_code: Option<i32>,
}

/// One source/time entry of an observations response.
#[derive(Debug)]
pub struct FrostObservationData {
    pub source_id: String,
    pub reference_time: String,
    pub observations: Vec<FrostObservation>,
}

/// An observations response: payload entries, or an error body.
#[derive(Debug)]
pub struct FrostResponse {
    pub response_type: Option<String>,
    pub data: Option<Vec<FrostObservationData>>,
    pub error: Option<FrostErrorBody>,
}

/// One station entry of a sources response.
#[derive(Debug)]
pub struct FrostSource {
    pub id: String,
    pub name: Option<String>,
    pub county: Option<String>,
    pub municipality: Option<String>,
    pub valid_from: Option<String>,
    pub valid_to: Option<String>,
}

/// A sources response: station entries, or an error body.
#[derive(Debug)]
pub struct FrostSourcesResponse {
    pub data: Option<Vec<FrostSource>>,
    pub error: Option<FrostErrorBody>,
}

/// A station as discovered from the provider's sources listing.
#[derive(Debug)]
pub struct DiscoveredStation {
    pub id: String,
    pub name: String,
    pub county: String,
    pub municipality: String,
    pub el_area: Option<ElArea>,
    pub is_active: bool,
}

impl Clone for DiscoveredStation {
    fn clone(&self) -> (r: Self)
        ensures
            r == *self,
    {
        DiscoveredStation {
            id: self.id.clone(),
            name: self.name.clone(),
            county: self.county.clone(),
            municipality: self.municipality.clone(),
            el_area: self.el_area,
            is_active: self.is_active,
        }
    }
}

/// What a response demands of the caller: treat it as an empty success,
/// fail with the given reason and message, or go on to the payload.
#[derive(Debug)]
pub enum ResponseAction {
    NoData,
    Fail { reason: String, message: String },
    Proceed,
}

/// The text an optional field carries; empty when absent.
pub open spec fn spec_opt_text(o: Option<String>) -> Seq<char> {
    match o {
        Some(s) => s@,
        None => Seq::empty(),
    }
}

/// Unwrap an optional string to its text, empty when absent.
pub fn opt_text(o: Option<String>) -> (r: String)
    ensures
        r@ == spec_opt_text(o),
{
    match o {
        Some(s) => s,
        None => String::new(),
    }
}

/// Decide what an observations response means. A `Not found` reason or a
/// 404/412 status is the provider's way of saying "no data in range" and
/// must be treated as an empty success, never as an error.
pub fn interpret_response(status: u16, error: Option<FrostErrorBody>) -> (r: ResponseAction)
    ensures
        error matches Some(e) ==> ({
            let no_data = spec_opt_text(e.reason) == "Not found"@ || status == 404 || status
                == 412;
            &&& no_data ==> r is NoData
            &&& !no_data ==> (r matches ResponseAction::Fail { reason, message } && reason@
                == spec_opt_text(e.reason) && message@ == spec_opt_text(e.message))
        }),
        error is None && 200 <= status <= 299 ==> r is Proceed,
        error is None && !(200 <= status <= 299) ==> (r matches ResponseAction::Fail {
            reason,
            message,
        } && reason@ == spec_u64_dec(status as int) && message@
            == "Unexpected error from Frost API"@),
{
    match error {
        Some(e) => {
            let reason = opt_text(e.reason);
            if str_eq(reason.as_str(), "Not found") || status == 404 || status == 412 {
                ResponseAction::NoData
            } else {
                ResponseAction::Fail { reason, message: opt_text(e.message) }
            }
        },
        None => {
            if 200 <= status && status <= 299 {
                ResponseAction::Proceed
            } else {
                ResponseAction::Fail {
                    reason: u64_dec(status as u64),
                    message: String::from_str("Unexpected error from Frost API"),
                }
            }
        },
    }
}

/// Decide what a sources response means: any error body fails, any
/// non-success status fails, otherwise the payload is usable.
pub fn interpret_sources_response(status: u16, error: Option<FrostErrorBody>) -> (r:
    ResponseAction)
    ensures
        error matches Some(e) ==> (r matches ResponseAction::Fail { reason, message } && reason@
            == spec_opt_text(e.reason) && message@ == spec_opt_text(e.message)),
        error is None && 200 <= status <= 299 ==> r is Proceed,
        error is None && !(200 <= status <= 299) ==> (r matches ResponseAction::Fail {
            reason,
            message,
        } && reason@ == spec_u64_dec(status as int) && message@
            == "Unexpected error from Frost sources API"@),
{
    match error {
        Some(e) => ResponseAction::Fail { reason: opt_text(e.reason), message: opt_text(e.message) },
        None => {
            if 200 <= status && status <= 299 {
                ResponseAction::Proceed
            } else {
                ResponseAction::Fail {
                    reason: u64_dec(status as u64),
                    message: String::from_str("Unexpected error from Frost sources API"),
                }
            }
        },
    }
}

/// The element id whose observations are daily precipitation sums.
pub open spec fn spec_precip_element() -> Seq<char> {
    "sum(precipitation_amount P1D)"@
}

/// The display name a flattened row carries for a station id: the
/// catalog name, or `Unknown` for an id outside the catalog.
pub open spec fn spec_flat_name(sid: Seq<char>) -> Seq<char> {
    match spec_station_lookup(sid, 0) {
        Some(i) => spec_station_name(i),
        None => "Unknown"@,
    }
}

/// The area code a flattened row carries for a station id; `??` for an
/// id outside the catalog.
pub open spec fn spec_flat_area(sid: Seq<char>) -> Seq<char> {
    match spec_station_lookup(sid, 0) {
        Some(i) => spec_station_area(i).spec_code(),
        None => "??"@,
    }
}

/// The row one observation of one entry flattens to. The source id is
/// cut at the first `:` (ids arrive with a sensor suffix), the reference
/// time at the first `T` (it arrives as a full timestamp).
pub open spec fn spec_row_of(e: FrostObservationData, o: FrostObservation) -> RowView {
    let sid = spec_before_first(e.source_id@, ':');
    RowView {
        station_id: sid,
        station_name: spec_flat_name(sid),
        el_area: spec_flat_area(sid),
        reference_time: spec_before_first(e.reference_time@, 'T'),
        precipitation_tenths_mm: o.value_tenths_mm,
        quality_code: o.quality_code,
    }
}

/// The rows of one entry's first `k` observations: those for the daily
/// precipitation element, in order.
pub open spec fn spec_entry_rows(e: FrostObservationData, k: int) -> Seq<RowView>
    decreases k,
{
    if k <= 0 {
        Seq::empty()
    } else {
        let rest = spec_entry_rows(e, k - 1);
        if e.observations@[k - 1].element_id@ == spec_precip_element() {
            rest.push(spec_row_of(e, e.observations@[k - 1]))
        } else {
            rest
        }
    }
}

/// Every entry's rows, concatenated in entry order.
pub open spec fn spec_flatten(data: Seq<FrostObservationData>) -> Seq<RowView>
    decreases data.len(),
{
    if data.len() == 0 {
        Seq::empty()
    } else {
        spec_flatten(data.drop_last()) + spec_entry_rows(
            data.last(),
            data.last().observations@.len() as int,
        )
    }
}

/// Flatten an observations payload into output rows.
pub fn flatten_observations(data: &Vec<FrostObservationData>) -> (r: Vec<PrecipitationRow>)
    ensures
        rows_view(r@) == spec_flatten(data@),
{
    let mut rows: Vec<PrecipitationRow> = Vec::new();
    let mut i: usize = 0;
    proof {
        assert(data@.take(0) =~= Seq::<FrostObservationData>::empty());
    }
    while i < data.len()
        invariant
            i <= data@.len(),
            rows_view(rows@) == spec_flatten(data@.take(i as int)),
        decreases data@.len() - i,
    {
        let ghost entry = data@[i as int];
        let sid = prefix_before(data[i].source_id.as_str(), ':');
        let station = station_by_id(sid);
        let name_s: String = match &station {
            Some(s) => s.name.clone(),
            None => String::from_str("Unknown"),
        };
        let area_s: String = match &station {
            Some(s) => s.el_area.code(),
            None => String::from_str("??"),
        };
        let date = prefix_before(data[i].reference_time.as_str(), 'T');
        proof {
            assert(name_s@ == spec_flat_name(sid@));
            assert(area_s@ == spec_flat_area(sid@));
        }
        let mut j: usize = 0;
        while j < data[i].observations.len()
            invariant
                i < data@.len(),
                entry == data@[i as int],
                j <= entry.observations@.len(),
                sid@ == spec_before_first(entry.source_id@, ':'),
                date@ == spec_before_first(entry.reference_time@, 'T'),
                name_s@ == spec_flat_name(sid@),
                area_s@ == spec_flat_area(sid@),
                rows_view(rows@) == spec_flatten(data@.take(i as int)) + spec_entry_rows(
                    entry,
                    j as int,
                ),
            decreases entry.observations@.len() - j,
        {
            let keep = str_eq(data[i].observations[j].element_id.as_str(), "sum(precipitation_amount P1D)");
            if keep {
                let row = PrecipitationRow {
                    station_id: String::from_str(sid),
                    station_name: name_s.clone(),
                    el_area: area_s.clone(),
                    reference_time: String::from_str(date),
                    precipitation_tenths_mm: data[i].observations[j].value_tenths_mm,
                    quality_code: data[i].observations[j].quality_code,
                };
                proof {
                    assert(row@ == spec_row_of(entry, entry.observations@[j as int]));
                }
                let ghost prev = rows@;
                rows.push(row);
                proof {
                    assert(rows@.drop_last() =~= prev);
                }
            }
            j += 1;
        }
        proof {
            assert(data@.take(i + 1).drop_last() =~= data@.take(i as int));
            assert(data@.take(i + 1).last() == entry);
        }
        i += 1;
    }
    proof {
        assert(data@.take(data@.len() as int) =~= data@);
    }
    rows
}

/// `d` is the discovered-station record of source entry `s`: text fields
/// carried over (empty when absent), the area mapped from the county,
/// and activity meaning no expiry or an expiry after 2024-01-01.
pub open spec fn is_discovered_of(d: DiscoveredStation, s: FrostSource) -> bool {
    &&& d.id@ == s.id@
    &&& d.name@ == spec_opt_text(s.name)
    &&& d.county@ == spec_opt_text(s.county)
    &&& d.municipality@ == spec_opt_text(s.municipality)
    &&& d.el_area == spec_county_area(upper_of(spec_opt_text(s.county)))
    &&& d.is_active == (s.valid_to is None || spec_str_lt("2024-01-01"@, spec_opt_text(s.valid_to)))
}

/// Turn one sources entry into a discovered station.
pub fn discovered_from_source(src: FrostSource) -> (r: DiscoveredStation)
    ensures
        is_discovered_of(r, src),
{
    let is_active = match &src.valid_to {
        None => true,
        Some(v) => str_lt("2024-01-01", v.as_str()),
    };
    let county = opt_text(src.county);
    let el_area = county_to_el_area(county.as_str());
    DiscoveredStation {
        id: src.id,
        name: opt_text(src.name),
        county,
        municipality: opt_text(src.municipality),
        el_area,
        is_active,
    }
}

/// Turn a whole sources payload into discovered stations, in order.
pub fn discover_stations(sources: Vec<FrostSource>) -> (r: Vec<DiscoveredStation>)
    ensures
        r@.len() == sources@.len(),
        forall|k: int|
            0 <= k < r@.len() ==> is_discovered_of(#[trigger] r@[k], sources@[k]),
{
    let ghost orig = sources@;
    let mut sources = sources;
    let mut r: Vec<DiscoveredStation> = Vec::new();
    let ghost mut k: int = 0;
    while sources.len() > 0
        invariant
            0 <= k <= orig.len(),
            sources@ == orig.skip(k),
            r@.len() == k,
            forall|t: int| 0 <= t < k ==> is_discovered_of(#[trigger] r@[t], orig[t]),
        decreases sources@.len(),
    {
        proof {
            assert(orig.skip(k)[0] == orig[k]);
            assert(orig.skip(k).remove(0) =~= orig.skip(k + 1));
        }
        let s = sources.remove(0);
        let d = discovered_from_source(s);
        r.push(d);
        proof {
            k = k + 1;
        }
    }
    r
}

/// Whether a discovered station passes the listing filter: active when
/// only active ones are wanted, and inside the area selection when one
/// was given (a station with no known area never matches a selection).
pub open spec fn spec_keep(
    s: DiscoveredStation,
    areas: Option<Vec<ElArea>>,
    active_only: bool,
) -> bool {
    &&& (active_only ==> s.is_active)
    &&& match areas {
        Some(v) => match s.el_area {
            Some(a) => v@.contains(a),
            None => false,
        },
        None => true,
    }
}

/// The stations that pass the filter, in their given order.
pub open spec fn spec_filtered(
    ss: Seq<DiscoveredStation>,
    areas: Option<Vec<ElArea>>,
    active_only: bool,
) -> Seq<DiscoveredStation>
    decreases ss.len(),
{
    if ss.len() == 0 {
        Seq::empty()
    } else {
        let rest = spec_filtered(ss.drop_last(), areas, active_only);
        if spec_keep(ss.last(), areas, active_only) {
            rest.push(ss.last())
        } else {
            rest
        }
    }
}

/// Filter a discovered-station listing by activity and area selection.
pub fn filter_stations(
    stations: Vec<DiscoveredStation>,
    areas: &Option<Vec<ElArea>>,
    active_only: bool,
) -> (r: Vec<DiscoveredStation>)
    ensures
        r@ == spec_filtered(stations@, *areas, active_only),
{
    let ghost orig = stations@;
    let mut stations = stations;
    let mut r: Vec<DiscoveredStation> = Vec::new();
    let ghost mut k: int = 0;
    proof {
        assert(orig.take(0) =~= Seq::<DiscoveredStation>::empty());
    }
    while stations.len() > 0
        invariant
            0 <= k <= orig.len(),
            stations@ == orig.skip(k),
            r@ == spec_filtered(orig.take(k), *areas, active_only),
        decreases stations@.len(),
    {
        proof {
            assert(orig.skip(k)[0] == orig[k]);
            assert(orig.skip(k).remove(0) =~= orig.skip(k + 1));
            assert(orig.take(k + 1).drop_last() =~= orig.take(k));
            assert(orig.take(k + 1).last() == orig[k]);
        }
        let s = stations.remove(0);
        let keep: bool = if active_only && !s.is_active {
            false
        } else {
            match (areas, &s.el_area) {
                (Some(v), Some(a)) => crate::stations::area_in(v, *a),
                (Some(_), None) => false,
                (None, _) => true,
            }
        };
        if keep {
            r.push(s);
        }
        proof {
            k = k + 1;
        }
    }
    proof {
        assert(orig.take(k) =~= orig);
    }
    r
}

} // verus!
