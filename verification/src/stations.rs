//! The fixed station catalog and its lookups: reference data the
//! orchestration reads but never mutates.

use vstd::prelude::*;
use crate::errors::InputError;
use crate::text::{spec_contains, str_contains, str_eq};

verus! {

/// Norwegian electricity price areas, used to group stations.
#[derive(Clone, Copy, PartialEq, Eq, Structural, Debug, Hash)]
pub enum ElArea {
    NO1,
    NO2,
    NO3,
    NO4,
    NO5,
}

impl ElArea {
    /// The textual code of the area.
    pub open spec fn spec_code(self) -> Seq<char> {
        match self {
            ElArea::NO1 => "NO1"@,
            ElArea::NO2 => "NO2"@,
            ElArea::NO3 => "NO3"@,
            ElArea::NO4 => "NO4"@,
            ElArea::NO5 => "NO5"@,
        }
    }

    pub fn code(&self) -> (r: String)
        ensures
            r@ == self.spec_code(),
    {
        match self {
            ElArea::NO1 => String::from_str("NO1"),
            ElArea::NO2 => String::from_str("NO2"),
            ElArea::NO3 => String::from_str("NO3"),
            ElArea::NO4 => String::from_str("NO4"),
            ElArea::NO5 => String::from_str("NO5"),
        }
    }
}

/// Area code parsing over the upper-cased input.
pub open spec fn spec_parse_area(c: Seq<char>) -> Option<ElArea> {
    if c == "NO1"@ {
        Some(ElArea::NO1)
    } else if c == "NO2"@ {
        Some(ElArea::NO2)
    } else if c == "NO3"@ {
        Some(ElArea::NO3)
    } else if c == "NO4"@ {
        Some(ElArea::NO4)
    } else if c == "NO5"@ {
        Some(ElArea::NO5)
    } else {
        None
    }
}

/// Parse an area code, case-insensitively.
pub fn parse_area(s: &str) -> (r: Option<ElArea>)
    ensures
        r == spec_parse_area(upper_of(s@)),
{
    let c = to_upper(s);
    let cs = c.as_str();
    if str_eq(cs, "NO1") {
        Some(ElArea::NO1)
    } else if str_eq(cs, "NO2") {
        Some(ElArea::NO2)
    } else if str_eq(cs, "NO3") {
        Some(ElArea::NO3)
    } else if str_eq(cs, "NO4") {
        Some(ElArea::NO4)
    } else if str_eq(cs, "NO5") {
        Some(ElArea::NO5)
    } else {
        None
    }
}

/// What `str::to_uppercase` returns for a given character sequence.
pub uninterp spec fn upper_of(s: Seq<char>) -> Seq<char>;

/// Relies on str::to_uppercase: Unicode uppercasing whose result depends
/// on the input characters alone.
#[verifier::external_body]
fn to_upper(s: &str) -> (r: String)
    ensures
        r@ == upper_of(s@),
        s@.len() == 0 ==> r@.len() == 0,
{
    s.to_uppercase()
}

/// A weather station of the fixed catalog: immutable reference data.
#[derive(Debug)]
pub struct Station {
    pub id: String,
    pub name: String,
    pub el_area: ElArea,
}

impl Clone for Station {
    fn clone(&self) -> (r: Self)
        ensures
            r == *self,
    {
        Station { id: self.id.clone(), name: self.name.clone(), el_area: self.el_area }
    }
}

/// The catalog holds five well-known stations per electricity area.
pub open spec fn spec_station_count() -> int {
    25
}

/// Station ids by catalog position.
pub open spec fn spec_station_id(i: int) -> Seq<char> {
    if i == 0 {
        "SN18700"@
    } else if i == 1 {
        "SN17150"@
    } else if i == 2 {
        "SN12680"@
    } else if i == 3 {
        "SN24890"@
    } else if i == 4 {
        "SN27500"@
    } else if i == 5 {
        "SN39040"@
    } else if i == 6 {
        "SN44560"@
    } else if i == 7 {
        "SN36560"@
    } else if i == 8 {
        "SN42160"@
    } else if i == 9 {
        "SN38140"@
    } else if i == 10 {
        "SN68860"@
    } else if i == 11 {
        "SN62290"@
    } else if i == 12 {
        "SN63420"@
    } else if i == 13 {
        "SN69100"@
    } else if i == 14 {
        "SN65310"@
    } else if i == 15 {
        "SN90450"@
    } else if i == 16 {
        "SN82290"@
    } else if i == 17 {
        "SN87110"@
    } else if i == 18 {
        "SN94280"@
    } else if i == 19 {
        "SN85380"@
    } else if i == 20 {
        "SN50540"@
    } else if i == 21 {
        "SN50500"@
    } else if i == 22 {
        "SN51530"@
    } else if i == 23 {
        "SN57770"@
    } else {
        "SN48330"@
    }
}

/// Station display names by catalog position.
pub open spec fn spec_station_name(i: int) -> Seq<char> {
    if i == 0 {
        "Oslo - Blindern"@
    } else if i == 1 {
        "Rygge"@
    } else if i == 2 {
        "Lillehammer - Sætherengen"@
    } else if i == 3 {
        "Nesbyen - Todokk"@
    } else if i == 4 {
        "Færder Fyr"@
    } else if i == 5 {
        "Kjevik"@
    } else if i == 6 {
        "Sola"@
    } else if i == 7 {
        "Nelaug"@
    } else if i == 8 {
        "Lista Fyr"@
    } else if i == 9 {
        "Landvik"@
    } else if i == 10 {
        "Trondheim - Voll"@
    } else if i == 11 {
        "Molde - Nøisomhed"@
    } else if i == 12 {
        "Sunndalsøra III"@
    } else if i == 13 {
        "Værnes"@
    } else if i == 14 {
        "Veiholmen"@
    } else if i == 15 {
        "Tromsø"@
    } else if i == 16 {
        "Bodø VI"@
    } else if i == 17 {
        "Andøya"@
    } else if i == 18 {
        "Hammerfest Lufthavn"@
    } else if i == 19 {
        "Skrova Fyr"@
    } else if i == 20 {
        "Bergen - Florida"@
    } else if i == 21 {
        "Flesland"@
    } else if i == 22 {
        "Vossavangen"@
    } else if i == 23 {
        "Ytterøyane Fyr"@
    } else {
        "Slåtterøy Fyr"@
    }
}

/// Station areas by catalog position: five stations per area, in order.
pub open spec fn spec_station_area(i: int) -> ElArea {
    if i < 5 {
        ElArea::NO1
    } else if i < 10 {
        ElArea::NO2
    } else if i < 15 {
        ElArea::NO3
    } else if i < 20 {
        ElArea::NO4
    } else {
        ElArea::NO5
    }
}

/// `s` is the catalog station at position `i`.
pub open spec fn is_catalog_station(s: Station, i: int) -> bool {
    s.id@ == spec_station_id(i) && s.name@ == spec_station_name(i) && s.el_area
        == spec_station_area(i)
}

/// Build the full catalog. The caller owns the result and must not
/// hand the orchestration anything else in its place.
pub fn station_catalog() -> (r: Vec<Station>)
    ensures
        r@.len() == spec_station_count(),
        forall|i: int| 0 <= i < 25 ==> is_catalog_station(#[trigger] r@[i], i),
{
    let mut v: Vec<Station> = Vec::new();
    v.push(Station { id: String::from_str("SN18700"), name: String::from_str("Oslo - Blindern"), el_area: ElArea::NO1 });
    v.push(Station { id: String::from_str("SN17150"), name: String::from_str("Rygge"), el_area: ElArea::NO1 });
    v.push(Station { id: String::from_str("SN12680"), name: String::from_str("Lillehammer - Sætherengen"), el_area: ElArea::NO1 });
    v.push(Station { id: String::from_str("SN24890"), name: String::from_str("Nesbyen - Todokk"), el_area: ElArea::NO1 });
    v.push(Station { id: String::from_str("SN27500"), name: String::from_str("Færder Fyr"), el_area: ElArea::NO1 });
    v.push(Station { id: String::from_str("SN39040"), name: String::from_str("Kjevik"), el_area: ElArea::NO2 });
    v.push(Station { id: String::from_str("SN44560"), name: String::from_str("Sola"), el_area: ElArea::NO2 });
    v.push(Station { id: String::from_str("SN36560"), name: String::from_str("Nelaug"), el_area: ElArea::NO2 });
    v.push(Station { id: String::from_str("SN42160"), name: String::from_str("Lista Fyr"), el_area: ElArea::NO2 });
    v.push(Station { id: String::from_str("SN38140"), name: String::from_str("Landvik"), el_area: ElArea::NO2 });
    v.push(Station { id: String::from_str("SN68860"), name: String::from_str("Trondheim - Voll"), el_area: ElArea::NO3 });
    v.push(Station { id: String::from_str("SN62290"), name: String::from_str("Molde - Nøisomhed"), el_area: ElArea::NO3 });
    v.push(Station { id: String::from_str("SN63420"), name: String::from_str("Sunndalsøra III"), el_area: ElArea::NO3 });
    v.push(Station { id: String::from_str("SN69100"), name: String::from_str("Værnes"), el_area: ElArea::NO3 });
    v.push(Station { id: String::from_str("SN65310"), name: String::from_str("Veiholmen"), el_area: ElArea::NO3 });
    v.push(Station { id: String::from_str("SN90450"), name: String::from_str("Tromsø"), el_area: ElArea::NO4 });
    v.push(Station { id: String::from_str("SN82290"), name: String::from_str("Bodø VI"), el_area: ElArea::NO4 });
    v.push(Station { id: String::from_str("SN87110"), name: String::from_str("Andøya"), el_area: ElArea::NO4 });
    v.push(Station { id: String::from_str("SN94280"), name: String::from_str("Hammerfest Lufthavn"), el_area: ElArea::NO4 });
    v.push(Station { id: String::from_str("SN85380"), name: String::from_str("Skrova Fyr"), el_area: ElArea::NO4 });
    v.push(Station { id: String::from_str("SN50540"), name: String::from_str("Bergen - Florida"), el_area: ElArea::NO5 });
    v.push(Station { id: String::from_str("SN50500"), name: String::from_str("Flesland"), el_area: ElArea::NO5 });
    v.push(Station { id: String::from_str("SN51530"), name: String::from_str("Vossavangen"), el_area: ElArea::NO5 });
    v.push(Station { id: String::from_str("SN57770"), name: String::from_str("Ytterøyane Fyr"), el_area: ElArea::NO5 });
    v.push(Station { id: String::from_str("SN48330"), name: String::from_str("Slåtterøy Fyr"), el_area: ElArea::NO5 });
    v
}

/// The catalog positions whose area lies in `areas`, in order, among the
/// first `n` positions.
pub open spec fn spec_selected(areas: Seq<ElArea>, n: int) -> Seq<int>
    decreases n,
{
    if n <= 0 {
        Seq::empty()
    } else if areas.contains(spec_station_area(n - 1)) {
        spec_selected(areas, n - 1).push(n - 1)
    } else {
        spec_selected(areas, n - 1)
    }
}

/// Membership test for areas.
pub fn area_in(areas: &Vec<ElArea>, a: ElArea) -> (r: bool)
    ensures
        r == areas@.contains(a),
{
    let mut i: usize = 0;
    while i < areas.len()
        invariant
            i <= areas@.len(),
            forall|j: int| 0 <= j < i ==> areas@[j] != a,
        decreases areas@.len() - i,
    {
        if areas[i] == a {
            return true;
        }
        i += 1;
    }
    false
}

/// The catalog stations whose area lies in `areas`, in catalog order.
pub fn stations_for_areas(areas: &Vec<ElArea>) -> (r: Vec<Station>)
    ensures
        r@.len() == spec_selected(areas@, spec_station_count()).len(),
        forall|k: int|
            0 <= k < r@.len() ==> is_catalog_station(
                #[trigger] r@[k],
                spec_selected(areas@, spec_station_count())[k],
            ),
{
    let catalog = station_catalog();
    let mut r: Vec<Station> = Vec::new();
    let mut i: usize = 0;
    while i < 25
        invariant
            catalog@.len() == 25,
            forall|t: int| 0 <= t < 25 ==> is_catalog_station(#[trigger] catalog@[t], t),
            i <= 25,
            r@.len() == spec_selected(areas@, i as int).len(),
            forall|k: int|
                0 <= k < r@.len() ==> is_catalog_station(
                    #[trigger] r@[k],
                    spec_selected(areas@, i as int)[k],
                ),
        decreases 25 - i,
    {
        if area_in(areas, catalog[i].el_area) {
            r.push(catalog[i].clone());
        }
        i += 1;
    }
    r
}

/// Where a station id sits in the catalog, searching from position `i`.
pub open spec fn spec_station_lookup(id: Seq<char>, i: int) -> Option<int>
    decreases 25 - i,
{
    if i < 0 || i >= 25 {
        None
    } else if spec_station_id(i) == id {
        Some(i)
    } else {
        spec_station_lookup(id, i + 1)
    }
}

/// Find the catalog station with the given id.
pub fn station_by_id(id: &str) -> (r: Option<Station>)
    ensures
        match spec_station_lookup(id@, 0) {
            Some(i) => r matches Some(s) && is_catalog_station(s, i),
            None => r is None,
        },
{
    let catalog = station_catalog();
    let mut i: usize = 0;
    while i < 25
        invariant
            catalog@.len() == 25,
            forall|t: int| 0 <= t < 25 ==> is_catalog_station(#[trigger] catalog@[t], t),
            i <= 25,
            spec_station_lookup(id@, 0) == spec_station_lookup(id@, i as int),
        decreases 25 - i,
    {
        if str_eq(catalog[i].id.as_str(), id) {
            return Some(catalog[i].clone());
        }
        i += 1;
    }
    None
}

/// County names mapped to electricity areas over the upper-cased text;
/// both the old and the newer county names are recognised.
pub open spec fn spec_county_area(c: Seq<char>) -> Option<ElArea> {
    if spec_contains(c, "OSLO"@) || spec_contains(c, "AKERSHUS"@) || spec_contains(c, "ØSTFOLD"@)
        || spec_contains(c, "BUSKERUD"@) || spec_contains(c, "HEDMARK"@) || spec_contains(
        c,
        "OPPLAND"@,
    ) || spec_contains(c, "VESTFOLD"@) || spec_contains(c, "TELEMARK"@) || spec_contains(
        c,
        "VIKEN"@,
    ) || spec_contains(c, "INNLANDET"@) {
        Some(ElArea::NO1)
    } else if spec_contains(c, "AGDER"@) || spec_contains(c, "ROGALAND"@) {
        Some(ElArea::NO2)
    } else if spec_contains(c, "TRØNDELAG"@) || spec_contains(c, "MØRE OG ROMSDAL"@) {
        Some(ElArea::NO3)
    } else if spec_contains(c, "NORDLAND"@) || spec_contains(c, "TROMS"@) || spec_contains(
        c,
        "FINNMARK"@,
    ) {
        Some(ElArea::NO4)
    } else if spec_contains(c, "HORDALAND"@) || spec_contains(c, "SOGN OG FJORDANE"@)
        || spec_contains(c, "VESTLAND"@) {
        Some(ElArea::NO5)
    } else {
        None
    }
}

/// Map a county name to its electricity area, case-insensitively.
pub fn county_to_el_area(county: &str) -> (r: Option<ElArea>)
    ensures
        r == spec_county_area(upper_of(county@)),
{
    let cu = to_upper(county);
    let c = cu.as_str();
    if str_contains(c, "OSLO") || str_contains(c, "AKERSHUS") || str_contains(c, "ØSTFOLD")
        || str_contains(c, "BUSKERUD") || str_contains(c, "HEDMARK") || str_contains(c, "OPPLAND")
        || str_contains(c, "VESTFOLD") || str_contains(c, "TELEMARK") || str_contains(c, "VIKEN")
        || str_contains(c, "INNLANDET") {
        Some(ElArea::NO1)
    } else if str_contains(c, "AGDER") || str_contains(c, "ROGALAND") {
        Some(ElArea::NO2)
    } else if str_contains(c, "TRØNDELAG") || str_contains(c, "MØRE OG ROMSDAL") {
        Some(ElArea::NO3)
    } else if str_contains(c, "NORDLAND") || str_contains(c, "TROMS") || str_contains(
        c,
        "FINNMARK",
    ) {
        Some(ElArea::NO4)
    } else if str_contains(c, "HORDALAND") || str_contains(c, "SOGN OG FJORDANE") || str_contains(
        c,
        "VESTLAND",
    ) {
        Some(ElArea::NO5)
    } else {
        None
    }
}

/// All five areas, the default selection.
pub open spec fn spec_all_areas() -> Seq<ElArea> {
    seq![ElArea::NO1, ElArea::NO2, ElArea::NO3, ElArea::NO4, ElArea::NO5]
}

/// The area selection an ingest run works with: the given areas, or all
/// five when none were named. Rejects a selection no station falls in.
pub fn select_stations(areas: Option<Vec<ElArea>>) -> (r: Result<Vec<Station>, InputError>)
    ensures
        ({
            let resolved = match areas {
                Some(v) => v@,
                None => spec_all_areas(),
            };
            match r {
                Ok(ss) => ss@.len() >= 1 && ss@.len() == spec_selected(
                    resolved,
                    spec_station_count(),
                ).len() && forall|k: int|
                    0 <= k < ss@.len() ==> is_catalog_station(
                        #[trigger] ss@[k],
                        spec_selected(resolved, spec_station_count())[k],
                    ),
                Err(e) => e == InputError::EmptyInput && spec_selected(
                    resolved,
                    spec_station_count(),
                ).len() == 0,
            }
        }),
{
    let resolved: Vec<ElArea> = match areas {
        Some(v) => v,
        None => {
            let mut v: Vec<ElArea> = Vec::new();
            v.push(ElArea::NO1);
            v.push(ElArea::NO2);
            v.push(ElArea::NO3);
            v.push(ElArea::NO4);
            v.push(ElArea::NO5);
            proof {
                assert(v@ =~= spec_all_areas());
            }
            v
        },
    };
    let ss = stations_for_areas(&resolved);
    if ss.len() == 0 {
        Err(InputError::EmptyInput)
    } else {
        Ok(ss)
    }
}

} // verus!
