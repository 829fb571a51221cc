//! The flattened observation record the orchestration collects.

use vstd::prelude::*;

verus! {

/// One daily precipitation observation, flattened for output.
///
/// The measured amount is kept as tenths of a millimetre, so the record
/// holds only plain integer values; rendering back to a decimal string
/// is a separate, verified step.
#[derive(Debug)]
pub struct PrecipitationRow {
    pub station_id: String,
    pub station_name: String,
    pub el_area: String,
    pub reference_time: String,
    pub precipitation_tenths_mm: Option<u64>,
    pub quality_code: Option<i32>,
}

/// The spec-level content of a row: each text field as its characters.
pub struct RowView {
    pub station_id: Seq<char>,
    pub station_name: Seq<char>,
    pub el_area: Seq<char>,
    pub reference_time: Seq<char>,
    pub precipitation_tenths_mm: Option<u64>,
    pub quality_code: Option<i32>,
}

impl View for PrecipitationRow {
    type V = RowView;

    open spec fn view(&self) -> RowView {
        RowView {
            station_id: self.station_id@,
            station_name: self.station_name@,
            el_area: self.el_area@,
            reference_time: self.reference_time@,
            precipitation_tenths_mm: self.precipitation_tenths_mm,
            quality_code: self.quality_code,
        }
    }
}

/// The rows' contents, element-wise.
pub open spec fn rows_view(s: Seq<PrecipitationRow>) -> Seq<RowView>
    decreases s.len(),
{
    if s.len() == 0 {
        Seq::empty()
    } else {
        rows_view(s.drop_last()).push(s.last()@)
    }
}

/// The element-wise view keeps the length.
pub proof fn lemma_rows_view_len(s: Seq<PrecipitationRow>)
    ensures
        rows_view(s).len() == s.len(),
    decreases s.len(),
{
    if s.len() > 0 {
        lemma_rows_view_len(s.drop_last());
    }
}

impl Clone for PrecipitationRow {
    fn clone(&self) -> (r: Self)
        ensures
            r == *self,
    {
        PrecipitationRow {
            station_id: self.station_id.clone(),
            station_name: self.station_name.clone(),
            el_area: self.el_area.clone(),
            reference_time: self.reference_time.clone(),
            precipitation_tenths_mm: self.precipitation_tenths_mm,
            quality_code: self.quality_code,
        }
    }
}

} // verus!
