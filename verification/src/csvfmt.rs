//! Rendering rows to tabular records: the compute half of CSV output.
//! The file writing itself happens outside the library.

use vstd::prelude::*;
use crate::rows::PrecipitationRow;
use crate::text::{digit_str, spec_digit, spec_u64_dec, u64_dec};

verus! {

/// Tenths of a millimetre as a decimal amount: whole numbers without a
/// fraction digit, otherwise one fraction digit.
pub open spec fn spec_tenths_text(n: int) -> Seq<char> {
    if n % 10 == 0 {
        spec_u64_dec(n / 10)
    } else {
        spec_u64_dec(n / 10) + seq!['.', spec_digit(n % 10)]
    }
}

pub fn tenths_text(n: u64) -> (r: String)
    ensures
        r@ == spec_tenths_text(n as int),
{
    if n % 10 == 0 {
        u64_dec(n / 10)
    } else {
        let mut s = u64_dec(n / 10);
        s.append(".");
        s.append(digit_str((n % 10) as u32));
        proof {
            reveal_strlit(".");
            assert(s@ =~= spec_tenths_text(n as int));
        }
        s
    }
}

/// Signed decimal rendering.
pub open spec fn spec_i32_text(n: int) -> Seq<char> {
    if n >= 0 {
        spec_u64_dec(n)
    } else {
        seq!['-'] + spec_u64_dec(-n)
    }
}

pub fn i32_text(n: i32) -> (r: String)
    ensures
        r@ == spec_i32_text(n as int),
{
    if n >= 0 {
        u64_dec(n as u64)
    } else {
        let wide: i64 = n as i64;
        let mut s = String::from_str("-");
        let digits = u64_dec((-wide) as u64);
        s.append(digits.as_str());
        proof {
            reveal_strlit("-");
            assert(s@ =~= spec_i32_text(n as int));
        }
        s
    }
}

/// An optional amount; empty text when absent.
pub open spec fn spec_opt_tenths_text(o: Option<u64>) -> Seq<char> {
    match o {
        Some(v) => spec_tenths_text(v as int),
        None => Seq::empty(),
    }
}

/// An optional quality code; empty text when absent.
pub open spec fn spec_opt_i32_text(o: Option<i32>) -> Seq<char> {
    match o {
        Some(v) => spec_i32_text(v as int),
        None => Seq::empty(),
    }
}

/// The header record of the tabular output.
pub fn csv_header() -> (r: Vec<String>)
    ensures
        r@.len() == 6,
        r@[0]@ == "station_id"@,
        r@[1]@ == "station_name"@,
        r@[2]@ == "el_area"@,
        r@[3]@ == "reference_time"@,
        r@[4]@ == "precipitation_mm"@,
        r@[5]@ == "quality_code"@,
{
    let mut v: Vec<String> = Vec::new();
    v.push(String::from_str("station_id"));
    v.push(String::from_str("station_name"));
    v.push(String::from_str("el_area"));
    v.push(String::from_str("reference_time"));
    v.push(String::from_str("precipitation_mm"));
    v.push(String::from_str("quality_code"));
    v
}

/// One row as a six-field record, in header order, with absent values
/// rendered as empty fields.
pub fn csv_record(row: &PrecipitationRow) -> (r: Vec<String>)
    ensures
        r@.len() == 6,
        r@[0]@ == row.station_id@,
        r@[1]@ == row.station_name@,
        r@[2]@ == row.el_area@,
        r@[3]@ == row.reference_time@,
        r@[4]@ == spec_opt_tenths_text(row.precipitation_tenths_mm),
        r@[5]@ == spec_opt_i32_text(row.quality_code),
{
    let precip: String = match row.precipitation_tenths_mm {
        Some(v) => tenths_text(v),
        None => String::new(),
    };
    let quality: String = match row.quality_code {
        Some(v) => i32_text(v),
        None => String::new(),
    };
    let mut v: Vec<String> = Vec::new();
    v.push(row.station_id.clone());
    v.push(row.station_name.clone());
    v.push(row.el_area.clone());
    v.push(row.reference_time.clone());
    v.push(precip);
    v.push(quality);
    v
}

} // verus!
