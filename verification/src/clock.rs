//! Reading the clocks and rendering every row.
//!
//! The timezone database and the system clock are outside collaborators:
//! parsing a timezone identifier, and sampling the current hour and UTC
//! offset in a timezone, are trusted wrappers around the chrono and
//! chrono-tz crates.  Everything computed from their results — the
//! hour-granularity offsets, the rotation, the styling, the fail-fast
//! ordering of the rows — is verified.

use vstd::prelude::*;
use crate::row::{build_row, row_ok, ClockRow};
use crate::table::{resolve_cities, CityTable};

verus! {

#[verifier::external_type_specification]
#[verifier::external_body]
pub struct ExTz(chrono_tz::Tz);

/// Whether the timezone database knows the identifier `name`.  The database
/// is a static table compiled into chrono-tz, so this is a function of the
/// identifier alone.
pub uninterp spec fn tz_in_db(name: Seq<char>) -> bool;

/// Relies on chrono-tz's `Tz::from_str`: a lookup of the identifier in the
/// crate's static table of timezone names, succeeding exactly when the
/// table holds the identifier.
#[verifier::external_body]
fn parse_timezone(name: &String) -> (r: Option<chrono_tz::Tz>)
    ensures
        r is Some <==> tz_in_db(name@),
{
    name.parse::<chrono_tz::Tz>().ok()
}

/// Relies on chrono's `Local::now`, on `Timelike::hour`, which returns the
/// hour number from 0 to 23, and on `FixedOffset::local_minus_utc`, whose
/// result is strictly between -86400 and 86400 seconds by the offset's
/// construction.  The sample depends on the instant of the call, so no more
/// is stated.
#[verifier::external_body]
fn local_now_sample() -> (r: (u8, i32))
    ensures
        r.0 < 24,
        -86400 < r.1 < 86400,
{
    let now = chrono::Local::now();
    let secs = chrono::Offset::fix(now.offset()).local_minus_utc();
    (chrono::Timelike::hour(&now) as u8, secs)
}

/// Relies on chrono's `Utc::now` and `DateTime::with_timezone`, on
/// `Timelike::hour`, which returns the hour number from 0 to 23, and on
/// `FixedOffset::local_minus_utc`, whose result is strictly between -86400
/// and 86400 seconds by the offset's construction.  The sample depends on
/// the instant of the call, so no more is stated.
#[verifier::external_body]
fn tz_now_sample(tz: &chrono_tz::Tz) -> (r: (u8, i32))
    ensures
        r.0 < 24,
        -86400 < r.1 < 86400,
{
    let now = chrono::Utc::now().with_timezone(tz);
    let secs = chrono::Offset::fix(now.offset()).local_minus_utc();
    (chrono::Timelike::hour(&now) as u8, secs)
}

/// A UTC offset in seconds truncated toward zero to whole hours
/// (sub-hour offsets are not modeled).
pub open spec fn hours_of_seconds(secs: int) -> int {
    if secs >= 0 {
        secs / 3600
    } else {
        -((-secs) / 3600)
    }
}

/// Truncate a UTC offset in seconds toward zero to whole hours.
pub fn offset_hours_from_seconds(secs: i32) -> (r: i32)
    requires
        -86400 < secs < 86400,
    ensures
        r == hours_of_seconds(secs as int),
        -23 <= r <= 23,
{
    if secs >= 0 {
        secs / 3600
    } else {
        -((-secs) / 3600)
    }
}

/// A rendering failure: either a requested city the table does not hold, or
/// a resolved timezone identifier the timezone database does not know (the
/// table's generation guarantees the identifiers parse, so the second
/// variant signals a defective table, not a user error).
pub enum RenderError {
    /// The first requested city without a table entry, and its position
    /// among the requests.
    CityNotFound { city: String, index: usize },
    /// The first resolved identifier the timezone database does not know,
    /// with its city and its position among the requests.
    TimezoneParseFailure { city: String, tz: String, index: usize },
}

impl RenderError {
    /// The user-visible message for this failure.
    pub fn message(&self) -> (r: String)
        ensures
            self matches RenderError::CityNotFound { city, .. } ==> r@
                == "Timezone not found for city: "@ + city@,
            self matches RenderError::TimezoneParseFailure { city, .. } ==> r@
                == "Invalid timezone in table for city: "@ + city@,
    {
        match self {
            RenderError::CityNotFound { city, .. } => {
                "Timezone not found for city: ".to_owned().concat(city.as_str())
            },
            RenderError::TimezoneParseFailure { city, .. } => {
                "Invalid timezone in table for city: ".to_owned().concat(city.as_str())
            },
        }
    }
}

/// Whether `row` is a well-formed clock row titled with `city`, for some
/// rotation offset and some current hour.  The offset of a city row is the
/// difference of two whole-hour UTC offsets, each in [-23, 23]; the hour
/// and the offset come from reading the city's clock, so beyond those
/// bounds nothing pins them.
pub open spec fn city_row_ok(row: ClockRow, city: Seq<char>) -> bool {
    exists|off: int, cur: int|
        -46 <= off <= 46 && 0 <= cur < 24 && #[trigger] row_ok(row, city, off, cur)
}

/// Whether `row` is a well-formed local row: titled "local time", not
/// rotated, for some current hour.
pub open spec fn local_row_ok(row: ClockRow) -> bool {
    exists|cur: int| 0 <= cur < 24 && #[trigger] row_ok(row, "local time"@, 0, cur)
}

/// Whether the table holds every requested city.
pub open spec fn all_cities_resolved(table: CityTable, cities: Seq<String>) -> bool {
    forall|i: int| 0 <= i < cities.len() ==> table.has_city(#[trigger] cities[i]@)
}

/// Whether the timezone database knows every identifier the table pairs
/// with a requested city.
pub open spec fn all_timezones_known(table: CityTable, cities: Seq<String>) -> bool {
    forall|i: int| 0 <= i < cities.len() ==> tz_in_db(table.tz_of(#[trigger] cities[i]@))
}

/// Resolve every requested city and render every row: first the viewer's
/// own row (offset zero), then one row per city in request order, each
/// rotated by the city's whole-hour offset from the viewer at the instant
/// its clock was read.  Fail-fast: on the first unresolvable city, or the
/// first identifier the timezone database does not know, no rows at all are
/// produced.
pub fn render_rows(table: &CityTable, cities: &Vec<String>) -> (r: Result<
    Vec<ClockRow>,
    RenderError,
>)
    ensures
        r is Ok <==> (all_cities_resolved(*table, cities@) && all_timezones_known(
            *table,
            cities@,
        )),
        r matches Ok(rows) ==> {
            &&& rows@.len() == cities@.len() + 1
            &&& local_row_ok(rows@[0])
            &&& forall|i: int|
                0 <= i < cities@.len() ==> city_row_ok(#[trigger] rows@[i + 1], cities@[i]@)
        },
        r matches Err(RenderError::CityNotFound { city, index }) ==> {
            &&& index < cities@.len()
            &&& !table.has_city(cities@[index as int]@)
            &&& forall|j: int| 0 <= j < index ==> table.has_city(#[trigger] cities@[j]@)
            &&& city@ == cities@[index as int]@
        },
        r matches Err(RenderError::TimezoneParseFailure { city, tz, index }) ==> {
            &&& all_cities_resolved(*table, cities@)
            &&& index < cities@.len()
            &&& !tz_in_db(table.tz_of(cities@[index as int]@))
            &&& forall|j: int|
                0 <= j < index ==> tz_in_db(table.tz_of(#[trigger] cities@[j]@))
            &&& city@ == cities@[index as int]@
            &&& tz@ == table.tz_of(cities@[index as int]@)
        },
{
    let pairs = match resolve_cities(table, cities) {
        Ok(pairs) => pairs,
        Err(e) => {
            return Err(RenderError::CityNotFound { city: e.city, index: e.index });
        },
    };
    let local = local_now_sample();
    let local_hours = offset_hours_from_seconds(local.1);
    let mut rows: Vec<ClockRow> = Vec::new();
    let local_row = build_row("local time".to_owned(), 0, local.0);
    rows.push(local_row);
    let n = pairs.len();
    for i in 0..n
        invariant
            n == pairs@.len(),
            pairs@.len() == cities@.len(),
            forall|j: int|
                0 <= j < cities@.len() ==> (#[trigger] pairs@[j]).0@ == cities@[j]@ && pairs@[j].1@
                    == table.tz_of(cities@[j]@),
            all_cities_resolved(*table, cities@),
            -23 <= local_hours <= 23,
            rows@.len() == i + 1,
            local_row_ok(rows@[0]),
            forall|j: int| 0 <= j < i ==> city_row_ok(#[trigger] rows@[j + 1], cities@[j]@),
            forall|j: int| 0 <= j < i ==> tz_in_db(table.tz_of(#[trigger] cities@[j]@)),
    {
        let tz = match parse_timezone(&pairs[i].1) {
            Some(tz) => tz,
            None => {
                return Err(
                    RenderError::TimezoneParseFailure {
                        city: pairs[i].0.clone(),
                        tz: pairs[i].1.clone(),
                        index: i,
                    },
                );
            },
        };
        let sample = tz_now_sample(&tz);
        let off = offset_hours_from_seconds(sample.1) - local_hours;
        let city_row = build_row(pairs[i].0.clone(), off, sample.0);
        rows.push(city_row);
        assert(row_ok(rows@[i + 1], cities@[i as int]@, off as int, sample.0 as int));
    }
    Ok(rows)
}

} // verus!
