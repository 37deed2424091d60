use vstd::prelude::*;

verus! {

/// Whether `year` is a leap year of the proleptic Gregorian calendar.
pub open spec fn is_leap_year(year: int) -> bool {
    (year % 4 == 0 && year % 100 != 0) || year % 400 == 0
}

/// Number of days of `month` (1 to 12) in `year`.
pub open spec fn days_in_month(year: int, month: int) -> int {
    if month == 2 {
        if is_leap_year(year) { 29 } else { 28 }
    } else if month == 4 || month == 6 || month == 9 || month == 11 {
        30
    } else {
        31
    }
}

/// A calendar date of the proleptic Gregorian calendar.
#[derive(Clone, Copy, Debug, PartialEq, Eq, Structural)]
pub struct CalendarDate {
    pub year: i32,
    pub month: u32,
    pub day: u32,
}

impl CalendarDate {
    /// The date names an existing day.
    pub open spec fn valid(&self) -> bool {
        &&& 1 <= self.month <= 12
        &&& 1 <= self.day <= days_in_month(self.year as int, self.month as int)
    }
}

/// Relies on chrono's `Local::now` and `DateTime::date_naive`: today's date in
/// the machine's time zone. A `NaiveDate` always names an existing day, and
/// `Datelike::month` / `Datelike::day` are one-based.
#[verifier::external_body]
pub(crate) fn local_today() -> (r: CalendarDate)
    ensures
        r.valid(),
{
    let d = chrono::Local::now().date_naive();
    CalendarDate {
        year: chrono::Datelike::year(&d),
        month: chrono::Datelike::month(&d),
        day: chrono::Datelike::day(&d),
    }
}

/// The validity window a built dataset must cover: it starts on `begin` and
/// spans `horizon_days` days.
#[derive(Clone, Copy, Debug, PartialEq, Eq, Structural)]
pub struct Period {
    pub begin: CalendarDate,
    pub horizon_days: u32,
}

/// Descriptor of the feed source a dataset is built from.
#[derive(Clone, Debug)]
pub struct DatasetInfo {
    /// Identifier of the feed, used when reporting a failed build.
    pub id: String,
    /// Where the feed is read from (a path or a URL).
    pub source: String,
}

/// What the reloader needs to rebuild a dataset: the feed source, and the
/// period whose horizon every rebuild reuses.
#[derive(Clone, Debug)]
pub struct FeedConstructionInfo {
    pub dataset_info: DatasetInfo,
    pub generation_period: Period,
}

/// The period of a rebuild started on `today`: it begins on that day and keeps
/// the horizon of the construction info.
pub open spec fn effective_period(info: FeedConstructionInfo, today: CalendarDate) -> Period {
    Period { begin: today, horizon_days: info.generation_period.horizon_days }
}

impl DatasetInfo {
    /// A copy of the descriptor.
    pub fn duplicate(&self) -> (r: DatasetInfo)
        ensures
            r.id@ == self.id@,
            r.source@ == self.source@,
    {
        DatasetInfo { id: self.id.clone(), source: self.source.clone() }
    }
}

} // verus!
