//! The text printed for the current conditions and for each forecast point.
use vstd::prelude::*;
use crate::datetime::{format_datetime, lemma_text_round_trip, parse_text};
use crate::weather::{CurrentConditions, FormattedResult};

verus! {

/// The temperature lines shared by both reports.
pub open spec fn temperature_lines(t: Seq<char>, hi: Seq<char>, lo: Seq<char>) -> Seq<char> {
    "\n\nTemperature: "@ + t + "\n\nMax: "@ + hi + "\n\nMin: "@ + lo + "\n"@
}

/// The report on the weather now in `city`.
pub open spec fn current_report_text(city: Seq<char>, c: CurrentConditions) -> Seq<char> {
    "\nToday's Weather in "@ + city + " is "@ + c.weather_description@ + temperature_lines(
        c.current_temperature@,
        c.max_temperature@,
        c.min_temperature@,
    )
}

/// The report on one forecast point in `city`.
pub open spec fn forecast_report_text(city: Seq<char>, p: FormattedResult) -> Seq<char> {
    "\nDatetime: "@ + p.datetime.text() + "\n\nWeather in "@ + city + " is "@ + p.weather_description@
        + temperature_lines(p.current_temperature@, p.max_temperature@, p.min_temperature@)
}

fn push_temperature_lines(s: &mut String, t: &str, hi: &str, lo: &str)
    ensures
        final(s)@ == old(s)@ + temperature_lines(t@, hi@, lo@),
{
    s.append("\n\nTemperature: ");
    s.append(t);
    s.append("\n\nMax: ");
    s.append(hi);
    s.append("\n\nMin: ");
    s.append(lo);
    s.append("\n");
    assert(final(s)@ =~= old(s)@ + temperature_lines(t@, hi@, lo@));
}

/// Lays out the weather now in `city`.
pub fn current_report(city: &str, c: &CurrentConditions) -> (r: String)
    ensures
        r@ == current_report_text(city@, *c),
{
    let mut s = String::from_str("\nToday's Weather in ");
    s.append(city);
    s.append(" is ");
    s.append(c.weather_description.as_str());
    push_temperature_lines(
        &mut s,
        c.current_temperature.as_str(),
        c.max_temperature.as_str(),
        c.min_temperature.as_str(),
    );
    assert(s@ =~= current_report_text(city@, *c));
    s
}

/// Lays out one forecast point in `city`, its time as `YYYY-MM-DD HH:MM`.
pub fn forecast_report(city: &str, p: &FormattedResult) -> (r: String)
    requires
        p.datetime.wf(),
        p.datetime.has_four_digit_year(),
    ensures
        r@ == forecast_report_text(city@, *p),
{
    let mut s = String::from_str("\nDatetime: ");
    let when = format_datetime(&p.datetime);
    s.append(when.as_str());
    s.append("\n\nWeather in ");
    s.append(city);
    s.append(" is ");
    s.append(p.weather_description.as_str());
    push_temperature_lines(
        &mut s,
        p.current_temperature.as_str(),
        p.max_temperature.as_str(),
        p.min_temperature.as_str(),
    );
    assert(s@ =~= forecast_report_text(city@, *p));
    s
}

/// The time printed in a forecast report reads back as the point's time, to the minute.
pub proof fn lemma_report_time_round_trip(city: Seq<char>, p: FormattedResult)
    requires
        p.datetime.wf(),
        p.datetime.has_four_digit_year(),
    ensures
        parse_text(forecast_report_text(city, p).subrange(11, 27)) == Some(p.datetime.to_minute()),
{
    reveal_strlit("\nDatetime: ");
    let text = forecast_report_text(city, p);
    assert(text.subrange(11, 27) =~= p.datetime.text());
    lemma_text_round_trip(p.datetime);
}

} // verus!
