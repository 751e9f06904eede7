//! Composes the spoken forecast: one sentence for the conditions now, one
//! for each upcoming checkpoint, and one that sums up the active alerts.
use vstd::prelude::*;

use crate::clock::{
    append_clock, append_day, clock_phrase, day_phrase, lemma_clock_letters, lemma_day_letters,
    LocalTime,
};
use crate::text::{
    append_decimal, avoids, decimal, join, join_strings, lemma_avoids_add, lemma_decimal_digits,
    lemma_missing_char, lemma_occurs_within, lowercase_of, magnitude, occurs_in, to_lowercase,
    unsigned_magnitude,
};
use crate::weather::{Weather, WeatherAlert};

verus! {

/// The only way composing a forecast can fail: there was no observation.
#[derive(Clone, Copy, Debug, PartialEq, Eq, Structural)]
pub struct EmptyInputError;

/// How a temperature and a condition are said: the whole degrees without
/// sign, " below" when the temperature is negative, then " and " and the
/// summary ("10 below and cloudy").
pub open spec fn weather_phrase(temp: int, summary: Seq<char>) -> Seq<char> {
    decimal(magnitude(temp)) + (if temp < 0 {
        " below"@
    } else {
        Seq::empty()
    }) + " and "@ + summary
}

/// How one observation is said.
pub open spec fn sample_phrase(w: Weather) -> Seq<char> {
    weather_phrase(w.spoken_temp(), w.summary@)
}

/// The opening sentence, about the conditions now.
pub open spec fn current_sentence(w: Weather) -> Seq<char> {
    "It's currently "@ + sample_phrase(w) + "."@
}

/// The sentence for a checkpoint that is neither the first nor the last.
pub open spec fn middle_sentence(w: Weather) -> Seq<char> {
    "At "@ + clock_phrase(w.timestamp.hour_of_day()) + ", it will be "@ + sample_phrase(w) + "."@
}

/// The sentence for the last checkpoint, opened by `lead`.
pub open spec fn last_sentence(lead: Seq<char>, w: Weather) -> Seq<char> {
    lead + " "@ + clock_phrase(w.timestamp.hour_of_day()) + " it will be "@ + sample_phrase(w)
        + "."@
}

/// The lead of the last sentence: "And at" after a middle sentence, else "At".
pub open spec fn last_lead(n: nat) -> Seq<char> {
    if n > 2 {
        "And at"@
    } else {
        "At"@
    }
}

/// The single sentence said when nothing changes through the day.
pub open spec fn all_day_sentence(w: Weather) -> Seq<char> {
    "All day, it will be "@ + sample_phrase(w) + "."@
}

/// Whether every observation is the same as the first.
pub open spec fn all_same(ws: Seq<Weather>) -> bool {
    forall|i: int| 0 <= i < ws.len() ==> #[trigger] ws[i].same(&ws[0])
}

/// The sentence for the observation at index `i`.
pub open spec fn sample_sentence(ws: Seq<Weather>, i: int) -> Seq<char> {
    if i == 0 {
        current_sentence(ws[0])
    } else if i < ws.len() - 1 {
        middle_sentence(ws[i])
    } else {
        last_sentence(last_lead(ws.len()), ws[i])
    }
}

/// One sentence per observation, in order.
pub open spec fn weather_sentences(ws: Seq<Weather>) -> Seq<Seq<char>> {
    Seq::new(ws.len(), |i: int| sample_sentence(ws, i))
}

/// How an alert's window is said, seen from `now`: "until" its end when it
/// has already begun; else "from" its start "through" its end, naming the
/// day once when both fall on the same date and after each time otherwise.
pub open spec fn time_range(start: LocalTime, end: LocalTime, now: LocalTime) -> Seq<char> {
    if start.instant() < now.instant() {
        "until "@ + clock_phrase(end.hour_of_day()) + " "@ + day_phrase(now.date(), end.date())
    } else if start.date() == end.date() {
        "from "@ + clock_phrase(start.hour_of_day()) + " through "@ + clock_phrase(
            end.hour_of_day(),
        ) + " "@ + day_phrase(now.date(), end.date())
    } else {
        "from "@ + clock_phrase(start.hour_of_day()) + " "@ + day_phrase(now.date(), start.date())
            + " through "@ + clock_phrase(end.hour_of_day()) + " "@ + day_phrase(
            now.date(),
            end.date(),
        )
    }
}

/// One clause about one alert: the lead, the event as spoken, the window.
pub open spec fn alert_clause(lead: Seq<char>, event: Seq<char>, a: WeatherAlert, now: LocalTime) -> Seq<char> {
    lead + " "@ + event + " "@ + time_range(a.start, a.end, now)
}

/// The closing clause about the alerts that are not described.
pub open spec fn remainder_clause(n: nat) -> Seq<char> {
    "And "@ + decimal(n) + " more "@ + (if n == 1 {
        "alert"@
    } else {
        "alerts"@
    })
}

/// The clauses about `alerts`, where `events[i]` is how the event of
/// `alerts[i]` is spoken: the first two alerts, then the count of the rest.
pub open spec fn alert_clauses(alerts: Seq<WeatherAlert>, events: Seq<Seq<char>>, now: LocalTime) -> Seq<Seq<char>> {
    let first = seq![alert_clause("There is a"@, events[0], alerts[0], now)];
    let two = if alerts.len() > 1 {
        first.push(alert_clause("And a"@, events[1], alerts[1], now))
    } else {
        first
    };
    if alerts.len() > 2 {
        two.push(remainder_clause((alerts.len() - 2) as nat))
    } else {
        two
    }
}

/// The alert summary given how each event is spoken.
pub open spec fn summary_with(alerts: Seq<WeatherAlert>, events: Seq<Seq<char>>, now: LocalTime) -> Seq<char> {
    join(alert_clauses(alerts, events, now), ". "@) + "."@
}

/// How the events of `alerts` are spoken: lowercased.
pub open spec fn spoken_events(alerts: Seq<WeatherAlert>) -> Seq<Seq<char>> {
    Seq::new(alerts.len(), |i: int| lowercase_of(alerts[i].event@))
}

/// The sentence that sums up `alerts`.
pub open spec fn alerts_summary(alerts: Seq<WeatherAlert>, now: LocalTime) -> Seq<char> {
    summary_with(alerts, spoken_events(alerts), now)
}

/// The sentences of the forecast.
pub open spec fn forecast_sentences(ws: Seq<Weather>, alerts: Seq<WeatherAlert>, now: LocalTime) -> Seq<Seq<char>> {
    if ws.len() > 1 && all_same(ws) {
        seq![all_day_sentence(ws[0])]
    } else if alerts.len() > 0 {
        weather_sentences(ws).push(alerts_summary(alerts, now))
    } else {
        weather_sentences(ws)
    }
}

/// The spoken forecast: its sentences joined by single spaces.
pub open spec fn forecast_text(ws: Seq<Weather>, alerts: Seq<WeatherAlert>, now: LocalTime) -> Seq<char> {
    join(forecast_sentences(ws, alerts, now), " "@)
}

/// Appends how a temperature and a summary are said to `s`.
fn append_weather(s: &mut String, temp: i64, summary: &str)
    ensures
        final(s)@ == old(s)@ + weather_phrase(temp as int, summary@),
{
    let ghost before = s@;
    append_decimal(s, unsigned_magnitude(temp));
    if temp < 0 {
        s.append(" below");
    }
    s.append(" and ");
    s.append(summary);
    assert(s@ =~= before + weather_phrase(temp as int, summary@));
}

/// How a temperature and a summary are said: "72 and foo", "72 below and foo".
pub fn inner_speakable_weather(temp: i64, summary: &str) -> (r: String)
    ensures
        r@ == weather_phrase(temp as int, summary@),
{
    let mut s = String::new();
    append_weather(&mut s, temp, summary);
    assert(s@ =~= weather_phrase(temp as int, summary@));
    s
}

/// The temperature of `weather` that is spoken.
fn spoken_temp(weather: &Weather) -> (r: i64)
    ensures
        r as int == weather.spoken_temp(),
{
    match weather.apparent_temp {
        Some(t) => t,
        None => weather.temp,
    }
}

/// How one observation is said, preferring its apparent temperature.
pub fn speakable_weather(weather: &Weather) -> (r: String)
    ensures
        r@ == sample_phrase(*weather),
{
    inner_speakable_weather(spoken_temp(weather), weather.summary.as_str())
}

/// Builds `prefix`, the observation's clock phrase, `middle`, its weather
/// phrase and a full stop.
fn timed_sentence(prefix: &str, weather: &Weather, middle: &str) -> (r: String)
    ensures
        r@ == prefix@ + clock_phrase(weather.timestamp.hour_of_day()) + middle@ + sample_phrase(
            *weather,
        ) + "."@,
{
    let mut s = String::from_str(prefix);
    append_clock(&mut s, weather.timestamp.hour());
    s.append(middle);
    append_weather(&mut s, spoken_temp(weather), weather.summary.as_str());
    s.append(".");
    s
}

/// The sentence for the observation at index `i` of `weather`.
fn sentence_at(weather: &Vec<Weather>, i: usize) -> (r: String)
    requires
        i < weather.len(),
    ensures
        r@ == sample_sentence(weather@, i as int),
{
    if i == 0 {
        let mut s = String::from_str("It's currently ");
        append_weather(&mut s, spoken_temp(&weather[0]), weather[0].summary.as_str());
        s.append(".");
        s
    } else if i < weather.len() - 1 {
        let r = timed_sentence("At ", &weather[i], ", it will be ");
        r
    } else {
        let lead = if weather.len() > 2 {
            "And at "
        } else {
            "At "
        };
        let r = timed_sentence(lead, &weather[i], " it will be ");
        proof {
            reveal_strlit("And at ");
            reveal_strlit("And at");
            reveal_strlit("At ");
            reveal_strlit("At");
            reveal_strlit(" ");
            assert(lead@ =~= last_lead(weather.len() as nat) + " "@);
        }
        r
    }
}

/// Whether every observation of `weather` is the same as the first.
fn all_same_weather(weather: &Vec<Weather>) -> (r: bool)
    requires
        weather.len() > 0,
    ensures
        r == all_same(weather@),
{
    let mut i: usize = 1;
    while i < weather.len()
        invariant
            1 <= i <= weather.len(),
            forall|j: int| 0 <= j < i ==> #[trigger] weather@[j].same(&weather@[0]),
        decreases weather.len() - i,
    {
        if !weather[i].same_as(&weather[0]) {
            return false;
        }
        i = i + 1;
    }
    true
}

/// How the window of `alert` is said, seen from `now`.
pub fn speakable_time_range(alert: &WeatherAlert, now: &LocalTime) -> (r: String)
    ensures
        r@ == time_range(alert.start, alert.end, *now),
{
    let mut s = String::new();
    if alert.start.epoch_seconds() < now.epoch_seconds() {
        s.append("until ");
        append_clock(&mut s, alert.end.hour());
        s.append(" ");
        append_day(&mut s, now.day(), alert.end.day());
    } else if alert.start.day() == alert.end.day() {
        s.append("from ");
        append_clock(&mut s, alert.start.hour());
        s.append(" through ");
        append_clock(&mut s, alert.end.hour());
        s.append(" ");
        append_day(&mut s, now.day(), alert.end.day());
    } else {
        s.append("from ");
        append_clock(&mut s, alert.start.hour());
        s.append(" ");
        append_day(&mut s, now.day(), alert.start.day());
        s.append(" through ");
        append_clock(&mut s, alert.end.hour());
        s.append(" ");
        append_day(&mut s, now.day(), alert.end.day());
    }
    assert(s@ =~= time_range(alert.start, alert.end, *now));
    s
}

/// One clause about `alert`: `lead`, the event as spoken, and its window.
pub fn speakable_alert(lead: &str, event: &str, alert: &WeatherAlert, now: &LocalTime) -> (r: String)
    ensures
        r@ == alert_clause(lead@, event@, *alert, *now),
{
    let mut s = String::from_str(lead);
    s.append(" ");
    s.append(event);
    s.append(" ");
    let range = speakable_time_range(alert, now);
    s.append(range.as_str());
    assert(s@ =~= alert_clause(lead@, event@, *alert, *now));
    s
}

/// The sentence that sums up `alerts`, given how the event of each of the
/// first two is spoken (`events[i]` for `alerts[i]`).
pub fn summarize_spoken_alerts(alerts: &Vec<WeatherAlert>, events: &Vec<String>, now: &LocalTime) -> (r: String)
    requires
        alerts.len() > 0,
        events.len() >= alerts.len() || events.len() >= 2,
    ensures
        r@ == summary_with(alerts@, events@.map_values(|e: String| e@), *now),
{
    let ghost spoken = events@.map_values(|e: String| e@);
    let mut clauses: Vec<String> = Vec::new();
    clauses.push(speakable_alert("There is a", events[0].as_str(), &alerts[0], now));
    if alerts.len() > 1 {
        clauses.push(speakable_alert("And a", events[1].as_str(), &alerts[1], now));
    }
    if alerts.len() > 2 {
        let rest = alerts.len() - 2;
        let mut s = String::from_str("And ");
        append_decimal(&mut s, rest as u64);
        s.append(" more ");
        if rest == 1 {
            s.append("alert");
        } else {
            s.append("alerts");
        }
        clauses.push(s);
    }
    assert(clauses@.map_values(|c: String| c@) =~= alert_clauses(alerts@, spoken, *now));
    let mut r = join_strings(&clauses, ". ");
    r.append(".");
    r
}

/// The sentence that sums up `alerts`: the first two, each with its event
/// lowercased and its window, then how many more there are.
pub fn summarize_alerts(alerts: &Vec<WeatherAlert>, now: &LocalTime) -> (r: String)
    requires
        alerts.len() > 0,
    ensures
        r@ == alerts_summary(alerts@, *now),
{
    let mut events: Vec<String> = Vec::new();
    events.push(to_lowercase(alerts[0].event.as_str()));
    if alerts.len() > 1 {
        events.push(to_lowercase(alerts[1].event.as_str()));
    }
    let r = summarize_spoken_alerts(alerts, &events, now);
    proof {
        let spoken = events@.map_values(|e: String| e@);
        let all = spoken_events(alerts@);
        assert(spoken[0] == all[0]);
        assert(alerts.len() > 1 ==> spoken[1] == all[1]);
        assert(alert_clauses(alerts@, spoken, *now) =~= alert_clauses(alerts@, all, *now));
    }
    r
}

/// The sentences of the forecast for `weather` (the first observation is
/// now, the rest are upcoming checkpoints) and `alerts`, seen from `now`.
pub fn to_forecast(weather: Vec<Weather>, alerts: Vec<WeatherAlert>, now: LocalTime) -> (r: Result<Vec<String>, EmptyInputError>)
    ensures
        r is Err <==> weather@.len() == 0,
        r is Ok ==> r->Ok_0@.map_values(|s: String| s@) == forecast_sentences(weather@, alerts@, now),
{
    if weather.len() == 0 {
        return Err(EmptyInputError);
    }
    let mut forecast: Vec<String> = Vec::new();
    if weather.len() > 1 && all_same_weather(&weather) {
        let mut s = String::from_str("All day, it will be ");
        append_weather(&mut s, spoken_temp(&weather[0]), weather[0].summary.as_str());
        s.append(".");
        forecast.push(s);
        assert(forecast@.map_values(|s: String| s@) =~= forecast_sentences(weather@, alerts@, now));
        return Ok(forecast);
    }
    let mut i: usize = 0;
    while i < weather.len()
        invariant
            i <= weather.len(),
            forecast@.map_values(|s: String| s@) =~= weather_sentences(weather@).take(i as int),
        decreases weather.len() - i,
    {
        let ghost before = forecast@;
        let s = sentence_at(&weather, i);
        forecast.push(s);
        proof {
            assert(forecast@ =~= before.push(s));
            assert(forecast@.map_values(|s: String| s@) =~= before.map_values(|s: String| s@).push(s@));
            assert(weather_sentences(weather@).take(i + 1) =~= weather_sentences(weather@).take(i as int).push(s@));
        }
        i = i + 1;
    }
    assert(weather_sentences(weather@).take(weather.len() as int) =~= weather_sentences(weather@));
    if alerts.len() > 0 {
        forecast.push(summarize_alerts(&alerts, &now));
    }
    assert(forecast@.map_values(|s: String| s@) =~= forecast_sentences(weather@, alerts@, now));
    Ok(forecast)
}

/// The spoken forecast for `weather` and `alerts`, seen from `now`: its
/// sentences joined by single spaces; an error when there is no observation.
pub fn forecast(weather: Vec<Weather>, alerts: Vec<WeatherAlert>, now: LocalTime) -> (r: Result<String, EmptyInputError>)
    ensures
        r is Err <==> weather@.len() == 0,
        r is Ok ==> r->Ok_0@ == forecast_text(weather@, alerts@, now),
{
    match to_forecast(weather, alerts, now) {
        Ok(sentences) => Ok(join_strings(&sentences, " ")),
        Err(e) => Err(e),
    }
}

/// When there are two or more observations and all of them are the same,
/// the forecast is one sentence, "All day, it will be ...", whatever the
/// alerts.
pub proof fn lemma_unchanging_day(ws: Seq<Weather>, alerts: Seq<WeatherAlert>, now: LocalTime)
    requires
        ws.len() >= 2,
        forall|i: int, j: int| 0 <= i < ws.len() && 0 <= j < ws.len() ==> ws[i].same(&ws[j]),
    ensures
        forecast_sentences(ws, alerts, now) == seq![all_day_sentence(ws[0])],
        forecast_text(ws, alerts, now) == "All day, it will be "@ + sample_phrase(ws[0]) + "."@,
{
    assert(all_same(ws)) by {
        assert forall|i: int| 0 <= i < ws.len() implies #[trigger] ws[i].same(&ws[0]) by {
            assert(ws[i].same(&ws[0]));
        }
    }
    let parts = forecast_sentences(ws, alerts, now);
    assert(parts.len() == 1);
    assert(join(parts, " "@) == parts[0]);
}

/// A single observation without alerts gives one sentence: "It's currently
/// ...". It holds no "And" unless the observation's summary does.
pub proof fn lemma_single_observation(w: Weather, now: LocalTime)
    ensures
        forecast_sentences(seq![w], Seq::empty(), now) == seq![current_sentence(w)],
        forecast_text(seq![w], Seq::empty(), now) == "It's currently "@ + sample_phrase(w) + "."@,
        !occurs_in("And"@, w.summary@) ==> !occurs_in("And"@, current_sentence(w)),
{
    let ws = seq![w];
    let parts = forecast_sentences(ws, Seq::empty(), now);
    assert(parts =~= seq![current_sentence(w)]);
    assert(join(parts, " "@) == parts[0]);
    if !occurs_in("And"@, w.summary@) {
        reveal_strlit("And");
        reveal_strlit("It's currently ");
        reveal_strlit(" below");
        reveal_strlit(" and ");
        reveal_strlit(".");
        let t = w.spoken_temp();
        let below: Seq<char> = if t < 0 {
            " below"@
        } else {
            Seq::empty()
        };
        let digits = decimal(magnitude(t));
        lemma_decimal_digits(magnitude(t));
        assert(avoids(digits, 'A'));
        let a = "It's currently "@ + digits + below + " and "@;
        lemma_avoids_add("It's currently "@, digits, 'A');
        lemma_avoids_add("It's currently "@ + digits, below, 'A');
        lemma_avoids_add("It's currently "@ + digits + below, " and "@, 'A');
        assert(current_sentence(w) =~= a + w.summary@ + "."@);
        if occurs_in("And"@, current_sentence(w)) {
            lemma_occurs_within("And"@, a, w.summary@, "."@);
        }
    }
}

/// Two observations that differ give a last sentence led by "At", not "And
/// at"; without alerts they give exactly two sentences.
pub proof fn lemma_two_observations(ws: Seq<Weather>, alerts: Seq<WeatherAlert>, now: LocalTime)
    requires
        ws.len() == 2,
        !ws[1].same(&ws[0]),
    ensures
        forecast_sentences(ws, alerts, now)[1] == last_sentence("At"@, ws[1]),
        alerts.len() == 0 ==> forecast_sentences(ws, alerts, now) == seq![
            current_sentence(ws[0]),
            last_sentence("At"@, ws[1]),
        ],
{
    assert(!all_same(ws));
    if alerts.len() == 0 {
        assert(forecast_sentences(ws, alerts, now) =~= seq![
            current_sentence(ws[0]),
            last_sentence("At"@, ws[1]),
        ]);
    }
}

/// Three or more observations that are not all the same give a last
/// observation sentence led by "And at"; the ones between are led by "At".
pub proof fn lemma_many_observations(ws: Seq<Weather>, alerts: Seq<WeatherAlert>, now: LocalTime)
    requires
        ws.len() >= 3,
        !all_same(ws),
    ensures
        forecast_sentences(ws, alerts, now)[ws.len() - 1] == last_sentence("And at"@, ws.last()),
        forall|i: int| 0 < i < ws.len() - 1 ==> #[trigger] forecast_sentences(ws, alerts, now)[i]
            == middle_sentence(ws[i]),
{
}

/// With one alert, the alert sentence is "There is a", the event in lower
/// case, and its window.
pub proof fn lemma_one_alert(alerts: Seq<WeatherAlert>, now: LocalTime)
    requires
        alerts.len() == 1,
    ensures
        alerts_summary(alerts, now) == "There is a "@ + lowercase_of(alerts[0].event@) + " "@
            + time_range(alerts[0].start, alerts[0].end, now) + "."@,
{
    let parts = alert_clauses(alerts, spoken_events(alerts), now);
    assert(parts.len() == 1);
    assert(join(parts, ". "@) == parts[0]);
    reveal_strlit("There is a ");
    reveal_strlit("There is a");
    reveal_strlit(" ");
    assert("There is a"@ + " "@ =~= "There is a "@);
    assert(alerts_summary(alerts, now) =~= "There is a "@ + lowercase_of(alerts[0].event@) + " "@
        + time_range(alerts[0].start, alerts[0].end, now) + "."@);
}

/// With three alerts, the first two are described, in order, and the
/// sentence ends with "And 1 more alert.".
pub proof fn lemma_three_alerts(alerts: Seq<WeatherAlert>, now: LocalTime)
    requires
        alerts.len() == 3,
    ensures
        alerts_summary(alerts, now) == alert_clause(
            "There is a"@,
            lowercase_of(alerts[0].event@),
            alerts[0],
            now,
        ) + ". "@ + alert_clause("And a"@, lowercase_of(alerts[1].event@), alerts[1], now) + ". "@
            + "And 1 more alert."@,
{
    let parts = alert_clauses(alerts, spoken_events(alerts), now);
    assert(parts.len() == 3);
    assert(parts.drop_last().drop_last().len() == 1);
    assert(join(parts.drop_last().drop_last(), ". "@) == parts[0]);
    assert(join(parts.drop_last(), ". "@) == parts[0] + ". "@ + parts[1]);
    assert(decimal(1) =~= seq!['1']);
    reveal_strlit("And ");
    reveal_strlit(" more ");
    reveal_strlit("alert");
    reveal_strlit(".");
    reveal_strlit("And 1 more alert.");
    assert(remainder_clause(1) + "."@ =~= "And 1 more alert."@);
    assert(alerts_summary(alerts, now) =~= parts[0] + ". "@ + parts[1] + ". "@ + (
    remainder_clause(1) + "."@));
}

/// An alert that has already begun and ends today is said as "until" its
/// end "today": its start is not mentioned at all.
pub proof fn lemma_alert_in_progress(start: LocalTime, end: LocalTime, now: LocalTime)
    requires
        start.instant() < now.instant(),
        end.date() == now.date(),
    ensures
        time_range(start, end, now) == "until "@ + clock_phrase(end.hour_of_day()) + " "@
            + "today"@,
        forall|other: LocalTime| #[trigger] other.instant() < now.instant() ==> time_range(other, end, now)
            == time_range(start, end, now),
        !occurs_in("from"@, time_range(start, end, now)),
{
    reveal_strlit("from");
    reveal_strlit("until ");
    reveal_strlit(" ");
    reveal_strlit("today");
    lemma_clock_letters(end.hour_of_day());
    let c = clock_phrase(end.hour_of_day());
    lemma_avoids_add("until "@, c, 'f');
    lemma_avoids_add("until "@ + c, " "@, 'f');
    lemma_avoids_add("until "@ + c + " "@, "today"@, 'f');
    lemma_missing_char("from"@, time_range(start, end, now), 0);
}

/// An alert yet to begin that starts and ends on the same date names the day
/// once, after "through": the text before that day holds no day phrase.
pub proof fn lemma_alert_same_day(start: LocalTime, end: LocalTime, now: LocalTime)
    requires
        start.instant() >= now.instant(),
        start.date() == end.date(),
    ensures
        time_range(start, end, now) == "from "@ + clock_phrase(start.hour_of_day()) + " through "@
            + clock_phrase(end.hour_of_day()) + " "@ + day_phrase(now.date(), end.date()),
        forall|day: int|
            !occurs_in(
                #[trigger] day_phrase(now.date(), day),
                "from "@ + clock_phrase(start.hour_of_day()) + " through "@ + clock_phrase(
                    end.hour_of_day(),
                ) + " "@,
            ),
{
    reveal_strlit("from ");
    reveal_strlit(" through ");
    reveal_strlit(" ");
    let cs = clock_phrase(start.hour_of_day());
    let ce = clock_phrase(end.hour_of_day());
    lemma_clock_letters(start.hour_of_day());
    lemma_clock_letters(end.hour_of_day());
    let q = "from "@ + cs + " through "@ + ce + " "@;
    lemma_avoids_add("from "@, cs, 'y');
    lemma_avoids_add("from "@ + cs, " through "@, 'y');
    lemma_avoids_add("from "@ + cs + " through "@, ce, 'y');
    lemma_avoids_add("from "@ + cs + " through "@ + ce, " "@, 'y');
    lemma_avoids_add("from "@, cs, 'w');
    lemma_avoids_add("from "@ + cs, " through "@, 'w');
    lemma_avoids_add("from "@ + cs + " through "@, ce, 'w');
    lemma_avoids_add("from "@ + cs + " through "@ + ce, " "@, 'w');
    assert forall|day: int| !occurs_in(#[trigger] day_phrase(now.date(), day), q) by {
        lemma_day_letters(now.date(), day);
        let p = day_phrase(now.date(), day);
        let j = choose|j: int| 0 <= j < p.len() && (#[trigger] p[j] == 'y' || p[j] == 'w');
        lemma_missing_char(p, q, j);
    }
}

/// An alert yet to begin that spans two dates names a day after each of its
/// two times.
pub proof fn lemma_alert_two_days(start: LocalTime, end: LocalTime, now: LocalTime)
    requires
        start.instant() >= now.instant(),
        start.date() != end.date(),
    ensures
        time_range(start, end, now) == "from "@ + clock_phrase(start.hour_of_day()) + " "@
            + day_phrase(now.date(), start.date()) + " through "@ + clock_phrase(end.hour_of_day())
            + " "@ + day_phrase(now.date(), end.date()),
{
}

} // verus!
