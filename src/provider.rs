//! What the library knows of the weather services: which ones there are,
//! the key that unlocks them, how their condition names are evened out, and
//! how a cached response is named.
use vstd::prelude::*;
use vstd::utf8::encode_utf8;

use crate::text::push_char;

verus! {

/// What `char::is_whitespace` says of a character (Unicode `White_Space`).
pub uninterp spec fn whitespace(c: char) -> bool;

/// What `char::is_alphanumeric` says of a character (Unicode `Alphabetic`
/// or `Numeric`).
pub uninterp spec fn alphanumeric(c: char) -> bool;

/// Whether `c` is whitespace: among ASCII characters the space and `'\t'`
/// through `'\r'`; beyond ASCII, what `char::is_whitespace` says.
pub open spec fn is_space(c: char) -> bool {
    if (c as u32) < 128 {
        c == ' ' || ('\t' <= c && c <= '\r')
    } else {
        whitespace(c)
    }
}

/// Whether `c` is a letter or a digit: among ASCII characters the Latin
/// letters and the digits; beyond ASCII, what `char::is_alphanumeric` says.
pub open spec fn is_letter_or_digit(c: char) -> bool {
    if (c as u32) < 128 {
        ('a' <= c && c <= 'z') || ('A' <= c && c <= 'Z') || ('0' <= c && c <= '9')
    } else {
        alphanumeric(c)
    }
}

/// Relies on `char::is_whitespace`: its result depends on the character
/// alone, and among ASCII characters it holds of the space and of `'\t'`
/// through `'\r'` only.
#[verifier::external_body]
fn is_whitespace(c: char) -> (r: bool)
    ensures
        r == is_space(c),
        (c as u32) >= 128 ==> r == whitespace(c),
{
    c.is_whitespace()
}

/// Relies on `char::is_alphanumeric`: its result depends on the character
/// alone, and among ASCII characters it holds of letters and digits only.
#[verifier::external_body]
fn is_alphanumeric(c: char) -> (r: bool)
    ensures
        r == is_letter_or_digit(c),
        (c as u32) >= 128 ==> r == alphanumeric(c),
{
    c.is_alphanumeric()
}

/// A character with ASCII capitals turned into small letters.
pub open spec fn ascii_lower(c: char) -> char {
    if 'A' <= c && c <= 'Z' {
        ((c as u8) + 32) as u8 as char
    } else {
        c
    }
}

/// Whether two texts are equal once ASCII capitals are made small.
pub open spec fn ascii_case_insensitive_eq(a: Seq<char>, b: Seq<char>) -> bool {
    a.len() == b.len() && forall|i: int| 0 <= i < a.len() ==> ascii_lower(a[i]) == ascii_lower(b[i])
}

/// Relies on `str::eq_ignore_ascii_case`: equality after mapping ASCII
/// capitals to small letters.
#[verifier::external_body]
fn eq_ignore_ascii_case(a: &str, b: &str) -> (r: bool)
    ensures
        r == ascii_case_insensitive_eq(a@, b@),
{
    a.eq_ignore_ascii_case(b)
}

/// `s` with every match of `from`, left to right and without overlap,
/// replaced by `to`.
pub open spec fn replace_all(s: Seq<char>, from: Seq<char>, to: Seq<char>) -> Seq<char>
    decreases s.len(),
{
    if s.len() == 0 {
        s
    } else if 0 < from.len() <= s.len() && s.take(from.len() as int) == from {
        to + replace_all(s.skip(from.len() as int), from, to)
    } else {
        seq![s[0]] + replace_all(s.skip(1), from, to)
    }
}

/// Relies on `str::replace`: every non-overlapping match of `from`, found
/// from the left, is replaced by `to`.
#[verifier::external_body]
fn replace(s: &str, from: &str, to: &str) -> (r: String)
    requires
        from@.len() > 0,
    ensures
        r@ == replace_all(s@, from@, to@),
{
    s.replace(from, to)
}

/// Why a text cannot serve as an API key.
#[derive(Clone, Copy, Debug, PartialEq, Eq, Structural)]
pub enum ApiKeyError {
    /// Nothing but whitespace.
    Empty,
    /// Fewer than eight bytes.
    TooShort,
}

/// The fewest bytes an API key may have.
pub const MIN_KEY_BYTES: usize = 8;

/// Whether every character of `s` is whitespace.
pub open spec fn blank(s: Seq<char>) -> bool {
    forall|i: int| 0 <= i < s.len() ==> is_space(#[trigger] s[i])
}

/// The length in bytes of the UTF-8 encoding of `s`, as `str::len` gives it.
pub open spec fn byte_len(s: Seq<char>) -> usize {
    encode_utf8(s).len() as usize
}

/// A key for a weather service, checked to be plausible.
#[derive(Clone)]
pub struct ApiKey(String);

impl ApiKey {
    /// The text of the key.
    pub closed spec fn text(&self) -> Seq<char> {
        self.0@
    }

    /// Accepts `key` unless it is blank or shorter than eight bytes.
    pub fn new(key: String) -> (r: Result<ApiKey, ApiKeyError>)
        ensures
            blank(key@) <==> r == Err::<ApiKey, ApiKeyError>(ApiKeyError::Empty),
            !blank(key@) && byte_len(key@) < MIN_KEY_BYTES <==> r == Err::<
                ApiKey,
                ApiKeyError,
            >(ApiKeyError::TooShort),
            r is Ok ==> r->Ok_0.text() == key@,
    {
        let n = key.as_str().unicode_len();
        let mut i: usize = 0;
        let mut all_space = true;
        while i < n
            invariant
                n == key@.len(),
                i <= n,
                all_space == forall|j: int| 0 <= j < i ==> is_space(#[trigger] key@[j]),
            decreases n - i,
        {
            let c = key.as_str().get_char(i);
            if !is_whitespace(c) {
                all_space = false;
            }
            i = i + 1;
        }
        if all_space {
            return Err(ApiKeyError::Empty);
        }
        if key.as_str().len() < MIN_KEY_BYTES {
            return Err(ApiKeyError::TooShort);
        }
        Ok(ApiKey(key))
    }

    /// The key's text, for use in requests.
    pub fn as_str(&self) -> (r: &str)
        ensures
            r@ == self.text(),
    {
        self.0.as_str()
    }
}

/// The weather services the library can speak for.
#[derive(Clone, Copy, Debug, PartialEq, Eq, Structural)]
pub enum WeatherProvider {
    AccuWeather,
    OpenWeather,
}

/// The identifier of a weather service.
pub open spec fn provider_id(p: WeatherProvider) -> Seq<char> {
    match p {
        WeatherProvider::AccuWeather => "accuweather"@,
        WeatherProvider::OpenWeather => "openweather"@,
    }
}

/// A name that no weather service answers to.
#[derive(Clone, Copy, Debug, PartialEq, Eq, Structural)]
pub struct UnknownProvider;

impl WeatherProvider {
    /// The service's identifier: "accuweather" or "openweather".
    pub fn id(&self) -> (r: &'static str)
        ensures
            r@ == provider_id(*self),
    {
        match self {
            WeatherProvider::AccuWeather => "accuweather",
            WeatherProvider::OpenWeather => "openweather",
        }
    }

    /// The service whose identifier is `s`, ignoring ASCII case.
    pub fn from_name(s: &str) -> (r: Result<WeatherProvider, UnknownProvider>)
        ensures
            ascii_case_insensitive_eq(provider_id(WeatherProvider::AccuWeather), s@) ==> r
                == Ok::<WeatherProvider, UnknownProvider>(WeatherProvider::AccuWeather),
            !ascii_case_insensitive_eq(provider_id(WeatherProvider::AccuWeather), s@)
                && ascii_case_insensitive_eq(provider_id(WeatherProvider::OpenWeather), s@) ==> r
                == Ok::<WeatherProvider, UnknownProvider>(WeatherProvider::OpenWeather),
            !ascii_case_insensitive_eq(provider_id(WeatherProvider::AccuWeather), s@)
                && !ascii_case_insensitive_eq(provider_id(WeatherProvider::OpenWeather), s@) ==> r
                == Err::<WeatherProvider, UnknownProvider>(UnknownProvider),
    {
        if eq_ignore_ascii_case(WeatherProvider::AccuWeather.id(), s) {
            Ok(WeatherProvider::AccuWeather)
        } else if eq_ignore_ascii_case(WeatherProvider::OpenWeather.id(), s) {
            Ok(WeatherProvider::OpenWeather)
        } else {
            Err(UnknownProvider)
        }
    }
}

impl std::str::FromStr for WeatherProvider {
    type Err = UnknownProvider;

    fn from_str(s: &str) -> Result<WeatherProvider, UnknownProvider> {
        WeatherProvider::from_name(s)
    }
}

/// The character that stands for `c` in a file name: separators and other
/// troublesome marks become `_`, a dot `d`, a minus sign `n`; letters and
/// digits stay.
pub open spec fn file_char(c: char) -> char {
    if c == '/' || c == '\\' || c == ':' || c == '*' || c == '?' || c == '"' || c == '<' || c
        == '>' || c == '|' {
        '_'
    } else if c == '.' {
        'd'
    } else if c == '-' {
        'n'
    } else if is_letter_or_digit(c) {
        c
    } else {
        '_'
    }
}

/// `input` made safe to stand in a file name, character by character.
pub open spec fn sanitized(input: Seq<char>) -> Seq<char> {
    input.map_values(|c: char| file_char(c))
}

/// Makes `input` safe to stand in a file name (see `file_char`).
pub fn sanitize_filename(input: &str) -> (r: String)
    ensures
        r@ == sanitized(input@),
{
    let n = input.unicode_len();
    let mut out = String::new();
    let mut i: usize = 0;
    while i < n
        invariant
            n == input@.len(),
            i <= n,
            out@ =~= sanitized(input@.take(i as int)),
        decreases n - i,
    {
        let c = input.get_char(i);
        let mapped = if c == '/' || c == '\\' || c == ':' || c == '*' || c == '?' || c == '"' || c
            == '<' || c == '>' || c == '|' {
            '_'
        } else if c == '.' {
            'd'
        } else if c == '-' {
            'n'
        } else if is_alphanumeric(c) {
            c
        } else {
            '_'
        };
        push_char(&mut out, mapped);
        assert(input@.take(i + 1) =~= input@.take(i as int).push(c));
        i = i + 1;
    }
    assert(input@.take(n as int) =~= input@);
    out
}

/// The name of the file that caches a response of `provider` on the day
/// written `date`, for the request identified by `token`.
pub open spec fn cache_name(provider: WeatherProvider, date: Seq<char>, token: Seq<char>) -> Seq<char> {
    provider_id(provider) + "-"@ + date + "-"@ + sanitized(token) + ".json"@
}

/// The name of the file that caches a response of `provider` on the day
/// written `date` (as "20240131"), for the request identified by `token`.
pub fn cache_file_name(provider: &WeatherProvider, date: &str, token: &str) -> (r: String)
    ensures
        r@ == cache_name(*provider, date@, token@),
{
    let mut s = String::from_str(provider.id());
    s.append("-");
    s.append(date);
    s.append("-");
    let clean = sanitize_filename(token);
    s.append(clean.as_str());
    s.append(".json");
    assert(s@ =~= cache_name(*provider, date@, token@));
    s
}

/// How an AccuWeather condition is said: "w/" spelled out as "with", and
/// "t-storms" as "thunderstorms".
pub open spec fn accu_weather_summary(weather: Seq<char>) -> Seq<char> {
    replace_all(replace_all(weather, "w/"@, "with"@), "t-storms"@, "thunderstorms"@)
}

/// Spells out the abbreviations of an AccuWeather condition.
pub fn normalize_weather(weather: &str) -> (r: String)
    ensures
        r@ == accu_weather_summary(weather@),
{
    proof {
        reveal_strlit("w/");
        reveal_strlit("t-storms");
    }
    let first = replace(weather, "w/", "with");
    replace(first.as_str(), "t-storms", "thunderstorms")
}

/// How an OpenWeather condition group is said: "Clouds" (in any ASCII case)
/// becomes "Cloudy"; anything else is kept.
pub open spec fn open_weather_summary(main: Seq<char>) -> Seq<char> {
    if ascii_case_insensitive_eq(main, "Clouds"@) {
        "Cloudy"@
    } else {
        main
    }
}

/// Evens out an OpenWeather condition group.
pub fn normalize_open_weather(main: &str) -> (r: String)
    ensures
        r@ == open_weather_summary(main@),
{
    if eq_ignore_ascii_case(main, "Clouds") {
        String::from_str("Cloudy")
    } else {
        String::from_str(main)
    }
}

/// How a Dark Sky summary is said: "drizzle" (in any ASCII case) becomes
/// "Drizzling"; anything else is kept.
pub open spec fn dark_sky_summary(summary: Seq<char>) -> Seq<char> {
    if ascii_case_insensitive_eq("drizzle"@, summary) {
        "Drizzling"@
    } else {
        summary
    }
}

/// Evens out a Dark Sky summary.
pub fn normalize_dark_sky(summary: &str) -> (r: String)
    ensures
        r@ == dark_sky_summary(summary@),
{
    if eq_ignore_ascii_case("drizzle", summary) {
        String::from_str("Drizzling")
    } else {
        String::from_str(summary)
    }
}

} // verus!
