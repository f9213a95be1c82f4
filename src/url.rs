//! The provider's download URL for an instrument, a time range, a sampling
//! interval and the adjusted-close flag.
use crate::calendar::CalendarDate;
use vstd::prelude::*;

verus! {

/// The decimal digit for `d`, which is below ten.
pub open spec fn digit_char(d: nat) -> char {
    seq!['0', '1', '2', '3', '4', '5', '6', '7', '8', '9'][d as int]
}

/// Decimal digits of `n`, most significant first, without leading zeros.
pub open spec fn decimal_text(n: nat) -> Seq<char>
    decreases n,
{
    if n < 10 {
        seq![digit_char(n)]
    } else {
        decimal_text(n / 10).push(digit_char(n % 10))
    }
}

/// Decimal text of an integer, with a leading `-` when it is negative.
pub open spec fn int_text(n: int) -> Seq<char> {
    if n < 0 {
        seq!['-'] + decimal_text((-n) as nat)
    } else {
        decimal_text(n as nat)
    }
}

/// How the adjusted-close flag reads in a URL.
pub open spec fn flag_text(flag: bool) -> Seq<char> {
    if flag {
        seq!['t', 'r', 'u', 'e']
    } else {
        seq!['f', 'a', 'l', 's', 'e']
    }
}

/// The download URL, with the two period bounds already written out.
pub open spec fn url_text(
    symbol: Seq<char>,
    period1: Seq<char>,
    period2: Seq<char>,
    interval: Seq<char>,
    include_adjusted_close: bool,
) -> Seq<char> {
    "https://query1.finance.yahoo.com/v7/finance/download/"@ + symbol + "?period1="@ + period1
        + "&period2="@ + period2 + "&interval="@ + interval
        + "&events=history&includeAdjustedClose="@ + flag_text(include_adjusted_close)
}

/// The download URL for `symbol` between the timestamps `period1` and `period2`.
pub open spec fn yahoo_url(
    symbol: Seq<char>,
    period1: int,
    period2: int,
    interval: Seq<char>,
    include_adjusted_close: bool,
) -> Seq<char> {
    url_text(symbol, int_text(period1), int_text(period2), interval, include_adjusted_close)
}

fn digit_str(d: u64) -> (r: &'static str)
    requires
        d < 10,
    ensures
        r@ == seq![digit_char(d as nat)],
{
    proof {
        reveal_strlit("0");
        reveal_strlit("1");
        reveal_strlit("2");
        reveal_strlit("3");
        reveal_strlit("4");
        reveal_strlit("5");
        reveal_strlit("6");
        reveal_strlit("7");
        reveal_strlit("8");
        reveal_strlit("9");
    }
    match d {
        0 => "0",
        1 => "1",
        2 => "2",
        3 => "3",
        4 => "4",
        5 => "5",
        6 => "6",
        7 => "7",
        8 => "8",
        _ => "9",
    }
}

fn append_decimal(s: &mut String, n: u64)
    ensures
        final(s)@ == old(s)@ + decimal_text(n as nat),
    decreases n,
{
    if n >= 10 {
        append_decimal(s, n / 10);
    }
    s.append(digit_str(n % 10));
    assert(final(s)@ =~= old(s)@ + decimal_text(n as nat));
}

fn append_int(s: &mut String, n: i64)
    ensures
        final(s)@ == old(s)@ + int_text(n as int),
{
    if n < 0 {
        proof {
            reveal_strlit("-");
        }
        s.append("-");
        let magnitude: u64 = (-(n + 1)) as u64 + 1;
        append_decimal(s, magnitude);
        assert(final(s)@ =~= old(s)@ + int_text(n as int));
    } else {
        append_decimal(s, n as u64);
    }
}

fn flag_str(flag: bool) -> (r: &'static str)
    ensures
        r@ == flag_text(flag),
{
    proof {
        reveal_strlit("true");
        reveal_strlit("false");
    }
    if flag {
        "true"
    } else {
        "false"
    }
}

fn assemble_url(
    symbol: &str,
    period1: &String,
    period2: &String,
    interval: &str,
    include_adjusted_close: bool,
) -> (r: String)
    ensures
        r@ == url_text(symbol@, period1@, period2@, interval@, include_adjusted_close),
{
    let mut url = String::new();
    url.append("https://query1.finance.yahoo.com/v7/finance/download/");
    url.append(symbol);
    url.append("?period1=");
    url.append(period1.as_str());
    url.append("&period2=");
    url.append(period2.as_str());
    url.append("&interval=");
    url.append(interval);
    url.append("&events=history&includeAdjustedClose=");
    url.append(flag_str(include_adjusted_close));
    url
}

/// The download URL for `symbol` between the Unix timestamps `period1` and
/// `period2`, taken as they are: their order is not checked, and `symbol` and
/// `interval` are not escaped.
pub fn build_yahoo_finance_url(
    symbol: &str,
    period1: u64,
    period2: u64,
    interval: &str,
    include_adjusted_close: bool,
) -> (r: String)
    ensures
        r@ == yahoo_url(symbol@, period1 as int, period2 as int, interval@, include_adjusted_close),
{
    let mut text1 = String::new();
    append_decimal(&mut text1, period1);
    let mut text2 = String::new();
    append_decimal(&mut text2, period2);
    assert(text1@ =~= int_text(period1 as int));
    assert(text2@ =~= int_text(period2 as int));
    assemble_url(symbol, &text1, &text2, interval, include_adjusted_close)
}

/// The download URL for `symbol` from midnight UTC of `date1` to midnight UTC of
/// `date2`. A day before 1970 gives a negative timestamp, written with its sign.
pub fn build_yahoo_finance_url_from_dates(
    symbol: &str,
    date1: CalendarDate,
    date2: CalendarDate,
    interval: &str,
    include_adjusted_close: bool,
) -> (r: String)
    ensures
        r@ == yahoo_url(
            symbol@,
            date1.timestamp_spec(),
            date2.timestamp_spec(),
            interval@,
            include_adjusted_close,
        ),
{
    let mut text1 = String::new();
    append_int(&mut text1, date1.timestamp());
    let mut text2 = String::new();
    append_int(&mut text2, date2.timestamp());
    assert(text1@ =~= int_text(date1.timestamp_spec()));
    assert(text2@ =~= int_text(date2.timestamp_spec()));
    assemble_url(symbol, &text1, &text2, interval, include_adjusted_close)
}

/// Where `period1` and `period2` are the midnight UTC timestamps of `date1` and
/// `date2`, the date-based URL and the timestamp-based URL are the same text.
pub proof fn lemma_dates_match_timestamps(
    symbol: Seq<char>,
    date1: CalendarDate,
    date2: CalendarDate,
    period1: u64,
    period2: u64,
    interval: Seq<char>,
    include_adjusted_close: bool,
)
    requires
        period1 as int == date1.timestamp_spec(),
        period2 as int == date2.timestamp_spec(),
    ensures
        yahoo_url(
            symbol,
            date1.timestamp_spec(),
            date2.timestamp_spec(),
            interval,
            include_adjusted_close,
        ) == yahoo_url(symbol, period1 as int, period2 as int, interval, include_adjusted_close),
{
}

/// The URL ends with the adjusted-close flag, written `true` or `false`.
pub proof fn lemma_flag_rendering(
    symbol: Seq<char>,
    period1: int,
    period2: int,
    interval: Seq<char>,
    include_adjusted_close: bool,
)
    ensures
        ({
            let url = yahoo_url(symbol, period1, period2, interval, include_adjusted_close);
            let flag = if include_adjusted_close { "true"@ } else { "false"@ };
            url.len() >= flag.len() && url.subrange(url.len() - flag.len(), url.len() as int)
                == flag
        }),
{
    reveal_strlit("true");
    reveal_strlit("false");
    let url = yahoo_url(symbol, period1, period2, interval, include_adjusted_close);
    let flag = flag_text(include_adjusted_close);
    assert(url.subrange(url.len() - flag.len(), url.len() as int) =~= flag);
}

} // verus!
