//! Textual forms of a date: the `YYYY-MM-DD` form used to key the remote
//! feed, its parser, and the Italian header line `<weekday> <day> <month>`.

use vstd::prelude::*;
use vstd::string::*;
use crate::date::{
    Date,
    valid_date,
    valid_parts,
    days_in_month,
    weekday_spec,
    weekday_from_sunday,
};

verus! {

/// The decimal digit character for `0 <= v <= 9`.
pub open spec fn digit_char(v: int) -> char {
    if v == 0 {
        '0'
    } else if v == 1 {
        '1'
    } else if v == 2 {
        '2'
    } else if v == 3 {
        '3'
    } else if v == 4 {
        '4'
    } else if v == 5 {
        '5'
    } else if v == 6 {
        '6'
    } else if v == 7 {
        '7'
    } else if v == 8 {
        '8'
    } else {
        '9'
    }
}

pub open spec fn is_digit_char(c: char) -> bool {
    c == '0' || c == '1' || c == '2' || c == '3' || c == '4' || c == '5' || c == '6' || c == '7'
        || c == '8' || c == '9'
}

/// The value of a decimal digit character; meaningful only when
/// `is_digit_char(c)`.
pub open spec fn digit_val(c: char) -> int {
    if c == '0' {
        0int
    } else if c == '1' {
        1int
    } else if c == '2' {
        2int
    } else if c == '3' {
        3int
    } else if c == '4' {
        4int
    } else if c == '5' {
        5int
    } else if c == '6' {
        6int
    } else if c == '7' {
        7int
    } else if c == '8' {
        8int
    } else {
        9int
    }
}

/// The ten characters of `d` written as `YYYY-MM-DD`.
pub open spec fn ymd_seq(d: Date) -> Seq<char> {
    seq![
        digit_char(d.year as int / 1000),
        digit_char((d.year as int / 100) % 10),
        digit_char((d.year as int / 10) % 10),
        digit_char(d.year as int % 10),
        '-',
        digit_char(d.month as int / 10),
        digit_char(d.month as int % 10),
        '-',
        digit_char(d.day as int / 10),
        digit_char(d.day as int % 10),
    ]
}

/// The date that the characters `s` denote in the `YYYY-MM-DD` form, if any:
/// ten characters, digits in the digit positions, `-` in the separator
/// positions, and a valid calendar date once read off.
pub open spec fn parse_ymd_spec(s: Seq<char>) -> Option<Date> {
    if s.len() == 10 && s[4] == '-' && s[7] == '-' && is_digit_char(s[0]) && is_digit_char(s[1])
        && is_digit_char(s[2]) && is_digit_char(s[3]) && is_digit_char(s[5]) && is_digit_char(s[6])
        && is_digit_char(s[8]) && is_digit_char(s[9]) {
        let y = 1000 * digit_val(s[0]) + 100 * digit_val(s[1]) + 10 * digit_val(s[2]) + digit_val(
            s[3],
        );
        let m = 10 * digit_val(s[5]) + digit_val(s[6]);
        let d = 10 * digit_val(s[8]) + digit_val(s[9]);
        if valid_parts(y, m, d) {
            Some(Date { year: y as u16, month: m as u8, day: d as u8 })
        } else {
            None
        }
    } else {
        None
    }
}

fn digit_str(v: u8) -> (r: &'static str)
    requires
        v < 10,
    ensures
        r@ == seq![digit_char(v as int)],
{
    let r: &'static str = match v {
        0 => "0",
        1 => "1",
        2 => "2",
        3 => "3",
        4 => "4",
        5 => "5",
        6 => "6",
        7 => "7",
        8 => "8",
        _ => "9",
    };
    proof {
        reveal_strlit("0");
        reveal_strlit("1");
        reveal_strlit("2");
        reveal_strlit("3");
        reveal_strlit("4");
        reveal_strlit("5");
        reveal_strlit("6");
        reveal_strlit("7");
        reveal_strlit("8");
        reveal_strlit("9");
        assert(r@ =~= seq![digit_char(v as int)]);
    }
    r
}

fn char_digit(c: char) -> (r: Option<u8>)
    ensures
        r matches Some(v) ==> is_digit_char(c) && v < 10 && v as int == digit_val(c),
        r is None ==> !is_digit_char(c),
{
    match c {
        '0' => Some(0),
        '1' => Some(1),
        '2' => Some(2),
        '3' => Some(3),
        '4' => Some(4),
        '5' => Some(5),
        '6' => Some(6),
        '7' => Some(7),
        '8' => Some(8),
        '9' => Some(9),
        _ => None,
    }
}

/// Writes `d` as `YYYY-MM-DD`, the form the remote feed is keyed by.
pub fn format_ymd(d: &Date) -> (r: String)
    requires
        valid_date(*d),
    ensures
        r@ == ymd_seq(*d),
{
    let y = d.year;
    let mut s = String::new();
    s.append(digit_str((y / 1000) as u8));
    s.append(digit_str(((y / 100) % 10) as u8));
    s.append(digit_str(((y / 10) % 10) as u8));
    s.append(digit_str((y % 10) as u8));
    s.append("-");
    s.append(digit_str(d.month / 10));
    s.append(digit_str(d.month % 10));
    s.append("-");
    s.append(digit_str(d.day / 10));
    s.append(digit_str(d.day % 10));
    proof {
        reveal_strlit("-");
        assert(s@ =~= ymd_seq(*d));
    }
    s
}

/// Reads a `YYYY-MM-DD` string back into a date, reporting `None` on any
/// string that no valid date is written as.
pub fn parse_ymd(s: &str) -> (r: Option<Date>)
    ensures
        r == parse_ymd_spec(s@),
{
    if s.unicode_len() != 10 {
        return None;
    }
    if s.get_char(4) != '-' || s.get_char(7) != '-' {
        return None;
    }
    let v0 = match char_digit(s.get_char(0)) {
        Some(v) => v,
        None => {
            return None;
        },
    };
    let v1 = match char_digit(s.get_char(1)) {
        Some(v) => v,
        None => {
            return None;
        },
    };
    let v2 = match char_digit(s.get_char(2)) {
        Some(v) => v,
        None => {
            return None;
        },
    };
    let v3 = match char_digit(s.get_char(3)) {
        Some(v) => v,
        None => {
            return None;
        },
    };
    let v5 = match char_digit(s.get_char(5)) {
        Some(v) => v,
        None => {
            return None;
        },
    };
    let v6 = match char_digit(s.get_char(6)) {
        Some(v) => v,
        None => {
            return None;
        },
    };
    let v8 = match char_digit(s.get_char(8)) {
        Some(v) => v,
        None => {
            return None;
        },
    };
    let v9 = match char_digit(s.get_char(9)) {
        Some(v) => v,
        None => {
            return None;
        },
    };
    let y: u16 = 1000 * v0 as u16 + 100 * v1 as u16 + 10 * v2 as u16 + v3 as u16;
    let m: u8 = 10 * v5 + v6;
    let day: u8 = 10 * v8 + v9;
    if y < 1 || m < 1 || m > 12 || day < 1 {
        return None;
    }
    if day > days_in_month(y, m) {
        return None;
    }
    Some(Date { year: y, month: m, day })
}

/// The Italian name of weekday `w`, numbered from Sunday.
pub open spec fn weekday_name_spec(w: int) -> Seq<char> {
    if w == 0 {
        "domenica"@
    } else if w == 1 {
        "lunedì"@
    } else if w == 2 {
        "martedì"@
    } else if w == 3 {
        "mercoledì"@
    } else if w == 4 {
        "giovedì"@
    } else if w == 5 {
        "venerdì"@
    } else {
        "sabato"@
    }
}

/// The Italian name of month `m`, for `1 <= m <= 12`.
pub open spec fn month_name_spec(m: int) -> Seq<char> {
    if m == 1 {
        "gennaio"@
    } else if m == 2 {
        "febbraio"@
    } else if m == 3 {
        "marzo"@
    } else if m == 4 {
        "aprile"@
    } else if m == 5 {
        "maggio"@
    } else if m == 6 {
        "giugno"@
    } else if m == 7 {
        "luglio"@
    } else if m == 8 {
        "agosto"@
    } else if m == 9 {
        "settembre"@
    } else if m == 10 {
        "ottobre"@
    } else if m == 11 {
        "novembre"@
    } else {
        "dicembre"@
    }
}

/// The day of month written in decimal without padding, for `0 <= n < 100`.
pub open spec fn day_dec_seq(n: int) -> Seq<char> {
    if n < 10 {
        seq![digit_char(n)]
    } else {
        seq![digit_char(n / 10), digit_char(n % 10)]
    }
}

/// The header line for `d`: its weekday name, day of month and month name,
/// separated by single spaces.
pub open spec fn header_text_spec(d: Date) -> Seq<char> {
    weekday_name_spec(weekday_spec(d)) + " "@ + day_dec_seq(d.day as int) + " "@
        + month_name_spec(d.month as int)
}

pub fn weekday_name(w: u8) -> (r: &'static str)
    requires
        w < 7,
    ensures
        r@ == weekday_name_spec(w as int),
{
    match w {
        0 => "domenica",
        1 => "lunedì",
        2 => "martedì",
        3 => "mercoledì",
        4 => "giovedì",
        5 => "venerdì",
        _ => "sabato",
    }
}

pub fn month_name(m: u8) -> (r: &'static str)
    requires
        1 <= m <= 12,
    ensures
        r@ == month_name_spec(m as int),
{
    match m {
        1 => "gennaio",
        2 => "febbraio",
        3 => "marzo",
        4 => "aprile",
        5 => "maggio",
        6 => "giugno",
        7 => "luglio",
        8 => "agosto",
        9 => "settembre",
        10 => "ottobre",
        11 => "novembre",
        _ => "dicembre",
    }
}

fn day_decimal(n: u8) -> (r: String)
    requires
        n < 100,
    ensures
        r@ == day_dec_seq(n as int),
{
    if n < 10 {
        String::from_str(digit_str(n))
    } else {
        let mut s = String::from_str(digit_str(n / 10));
        s.append(digit_str(n % 10));
        proof {
            assert(s@ =~= day_dec_seq(n as int));
        }
        s
    }
}

/// The header line shown above the cards, as the original renders it:
/// for example `venerdì 15 marzo`.
pub fn header_text(d: &Date) -> (r: String)
    requires
        valid_date(*d),
    ensures
        r@ == header_text_spec(*d),
{
    let w = weekday_from_sunday(d);
    let mut s = String::from_str(weekday_name(w));
    s.append(" ");
    let dd = day_decimal(d.day);
    s.append(dd.as_str());
    s.append(" ");
    s.append(month_name(d.month));
    proof {
        assert(s@ =~= header_text_spec(*d));
    }
    s
}

/// The header line for `d` drawn from caller-supplied name tables: `days`
/// holds the seven weekday names counted from Sunday, `months` the twelve
/// month names counted from January.
pub open spec fn header_text_with_spec(d: Date, days: Seq<String>, months: Seq<String>) -> Seq<
    char,
> {
    days[weekday_spec(d)]@ + " "@ + day_dec_seq(d.day as int) + " "@ + months[d.month as int - 1]@
}

/// The header line for `d` under any display locale: the name tables are
/// the caller's, indexed by the weekday counted from Sunday and by the
/// month counted from January.
pub fn header_text_with(d: &Date, days: &Vec<String>, months: &Vec<String>) -> (r: String)
    requires
        valid_date(*d),
        days@.len() == 7,
        months@.len() == 12,
    ensures
        r@ == header_text_with_spec(*d, days@, months@),
{
    let w = weekday_from_sunday(d);
    let mut s = days[w as usize].clone();
    s.append(" ");
    let dd = day_decimal(d.day);
    s.append(dd.as_str());
    s.append(" ");
    s.append(months[(d.month - 1) as usize].as_str());
    proof {
        assert(s@ =~= header_text_with_spec(*d, days@, months@));
    }
    s
}

proof fn lemma_digit_char_val(v: int)
    requires
        0 <= v < 10,
    ensures
        is_digit_char(digit_char(v)),
        digit_val(digit_char(v)) == v,
{
}

proof fn lemma_dec2(v: int)
    requires
        0 <= v < 100,
    ensures
        10 * (v / 10) + v % 10 == v,
        0 <= v / 10 < 10,
        0 <= v % 10 < 10,
{
    vstd::arithmetic::div_mod::lemma_fundamental_div_mod(v, 10);
}

proof fn lemma_dec4(v: int)
    requires
        0 <= v < 10000,
    ensures
        1000 * (v / 1000) + 100 * ((v / 100) % 10) + 10 * ((v / 10) % 10) + v % 10 == v,
        0 <= v / 1000 < 10,
        0 <= (v / 100) % 10 < 10,
        0 <= (v / 10) % 10 < 10,
        0 <= v % 10 < 10,
{
    vstd::arithmetic::div_mod::lemma_fundamental_div_mod(v, 10);
    vstd::arithmetic::div_mod::lemma_fundamental_div_mod(v / 10, 10);
    vstd::arithmetic::div_mod::lemma_fundamental_div_mod(v / 100, 10);
    assert((v / 10) / 10 == v / 100) by {
        vstd::arithmetic::div_mod::lemma_div_denominator(v, 10, 10);
    };
    assert((v / 100) / 10 == v / 1000) by {
        vstd::arithmetic::div_mod::lemma_div_denominator(v, 100, 10);
    };
}

/// Writing a valid date as `YYYY-MM-DD` and reading the string back yields
/// the same date.
pub proof fn lemma_format_parse_roundtrip(d: Date)
    requires
        valid_date(d),
    ensures
        parse_ymd_spec(ymd_seq(d)) == Some(d),
{
    let s = ymd_seq(d);
    lemma_dec4(d.year as int);
    lemma_dec2(d.month as int);
    lemma_dec2(d.day as int);
    lemma_digit_char_val(d.year as int / 1000);
    lemma_digit_char_val((d.year as int / 100) % 10);
    lemma_digit_char_val((d.year as int / 10) % 10);
    lemma_digit_char_val(d.year as int % 10);
    lemma_digit_char_val(d.month as int / 10);
    lemma_digit_char_val(d.month as int % 10);
    lemma_digit_char_val(d.day as int / 10);
    lemma_digit_char_val(d.day as int % 10);
    assert(1000 * digit_val(s[0]) + 100 * digit_val(s[1]) + 10 * digit_val(s[2]) + digit_val(s[3])
        == d.year as int);
    assert(10 * digit_val(s[5]) + digit_val(s[6]) == d.month as int);
    assert(10 * digit_val(s[8]) + digit_val(s[9]) == d.day as int);
}

} // verus!
