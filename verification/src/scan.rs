//! Reading the names of the migration files that exist, to find the last
//! sequence index used today.

use crate::date::Date;
use crate::digits::{decimal_value, digit_of, is_digit, lemma_decimal_value_bound, pow10};
use crate::error::MigrationError;
use vstd::prelude::*;

verus! {

/// What the name of a migration file says of it: its day and its sequence
/// index within that day.
#[derive(Clone, Copy, Debug, PartialEq, Eq, Structural)]
pub struct Entry {
    pub date: Date,
    pub index: i32,
}

/// The characters of `name` from `from` up to `to` are all digits.
pub open spec fn digits_at(name: Seq<char>, from: int, to: int) -> bool {
    forall|i: int| from <= i < to ==> is_digit(#[trigger] name[i])
}

/// The number written in `name` from `from` up to `to`.
pub open spec fn number_at(name: Seq<char>, from: int, to: int) -> int {
    decimal_value(name.subrange(from, to))
}

/// The day that the first eight characters of `name` give as `YYYYMMDD`.
pub open spec fn stamped_date(name: Seq<char>) -> Date {
    Date {
        year: number_at(name, 0, 4) as u32,
        month: number_at(name, 4, 6) as u32,
        day: number_at(name, 6, 8) as u32,
    }
}

/// What a file name says. A name counts where it starts with ten digits, of
/// which the first eight are a day of the calendar; the next two are the
/// index, and what follows them is free.
pub open spec fn entry_of(name: Seq<char>) -> Option<Entry> {
    if name.len() >= 10 && digits_at(name, 0, 10) && stamped_date(name).is_valid() {
        Some(Entry { date: stamped_date(name), index: number_at(name, 8, 10) as i32 })
    } else {
        None
    }
}

/// An entry's index is of two digits, and its date is valid.
pub proof fn lemma_entry_bounds(name: Seq<char>)
    ensures
        entry_of(name) matches Some(entry) ==> 0 <= entry.index <= 99 && entry.date.is_valid(),
{
    if entry_of(name) is Some {
        lemma_decimal_value_bound(name.subrange(8, 10));
        reveal_with_fuel(pow10, 3);
    }
}

/// Reads the number written in `name` from `from` up to `to`, where those
/// characters are all digits.
fn read_number(name: &str, from: usize, to: usize) -> (r: Option<u32>)
    requires
        from <= to <= name@.len(),
        to - from <= 4,
    ensures
        r is Some <==> digits_at(name@, from as int, to as int),
        r matches Some(v) ==> v == number_at(name@, from as int, to as int) && v < pow10(
            (to - from) as nat,
        ),
{
    let mut value: u32 = 0;
    let mut i: usize = from;
    while i < to
        invariant
            from <= i <= to <= name@.len(),
            to - from <= 4,
            digits_at(name@, from as int, i as int),
            value == number_at(name@, from as int, i as int),
            value < pow10((i - from) as nat),
        decreases to - i,
    {
        let c = name.get_char(i);
        match digit_of(c) {
            None => {
                return None;
            },
            Some(d) => {
                proof {
                    let before = name@.subrange(from as int, i as int);
                    let upto = name@.subrange(from as int, i + 1);
                    assert(upto.drop_last() =~= before);
                    reveal_with_fuel(pow10, 5);
                }
                value = value * 10 + d;
                i = i + 1;
            },
        }
    }
    Some(value)
}

/// Reads what a file name says of its day and index.
pub fn parse_entry(name: &str) -> (r: Option<Entry>)
    ensures
        r == entry_of(name@),
{
    let len = name.unicode_len();
    if len < 10 {
        return None;
    }
    let year = read_number(name, 0, 4);
    let month = read_number(name, 4, 6);
    let day = read_number(name, 6, 8);
    let index = read_number(name, 8, 10);
    proof {
        reveal_with_fuel(pow10, 5);
    }
    match (year, month, day, index) {
        (Some(year), Some(month), Some(day), Some(index)) => {
            match Date::new(year, month, day) {
                Some(date) => Some(Entry { date, index: index as i32 }),
                None => None,
            }
        },
        _ => None,
    }
}

/// Some file among `names` is of the day `date`.
pub open spec fn has_file_of(names: Seq<Seq<char>>, date: Date) -> bool {
    exists|i: int|
        0 <= i < names.len() && (#[trigger] entry_of(names[i]) matches Some(e) && e.date == date)
}

/// No file among `names` is of a later day than `date`.
pub open spec fn no_file_after(names: Seq<Seq<char>>, date: Date) -> bool {
    forall|i: int|
        0 <= i < names.len() ==> (#[trigger] entry_of(names[i]) matches Some(e)
            ==> !date.is_before(e.date))
}

/// `date` is the latest day of which there is a file among `names`.
pub open spec fn is_latest_day(names: Seq<Seq<char>>, date: Date) -> bool {
    has_file_of(names, date) && no_file_after(names, date)
}

/// `index` is the largest index among the files of the day `date`, of which
/// there is one at least.
pub open spec fn is_last_index(names: Seq<Seq<char>>, date: Date, index: i32) -> bool {
    &&& exists|i: int|
        0 <= i < names.len() && #[trigger] entry_of(names[i]) == Some(Entry { date, index })
    &&& forall|i: int|
        0 <= i < names.len() ==> (#[trigger] entry_of(names[i]) matches Some(e) ==> (e.date
            == date ==> e.index <= index))
}

/// `a` comes before `b`: it is of an earlier day, or of the same day with a
/// smaller index.
pub open spec fn precedes(a: Entry, b: Entry) -> bool {
    a.date.is_before(b.date) || (a.date == b.date && a.index < b.index)
}

/// Decides `precedes`.
pub fn comes_before(a: &Entry, b: &Entry) -> (r: bool)
    ensures
        r == precedes(*a, *b),
{
    a.date.before(&b.date) || (a.date == b.date && a.index < b.index)
}

/// Finds among the names of the existing files the entry of the latest day,
/// and on that day the one of the largest index. There is none exactly
/// where no name counts.
pub fn latest_entry(file_names: &Vec<String>) -> (latest: Option<Entry>)
    ensures
        match latest {
            Some(entry) => {
                &&& is_latest_day(file_names.deep_view(), entry.date)
                &&& is_last_index(file_names.deep_view(), entry.date, entry.index)
            },
            None => forall|i: int|
                0 <= i < file_names.len() ==> #[trigger] entry_of(file_names.deep_view()[i])
                    is None,
        },
{
    let ghost names = file_names.deep_view();
    let mut latest: Option<Entry> = None;
    let mut i: usize = 0;
    while i < file_names.len()
        invariant
            i <= file_names.len(),
            names == file_names.deep_view(),
            match latest {
                Some(entry) => {
                    &&& exists|j: int| 0 <= j < i && #[trigger] entry_of(names[j]) == Some(entry)
                    &&& forall|j: int|
                        0 <= j < i ==> (#[trigger] entry_of(names[j]) matches Some(e)
                            ==> !precedes(entry, e))
                },
                None => forall|j: int| 0 <= j < i ==> #[trigger] entry_of(names[j]) is None,
            },
        decreases file_names.len() - i,
    {
        let found = parse_entry(file_names[i].as_str());
        assert(names[i as int] == file_names[i as int]@);
        match found {
            Some(entry) => {
                let newer = match &latest {
                    Some(held) => comes_before(held, &entry),
                    None => true,
                };
                if newer {
                    latest = Some(entry);
                }
            },
            None => {},
        }
        i = i + 1;
    }
    proof {
        if let Some(entry) = latest {
            let at = choose|j: int| 0 <= j < i && #[trigger] entry_of(names[j]) == Some(entry);
        }
    }
    latest
}

/// The latest day of which there is a file among `names`, where any name
/// counts.
pub open spec fn latest_day(names: Seq<Seq<char>>) -> Date {
    choose|date: Date| is_latest_day(names, date)
}

/// The largest index among the files of the day `date`, where there is one.
pub open spec fn last_index(names: Seq<Seq<char>>, date: Date) -> i32 {
    choose|index: i32| is_last_index(names, date, index)
}

/// What the scan of the files `names` comes to on the day `today`: a failure
/// where a file is of a later day, which names the latest day; else the
/// largest index among the files of `today`, or nothing where there is no
/// file of `today`.
pub open spec fn last_index_for_day(names: Seq<Seq<char>>, today: Date) -> Result<
    Option<i32>,
    MigrationError,
> {
    if !no_file_after(names, today) {
        Err(MigrationError::FutureDateDetected(latest_day(names)))
    } else if has_file_of(names, today) {
        Ok(Some(last_index(names, today)))
    } else {
        Ok(None)
    }
}

/// There is one latest day at most.
pub proof fn lemma_latest_day_is_unique(names: Seq<Seq<char>>, a: Date, b: Date)
    requires
        is_latest_day(names, a),
        is_latest_day(names, b),
    ensures
        a == b,
{
}

/// A day has one largest index at most.
pub proof fn lemma_last_index_is_unique(names: Seq<Seq<char>>, date: Date, a: i32, b: i32)
    requires
        is_last_index(names, date, a),
        is_last_index(names, date, b),
    ensures
        a == b,
{
}

/// Where any name counts, one of the days is the latest.
pub proof fn lemma_latest_day_exists(names: Seq<Seq<char>>)
    requires
        exists|i: int| 0 <= i < names.len() && #[trigger] entry_of(names[i]) is Some,
    ensures
        is_latest_day(names, latest_day(names)),
    decreases names.len(),
{
    let rest = names.drop_last();
    let added = entry_of(names.last());
    let day = if exists|i: int| 0 <= i < rest.len() && #[trigger] entry_of(rest[i]) is Some {
        lemma_latest_day_exists(rest);
        let held = latest_day(rest);
        if added matches Some(e) && held.is_before(e.date) {
            added->0.date
        } else {
            held
        }
    } else {
        added->0.date
    };
    assert(is_latest_day(names, day)) by {
        lemma_drop_last_keeps_entries(names);
    }
}

/// A day of which there is a file has a largest index.
pub proof fn lemma_last_index_exists(names: Seq<Seq<char>>, date: Date)
    requires
        has_file_of(names, date),
    ensures
        is_last_index(names, date, last_index(names, date)),
    decreases names.len(),
{
    let rest = names.drop_last();
    let added = entry_of(names.last());
    let index = if has_file_of(rest, date) {
        lemma_last_index_exists(rest, date);
        let held = last_index(rest, date);
        if added matches Some(e) && e.date == date && held < e.index {
            added->0.index
        } else {
            held
        }
    } else {
        added->0.index
    };
    assert(is_last_index(names, date, index)) by {
        lemma_drop_last_keeps_entries(names);
    }
}

/// The names before the last say the same in the whole list as in the list
/// without the last.
proof fn lemma_drop_last_keeps_entries(names: Seq<Seq<char>>)
    requires
        names.len() > 0,
    ensures
        forall|i: int|
            0 <= i < names.len() - 1 ==> #[trigger] entry_of(names[i]) == entry_of(
                names.drop_last()[i],
            ),
        forall|i: int|
            0 <= i < names.len() - 1 ==> #[trigger] entry_of(names.drop_last()[i]) == entry_of(
                names[i],
            ),
        entry_of(names[names.len() - 1]) == entry_of(names.last()),
{
}

/// The last index used on a day is of two digits.
pub proof fn lemma_last_index_is_small(names: Seq<Seq<char>>, today: Date)
    ensures
        last_index_for_day(names, today) matches Ok(Some(index)) ==> 0 <= index <= 99,
{
    if last_index_for_day(names, today) matches Ok(Some(_)) {
        lemma_last_index_exists(names, today);
        let index = last_index(names, today);
        let i = choose|i: int|
            0 <= i < names.len() && #[trigger] entry_of(names[i]) == Some(
                Entry { date: today, index },
            );
        lemma_entry_bounds(names[i]);
    }
}

/// Scans the names of the existing migration files for the last index used
/// on `today`.
///
/// Fails exactly where a file is dated after `today`, and names the latest
/// day of any file. Else returns the largest index among the files of
/// `today`, or nothing where there is no file of `today`.
pub fn find_last_file_for_current_day(file_names: &Vec<String>, today: Date) -> (r: Result<
    Option<i32>,
    MigrationError,
>)
    ensures
        r == last_index_for_day(file_names.deep_view(), today),
{
    let ghost names = file_names.deep_view();
    let latest = latest_entry(file_names);
    match latest {
        Some(entry) => {
            proof {
                lemma_latest_day_is_unique(names, entry.date, latest_day(names));
                if entry.date == today {
                    lemma_last_index_is_unique(
                        names,
                        today,
                        entry.index,
                        last_index(names, today),
                    );
                }
            }
            if today.before(&entry.date) {
                Err(MigrationError::FutureDateDetected(entry.date))
            } else if entry.date == today {
                Ok(Some(entry.index))
            } else {
                Ok(None)
            }
        },
        None => Ok(None),
    }
}

/// The pattern that finds the migration files below `root`: every file, at
/// any depth, whose name ends in `.sql`.
pub fn sql_files_pattern(root: &str) -> (r: String)
    ensures
        r@ == root@ + "/**/*.sql"@,
{
    let mut r = String::from_str(root);
    r.append("/**/*.sql");
    r
}

} // verus!
