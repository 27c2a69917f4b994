//! What holds of the index and the name of a planned file, whatever the
//! files that exist.

use crate::date::Date;
use crate::digits::{
    all_digits, decimal_value, is_digit, lemma_zero_padded_reads_back, pow10, zero_padded,
};
use crate::error::MigrationError;
use crate::migration::{file_name_of, index_after, index_text};
use crate::scan::{
    entry_of, has_file_of, is_last_index, last_index, last_index_for_day, latest_day,
    lemma_entry_bounds, lemma_last_index_exists, lemma_last_index_is_small,
    lemma_last_index_is_unique, lemma_latest_day_exists, no_file_after, Entry,
};
use vstd::prelude::*;

verus! {

/// The first file of a day gets the index 1: where no file is dated after
/// `today` and none is of `today`, the scan finds no index, and the index
/// after none is 1, written `01`.
pub proof fn lemma_first_index_of_a_day(names: Seq<Seq<char>>, today: Date)
    requires
        no_file_after(names, today),
        !has_file_of(names, today),
    ensures
        last_index_for_day(names, today) == Ok::<Option<i32>, MigrationError>(None),
        index_after(None) == 1,
        index_text(index_after(None)) == seq!['0', '1'],
{
    reveal_with_fuel(zero_padded, 3);
    assert(index_text(1) =~= seq!['0', '1']);
}

/// The next file of a day gets the index after the largest one: where no
/// file is dated after `today` and `last` is the largest index among the
/// files of `today`, the scan finds `last`, and the index after it is
/// `last + 1`. It is written with two digits, which read back as the index,
/// unless `last` is 99 already.
pub proof fn lemma_next_index_follows_last(names: Seq<Seq<char>>, today: Date, last: i32)
    requires
        no_file_after(names, today),
        is_last_index(names, today, last),
    ensures
        last_index_for_day(names, today) == Ok::<Option<i32>, MigrationError>(Some(last)),
        index_after(Some(last)) == last + 1,
        0 <= last <= 99,
        index_text(last + 1) == zero_padded((last + 1) as nat, 2),
        last < 99 ==> {
            &&& index_text(last + 1).len() == 2
            &&& all_digits(index_text(last + 1))
            &&& decimal_value(index_text(last + 1)) == last + 1
        },
{
    let at = choose|i: int|
        0 <= i < names.len() && #[trigger] entry_of(names[i]) == Some(
            Entry { date: today, index: last },
        );
    lemma_entry_bounds(names[at]);
    lemma_last_index_exists(names, today);
    lemma_last_index_is_unique(names, today, last, last_index(names, today));
    if last < 99 {
        reveal_with_fuel(pow10, 3);
        lemma_zero_padded_reads_back((last + 1) as nat, 2);
    }
}

/// A file dated after `today` makes the scan fail: where the name at `at`
/// is of a later day than `today`, the scan fails with `FutureDateDetected`
/// and names the latest day among the files, which is after `today`.
pub proof fn lemma_future_file_fails(names: Seq<Seq<char>>, today: Date, at: int)
    requires
        0 <= at < names.len(),
        entry_of(names[at]) matches Some(entry) && today.is_before(entry.date),
    ensures
        last_index_for_day(names, today) == Err::<Option<i32>, MigrationError>(
            MigrationError::FutureDateDetected(latest_day(names)),
        ),
        today.is_before(latest_day(names)),
        has_file_of(names, latest_day(names)),
        no_file_after(names, latest_day(names)),
{
    lemma_latest_day_exists(names);
}

/// Files of past days leave the index at its start: where every file is of
/// an earlier day than `today`, the scan finds no index, and the next index
/// is 1.
pub proof fn lemma_past_files_start_at_one(names: Seq<Seq<char>>, today: Date)
    requires
        forall|i: int|
            0 <= i < names.len() ==> (#[trigger] entry_of(names[i]) matches Some(entry)
                ==> entry.date.is_before(today)),
    ensures
        last_index_for_day(names, today) == Ok::<Option<i32>, MigrationError>(None),
        index_after(None) == 1,
{
}

/// A file name says what it was made of: the name composed for a valid day
/// and an index from 0 to 99 is read as an entry of that day and that index,
/// whatever the phrase in it.
pub proof fn lemma_file_name_reads_back(today: Date, index: int, description: Seq<char>)
    requires
        today.is_valid(),
        0 <= index <= 99,
    ensures
        entry_of(file_name_of(today, index, description)) == Some(
            Entry { date: today, index: index as i32 },
        ),
{
    let name = file_name_of(today, index, description);
    let year = zero_padded(today.year as nat, 4);
    let month = zero_padded(today.month as nat, 2);
    let day = zero_padded(today.day as nat, 2);
    let number = zero_padded(index as nat, 2);
    reveal_with_fuel(pow10, 5);
    lemma_zero_padded_reads_back(today.year as nat, 4);
    lemma_zero_padded_reads_back(today.month as nat, 2);
    lemma_zero_padded_reads_back(today.day as nat, 2);
    lemma_zero_padded_reads_back(index as nat, 2);
    assert(name.subrange(0, 4) =~= year);
    assert(name.subrange(4, 6) =~= month);
    assert(name.subrange(6, 8) =~= day);
    assert(name.subrange(8, 10) =~= number);
    assert forall|i: int| 0 <= i < 10 implies is_digit(#[trigger] name[i]) by {
        if i < 4 {
            assert(name[i] == year[i]);
        } else if i < 6 {
            assert(name[i] == month[i - 4]);
        } else if i < 8 {
            assert(name[i] == day[i - 6]);
        } else {
            assert(name[i] == number[i - 8]);
        }
    }
}

/// The planned file is the last of its day: where the scan of the files
/// `names` finds `last` on the valid day `today`, and the index after it is
/// at most 99, a scan of `names` with the new file's name added finds the new
/// file's index. So each file of a day gets an index that none had before.
pub proof fn lemma_planned_file_is_last(
    names: Seq<Seq<char>>,
    today: Date,
    last: Option<i32>,
    description: Seq<char>,
)
    requires
        today.is_valid(),
        last_index_for_day(names, today) == Ok::<Option<i32>, MigrationError>(last),
        index_after(last) <= 99,
    ensures
        last_index_for_day(
            names.push(file_name_of(today, index_after(last), description)),
            today,
        ) == Ok::<Option<i32>, MigrationError>(Some(index_after(last) as i32)),
{
    let index = index_after(last);
    let name = file_name_of(today, index, description);
    let all = names.push(name);
    let at_end = names.len() as int;
    if last is Some {
        lemma_last_index_exists(names, today);
        lemma_last_index_is_small(names, today);
    }
    lemma_file_name_reads_back(today, index, description);
    assert(entry_of(all[at_end]) == Some(Entry { date: today, index: index as i32 }));
    assert forall|i: int| 0 <= i < all.len() implies (#[trigger] entry_of(all[i]) matches Some(e)
        ==> !today.is_before(e.date) && (e.date == today ==> e.index <= index)) by {
        if i < at_end {
            assert(all[i] == names[i]);
        }
    }
    lemma_last_index_exists(all, today);
    lemma_last_index_is_unique(all, today, index as i32, last_index(all, today));
}

} // verus!
