//! Case-insensitive substring filter over the configured timezones.

use vstd::prelude::*;

use crate::config::TimezoneConfig;

verus! {

/// What `str::to_lowercase` makes of a text.
pub uninterp spec fn lower_of(s: Seq<char>) -> Seq<char>;

/// Relies on std's `str::to_lowercase`, whose result depends on the characters
/// alone; the characters are then taken out in order.
#[verifier::external_body]
fn lowercase_chars(s: &str) -> (r: Vec<char>)
    ensures
        r@ == lower_of(s@),
{
    s.to_lowercase().chars().collect()
}

/// Whether `needle` occurs in `hay` as a contiguous run (the empty needle
/// occurs everywhere).
pub open spec fn contains(hay: Seq<char>, needle: Seq<char>) -> bool {
    exists|i: int|
        0 <= i && i + needle.len() <= hay.len() && #[trigger] hay.subrange(i, i + needle.len())
            == needle
}

/// Whether an entry passes the search query: an empty query passes all;
/// otherwise the lowercased query occurs in the lowercased name or identifier.
pub open spec fn entry_matches(query: Seq<char>, e: TimezoneConfig) -> bool {
    query.len() == 0 || contains(lower_of(e.name@), lower_of(query)) || contains(
        lower_of(e.timezone@),
        lower_of(query),
    )
}

/// Indices, in order, of the entries among the first `n` that pass the query.
pub open spec fn filtered_upto(entries: Seq<TimezoneConfig>, query: Seq<char>, n: int) -> Seq<int>
    decreases n,
{
    if n <= 0 {
        seq![]
    } else if entry_matches(query, entries[n - 1]) {
        filtered_upto(entries, query, n - 1).push(n - 1)
    } else {
        filtered_upto(entries, query, n - 1)
    }
}

/// Indices, in order, of the entries that pass the query.
pub open spec fn filtered(entries: Seq<TimezoneConfig>, query: Seq<char>) -> Seq<int> {
    filtered_upto(entries, query, entries.len() as int)
}

/// `filtered_upto` lists at most `n` indices, each of them below `n`.
pub proof fn lemma_filtered_upto_bounds(entries: Seq<TimezoneConfig>, query: Seq<char>, n: int)
    requires
        0 <= n,
    ensures
        filtered_upto(entries, query, n).len() <= n,
        forall|k: int|
            0 <= k < filtered_upto(entries, query, n).len() ==> 0 <= #[trigger] filtered_upto(
                entries,
                query,
                n,
            )[k] < n,
    decreases n,
{
    if n > 0 {
        lemma_filtered_upto_bounds(entries, query, n - 1);
    }
}

fn matches_at(hay: &Vec<char>, needle: &Vec<char>, i: usize) -> (r: bool)
    requires
        i + needle@.len() <= hay@.len(),
    ensures
        r == (hay@.subrange(i as int, i + needle@.len()) == needle@),
{
    let hay_len = hay.len();
    let mut j: usize = 0;
    while j < needle.len()
        invariant
            i + needle@.len() <= hay@.len(),
            hay_len == hay@.len(),
            0 <= j <= needle@.len(),
            forall|t: int| 0 <= t < j ==> hay@[i + t] == needle@[t],
        decreases needle@.len() - j,
    {
        if hay[i + j] != needle[j] {
            assert(hay@.subrange(i as int, i + needle@.len())[j as int] != needle@[j as int]);
            return false;
        }
        j = j + 1;
    }
    assert(hay@.subrange(i as int, i + needle@.len()) =~= needle@);
    true
}

/// Substring test on character vectors.
pub fn contains_chars(hay: &Vec<char>, needle: &Vec<char>) -> (r: bool)
    ensures
        r == contains(hay@, needle@),
{
    if needle.len() > hay.len() {
        return false;
    }
    let last = hay.len() - needle.len();
    let mut i: usize = 0;
    loop
        invariant
            needle@.len() <= hay@.len(),
            last == hay@.len() - needle@.len(),
            i <= last,
            forall|k: int|
                0 <= k < i ==> #[trigger] hay@.subrange(k, k + needle@.len()) != needle@,
        decreases last - i,
    {
        if matches_at(hay, needle, i) {
            return true;
        }
        if i == last {
            return false;
        }
        i = i + 1;
    }
}

/// The filter on texts that are already lowercased: the query occurs in the
/// name or in the identifier.
pub fn matches_folded(query: &Vec<char>, name: &Vec<char>, timezone: &Vec<char>) -> (r: bool)
    ensures
        r == (contains(name@, query@) || contains(timezone@, query@)),
{
    contains_chars(name, query) || contains_chars(timezone, query)
}

/// Whether the entry passes the search query.
pub fn timezone_matches(query: &str, entry: &TimezoneConfig) -> (r: bool)
    ensures
        r == entry_matches(query@, *entry),
{
    if query.unicode_len() == 0 {
        return true;
    }
    let q = lowercase_chars(query);
    let name = lowercase_chars(entry.name.as_str());
    let tz = lowercase_chars(entry.timezone.as_str());
    matches_folded(&q, &name, &tz)
}

/// The entries that pass the query, each with its index in `entries`.
pub fn filter_timezones<'a>(entries: &'a Vec<TimezoneConfig>, query: &str) -> (r: Vec<(usize, &'a TimezoneConfig)>)
    ensures
        r@.len() == filtered(entries@, query@).len(),
        forall|k: int|
            0 <= k < r@.len() ==> {
                &&& r@[k].0 == filtered(entries@, query@)[k]
                &&& *r@[k].1 == entries@[r@[k].0 as int]
            },
{
    let mut out: Vec<(usize, &'a TimezoneConfig)> = Vec::new();
    let mut i: usize = 0;
    while i < entries.len()
        invariant
            0 <= i <= entries@.len(),
            out@.len() == filtered_upto(entries@, query@, i as int).len(),
            forall|k: int|
                0 <= k < out@.len() ==> {
                    &&& out@[k].0 == filtered_upto(entries@, query@, i as int)[k]
                    &&& *out@[k].1 == entries@[out@[k].0 as int]
                },
        decreases entries@.len() - i,
    {
        if timezone_matches(query, &entries[i]) {
            out.push((i, &entries[i]));
        }
        i = i + 1;
    }
    out
}

/// How many entries pass the query.
pub fn count_matching(entries: &Vec<TimezoneConfig>, query: &str) -> (r: usize)
    ensures
        r == filtered(entries@, query@).len(),
{
    let mut count: usize = 0;
    let mut i: usize = 0;
    while i < entries.len()
        invariant
            0 <= i <= entries@.len(),
            count == filtered_upto(entries@, query@, i as int).len(),
            count <= i,
        decreases entries@.len() - i,
    {
        proof {
            lemma_filtered_upto_bounds(entries@, query@, i as int + 1);
        }
        if timezone_matches(query, &entries[i]) {
            count = count + 1;
        }
        i = i + 1;
    }
    count
}

} // verus!
