//! Parser for Chromecast TXT records.
//!
//! Each Chromecast TXT record is a `key=value` pair that specifies some
//! metadata about the device. The most relevant keys are:
//!
//! - `md` - Model Name
//! - `fn` - Friendly Name
use vstd::prelude::*;
use vstd::hash_map::StringHashMap;

verus! {

/// Characters that may form a key: ASCII letters and digits.
pub open spec fn is_key_char(c: char) -> bool {
    ('0' <= c && c <= '9') || ('a' <= c && c <= 'z') || ('A' <= c && c <= 'Z')
}

/// End of the run of key characters in `s` that starts at `i`.
pub open spec fn key_end(s: Seq<char>, i: nat) -> nat
    decreases s.len() - i,
{
    if i < s.len() && is_key_char(s[i as int]) {
        key_end(s, i + 1)
    } else {
        i
    }
}

/// A record `key=value`: a non-empty run of ASCII letters and digits, an
/// `=`, and the rest of the record (which may hold more `=`) as the value.
pub open spec fn parse_record(s: Seq<char>) -> Option<(Seq<char>, Seq<char>)> {
    let k = key_end(s, 0);
    if 0 < k && k < s.len() && s[k as int] == '=' {
        Some((s.take(k as int), s.skip((k + 1) as int)))
    } else {
        None
    }
}

/// The key-value pairs of the records, a later record replacing an earlier
/// one with the same key; records that do not parse are ignored.
pub open spec fn records_map(records: Seq<Seq<char>>) -> Map<Seq<char>, Seq<char>>
    decreases records.len(),
{
    if records.len() == 0 {
        Map::empty()
    } else {
        let m = records_map(records.drop_last());
        match parse_record(records.last()) {
            Some((k, v)) => m.insert(k, v),
            None => m,
        }
    }
}

/// The characters of each record.
pub open spec fn record_views(records: Seq<&str>) -> Seq<Seq<char>> {
    records.map_values(|r: &str| r@)
}

/// Whether `m` holds exactly the pairs of `expected`.
pub open spec fn map_matches(m: Map<Seq<char>, String>, expected: Map<Seq<char>, Seq<char>>) -> bool {
    &&& m.dom() == expected.dom()
    &&& forall|k: Seq<char>| #[trigger] m.dom().contains(k) ==> m[k]@ == expected[k]
}

/// `key_end` never goes back and stays within the input.
proof fn lemma_key_end_bounds(s: Seq<char>, i: nat)
    requires
        i <= s.len(),
    ensures
        i <= key_end(s, i) <= s.len(),
        forall|j: int| i <= j < key_end(s, i) ==> is_key_char(#[trigger] s[j]),
        key_end(s, i) < s.len() ==> !is_key_char(s[key_end(s, i) as int]),
    decreases s.len() - i,
{
    if i < s.len() && is_key_char(s[i as int]) {
        lemma_key_end_bounds(s, i + 1);
    }
}

/// Splits one record into its key and value.
fn parse_record_exec(txt: &str) -> (r: Option<(String, String)>)
    ensures
        match parse_record(txt@) {
            None => r is None,
            Some((k, v)) => r matches Some((rk, rv)) && rk@ == k && rv@ == v,
        },
{
    let n = txt.unicode_len();
    let mut k: usize = 0;
    proof {
        lemma_key_end_bounds(txt@, 0);
    }
    while k < n
        invariant
            n == txt@.len(),
            k <= n,
            key_end(txt@, k as nat) == key_end(txt@, 0),
        ensures
            k <= n,
            key_end(txt@, k as nat) == key_end(txt@, 0),
            k == n || !is_key_char(txt@[k as int]),
        decreases n - k,
    {
        let c = txt.get_char(k);
        if !(('0' <= c && c <= '9') || ('a' <= c && c <= 'z') || ('A' <= c && c <= 'Z')) {
            break;
        }
        k = k + 1;
    }
    assert(key_end(txt@, k as nat) == k);
    if k == 0 || k >= n {
        return None;
    }
    if txt.get_char(k) != '=' {
        return None;
    }
    let key = txt.substring_char(0, k).to_string();
    let value = txt.substring_char(k + 1, n).to_string();
    assert(txt@.subrange(0, k as int) =~= txt@.take(k as int));
    assert(txt@.subrange(k + 1, n as int) =~= txt@.skip(k + 1));
    Some((key, value))
}

/// Extracts the key-value pairs of a TXT record and collects them into a
/// map; a later pair replaces an earlier one with the same key.
pub fn dns_txt(vec: &[&str]) -> (r: StringHashMap<String>)
    ensures
        map_matches(r@, records_map(record_views(vec@))),
{
    let mut collect: StringHashMap<String> = StringHashMap::new();
    let mut i: usize = 0;
    while i < vec.len()
        invariant
            i <= vec@.len(),
            map_matches(collect@, records_map(record_views(vec@).take(i as int))),
        decreases vec@.len() - i,
    {
        let txt: &str = vec[i];
        let ghost prev = record_views(vec@).take(i as int);
        let ghost next = record_views(vec@).take(i + 1);
        assert(next.drop_last() =~= prev);
        assert(next.last() == txt@);
        match parse_record_exec(txt) {
            Some((key, value)) => {
                collect.insert(key, value);
            },
            None => {},
        }
        assert(map_matches(collect@, records_map(next)));
        i = i + 1;
    }
    assert(record_views(vec@).take(vec@.len() as int) =~= record_views(vec@));
    collect
}

} // verus!
