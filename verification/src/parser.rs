//! Parser for DNS TXT records of cast devices.
use vstd::prelude::*;
use vstd::hash_map::StringHashMap;

use crate::backend::chromecast::parser::{map_matches, record_views, records_map};

verus! {

/// TXT records are given as key=value pairs; collects them into a map, a
/// later pair replacing an earlier one with the same key.
pub fn dns_txt(vec: &[&str]) -> (r: StringHashMap<String>)
    ensures
        map_matches(r@, records_map(record_views(vec@))),
{
    crate::backend::chromecast::parser::dns_txt(vec)
}

} // verus!
