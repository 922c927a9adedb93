//! Device arguments: a string-keyed map of string values, written
//! `key=value, key=value` and used to select and describe devices.

use vstd::prelude::*;

use crate::kv::entries_from_str;
use crate::kv::entries_get;
use crate::kv::entries_map;
use crate::kv::entries_set;
use crate::kv::map_of_pairs;
use crate::kv::spec_pairs;
use crate::text::parse_u32;
use crate::text::spec_parse_u32;
use crate::Error;

verus! {

/// Arguments: a map from string keys to string values.
#[derive(Debug, Clone)]
pub struct Args {
    entries: Vec<(String, String)>,
}

impl View for Args {
    type V = Map<Seq<char>, Seq<char>>;

    closed spec fn view(&self) -> Map<Seq<char>, Seq<char>> {
        entries_map(self.entries@)
    }
}

impl Args {
    /// The entry list behind the map, in its internal order.
    pub closed spec fn spec_entries(&self) -> Seq<(String, String)> {
        self.entries@
    }

    /// An empty argument map.
    pub fn new() -> (r: Self)
        ensures
            r@ == Map::<Seq<char>, Seq<char>>::empty(),
    {
        Args { entries: Vec::new() }
    }

    /// Parse an argument string. Yields exactly the map of the
    /// grammar's `key=value` pairs, later pairs overriding earlier
    /// ones with the same key.
    pub fn parse(s: &str) -> (r: Self)
        ensures
            r@ == map_of_pairs(spec_pairs(s@)),
    {
        Args { entries: entries_from_str(s) }
    }

    /// The value bound to `key`, exactly when the map binds it;
    /// `NotFound` otherwise.
    pub fn get(&self, key: &str) -> (r: Result<String, Error>)
        ensures
            match r {
                Ok(v) => self@.contains_key(key@) && v@ == self@[key@],
                Err(e) => e == Error::NotFound && !self@.contains_key(key@),
            },
    {
        match entries_get(&self.entries, key) {
            Some(v) => Ok(v),
            None => Err(Error::NotFound),
        }
    }

    /// The value bound to `key` read as a decimal `u32`: `NotFound`
    /// when the map does not bind the key, `ValueError` when the bound
    /// value is not a 32-bit decimal number.
    pub fn get_u32(&self, key: &str) -> (r: Result<u32, Error>)
        ensures
            match r {
                Ok(v) => self@.contains_key(key@) && spec_parse_u32(self@[key@]) == Some(v),
                Err(e) => (e == Error::NotFound && !self@.contains_key(key@)) || (e
                    == Error::ValueError && self@.contains_key(key@) && spec_parse_u32(
                    self@[key@],
                ) is None),
            },
    {
        match entries_get(&self.entries, key) {
            None => Err(Error::NotFound),
            Some(v) => match parse_u32(v.as_str()) {
                Some(n) => Ok(n),
                None => Err(Error::ValueError),
            },
        }
    }

    /// Bind `key` to `value`, returning the value it was bound to
    /// before, if any.
    pub fn set(&mut self, key: String, value: String) -> (r: Option<String>)
        ensures
            final(self)@ == old(self)@.insert(key@, value@),
            match r {
                Some(v) => old(self)@.contains_key(key@) && v@ == old(self)@[key@],
                None => !old(self)@.contains_key(key@),
            },
    {
        entries_set(&mut self.entries, key, value)
    }

    /// The entries as a list of key-value pairs, in internal order.
    pub fn map(&self) -> (r: &Vec<(String, String)>)
        ensures
            r@ == self.spec_entries(),
            entries_map(r@) == self@,
    {
        &self.entries
    }

    /// A copy of the entries as a list of key-value pairs.
    pub fn iter(&self) -> (r: Vec<(String, String)>)
        ensures
            r@ == self.spec_entries(),
            entries_map(r@) == self@,
    {
        let mut out: Vec<(String, String)> = Vec::new();
        let mut i: usize = 0;
        while i < self.entries.len()
            invariant
                i <= self.entries@.len(),
                out@.len() == i,
                forall|j: int| 0 <= j < i ==> out@[j] == self.entries@[j],
            decreases self.entries@.len() - i,
        {
            out.push((self.entries[i].0.clone(), self.entries[i].1.clone()));
            i += 1;
        }
        proof {
            assert(out@ =~= self.entries@);
        }
        out
    }
}

impl core::str::FromStr for Args {
    type Err = Error;

    fn from_str(s: &str) -> Result<Args, Error> {
        Ok(Args::parse(s))
    }
}

impl Default for Args {
    fn default() -> (r: Self)
        ensures
            r@ == Map::<Seq<char>, Seq<char>>::empty(),
    {
        Args::new()
    }
}

} // verus!
