//! Configuration: a string-keyed map of string values in the same
//! `key=value, key=value` format as device arguments.

use vstd::prelude::*;

use crate::kv::entries_from_str;
use crate::kv::entries_get;
use crate::kv::entries_map;
use crate::kv::entries_set;
use crate::kv::map_of_pairs;
use crate::kv::spec_pairs;
use crate::text::parse_u32;
use crate::text::spec_parse_u32;
use crate::Error;

verus! {

/// Configuration: a map from string keys to string values.
#[derive(Debug)]
pub struct Config {
    entries: Vec<(String, String)>,
}

impl View for Config {
    type V = Map<Seq<char>, Seq<char>>;

    closed spec fn view(&self) -> Map<Seq<char>, Seq<char>> {
        entries_map(self.entries@)
    }
}

impl Config {
    /// The entry list behind the map, in its internal order.
    pub closed spec fn spec_entries(&self) -> Seq<(String, String)> {
        self.entries@
    }

    /// An empty configuration.
    pub fn new() -> (r: Self)
        ensures
            r@ == Map::<Seq<char>, Seq<char>>::empty(),
    {
        Config { entries: Vec::new() }
    }

    /// Parse a configuration string. Yields exactly the map of the
    /// grammar's `key=value` pairs, later pairs overriding earlier
    /// ones with the same key.
    pub fn parse(s: &str) -> (r: Self)
        ensures
            r@ == map_of_pairs(spec_pairs(s@)),
    {
        Config { entries: entries_from_str(s) }
    }

    /// The value bound to `key`, exactly when the map binds it;
    /// `NotFound` otherwise.
    pub fn get(&self, key: &str) -> (r: Result<String, Error>)
        ensures
            match r {
                Ok(v) => self@.contains_key(key@) && v@ == self@[key@],
                Err(e) => e == Error::NotFound && !self@.contains_key(key@),
            },
    {
        match entries_get(&self.entries, key) {
            Some(v) => Ok(v),
            None => Err(Error::NotFound),
        }
    }

    /// The value bound to `key` read as a decimal `u32`: `NotFound`
    /// when the map does not bind the key, `ValueError` when the bound
    /// value is not a 32-bit decimal number.
    pub fn get_u32(&self, key: &str) -> (r: Result<u32, Error>)
        ensures
            match r {
                Ok(v) => self@.contains_key(key@) && spec_parse_u32(self@[key@]) == Some(v),
                Err(e) => (e == Error::NotFound && !self@.contains_key(key@)) || (e
                    == Error::ValueError && self@.contains_key(key@) && spec_parse_u32(
                    self@[key@],
                ) is None),
            },
    {
        match entries_get(&self.entries, key) {
            None => Err(Error::NotFound),
            Some(v) => match parse_u32(v.as_str()) {
                Some(n) => Ok(n),
                None => Err(Error::ValueError),
            },
        }
    }

    /// Bind `key` to `value`, returning the value it was bound to
    /// before, if any.
    pub fn set(&mut self, key: String, value: String) -> (r: Option<String>)
        ensures
            final(self)@ == old(self)@.insert(key@, value@),
            match r {
                Some(v) => old(self)@.contains_key(key@) && v@ == old(self)@[key@],
                None => !old(self)@.contains_key(key@),
            },
    {
        entries_set(&mut self.entries, key, value)
    }

    /// The number of entries held.
    pub fn len(&self) -> (r: usize)
        ensures
            r == self.spec_entries().len(),
    {
        self.entries.len()
    }
}

impl core::str::FromStr for Config {
    type Err = Error;

    fn from_str(s: &str) -> Result<Config, Error> {
        Ok(Config::parse(s))
    }
}

impl Default for Config {
    fn default() -> (r: Self)
        ensures
            r@ == Map::<Seq<char>, Seq<char>>::empty(),
    {
        Config::new()
    }
}

} // verus!
