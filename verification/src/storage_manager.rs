//! The key/value storage contract: UTF-8 string properties, with
//! namespaced variants per application.  Absence is surfaced as a typed
//! error, never as an empty string.

use vstd::prelude::*;
use crate::json::str_eq;

verus! {

/// A stored property.
#[derive(Clone, Copy, Debug, PartialEq, Eq, Structural)]
pub enum StorageProperty {
    Locality,
    CountryCode,
    Language,
    PostalCode,
    Locale,
    LatLon,
    AdditionalInfo,
}

/// Storage failed to produce a value.
#[derive(Clone, Copy, Debug, PartialEq, Eq, Structural)]
pub enum StorageError {
    NotFound,
}

/// The stored value of a property: the most recent write wins.
pub open spec fn spec_storage_lookup(s: Seq<(StorageProperty, String)>, p: StorageProperty)
    -> Option<Seq<char>>
    decreases s,
{
    if s.len() == 0 {
        None
    } else if s.last().0 == p {
        Some(s.last().1@)
    } else {
        spec_storage_lookup(s.drop_last(), p)
    }
}

/// The stored value under a namespaced key: the most recent write wins.
pub open spec fn spec_namespace_lookup(
    s: Seq<(String, String, String)>,
    ns: Seq<char>,
    key: Seq<char>,
) -> Option<Seq<char>>
    decreases s,
{
    if s.len() == 0 {
        None
    } else if s.last().0@ == ns && s.last().1@ == key {
        Some(s.last().2@)
    } else {
        spec_namespace_lookup(s.drop_last(), ns, key)
    }
}

/// The device's property store.
#[derive(Debug)]
pub struct StorageState {
    properties: Vec<(StorageProperty, String)>,
    namespaced: Vec<(String, String, String)>,
}

impl StorageState {
    /// The property store view.
    pub closed spec fn props(&self) -> Seq<(StorageProperty, String)> {
        self.properties@
    }

    /// The namespaced store view.
    pub closed spec fn namespaces(&self) -> Seq<(String, String, String)> {
        self.namespaced@
    }

    /// An empty store.
    pub fn new() -> (r: StorageState)
        ensures
            r.props().len() == 0,
            r.namespaces().len() == 0,
    {
        StorageState { properties: Vec::new(), namespaced: Vec::new() }
    }

    /// Reads a property; absence is a typed error.
    pub fn get_string(&self, property: StorageProperty) -> (r: Result<String, StorageError>)
        ensures
            match r {
                Ok(s) => spec_storage_lookup(self.props(), property) == Some(s@),
                Err(e) => e == StorageError::NotFound
                    && spec_storage_lookup(self.props(), property) is None,
            },
    {
        let mut j: usize = self.properties.len();
        proof {
            assert(self.properties@.take(j as int) =~= self.properties@);
        }
        while j > 0
            invariant
                0 <= j <= self.properties@.len(),
                spec_storage_lookup(self.properties@, property)
                    == spec_storage_lookup(self.properties@.take(j as int), property),
            decreases j,
        {
            j = j - 1;
            proof {
                assert(self.properties@.take(j as int + 1).drop_last()
                    =~= self.properties@.take(j as int));
                assert(self.properties@.take(j as int + 1).last() == self.properties@[j as int]);
            }
            let entry = &self.properties[j];
            if entry.0 == property {
                let value = entry.1.clone();
                proof {
                    assert(value@ == self.properties@[j as int].1@);
                }
                return Ok(value);
            }
        }
        Err(StorageError::NotFound)
    }

    /// Writes a property.
    pub fn set_string(&mut self, property: StorageProperty, value: String)
        ensures
            spec_storage_lookup(final(self).props(), property) == Some(value@),
            forall|p: StorageProperty| p != property
                ==> spec_storage_lookup(final(self).props(), p)
                    == spec_storage_lookup(old(self).props(), p),
            final(self).namespaces() == old(self).namespaces(),
    {
        let ghost before = self.properties@;
        self.properties.push((property, value));
        proof {
            assert(self.properties@.drop_last() =~= before);
        }
    }

    /// Reads a namespaced value; absence is a typed error.
    pub fn get_string_from_namespace(&self, namespace: &str, key: &str)
        -> (r: Result<String, StorageError>)
        ensures
            match r {
                Ok(s) => spec_namespace_lookup(self.namespaces(), namespace@, key@) == Some(s@),
                Err(e) => e == StorageError::NotFound
                    && spec_namespace_lookup(self.namespaces(), namespace@, key@) is None,
            },
    {
        let mut j: usize = self.namespaced.len();
        proof {
            assert(self.namespaced@.take(j as int) =~= self.namespaced@);
        }
        while j > 0
            invariant
                0 <= j <= self.namespaced@.len(),
                spec_namespace_lookup(self.namespaced@, namespace@, key@)
                    == spec_namespace_lookup(self.namespaced@.take(j as int), namespace@, key@),
            decreases j,
        {
            j = j - 1;
            proof {
                assert(self.namespaced@.take(j as int + 1).drop_last()
                    =~= self.namespaced@.take(j as int));
                assert(self.namespaced@.take(j as int + 1).last() == self.namespaced@[j as int]);
            }
            let entry = &self.namespaced[j];
            if str_eq(entry.0.as_str(), namespace) && str_eq(entry.1.as_str(), key) {
                let value = entry.2.clone();
                proof {
                    assert(value@ == self.namespaced@[j as int].2@);
                }
                return Ok(value);
            }
        }
        Err(StorageError::NotFound)
    }

    /// Writes a namespaced value.
    pub fn set_string_in_namespace(&mut self, namespace: String, key: String, value: String)
        ensures
            spec_namespace_lookup(final(self).namespaces(), namespace@, key@) == Some(value@),
            forall|n: Seq<char>, k: Seq<char>| !(n == namespace@ && k == key@)
                ==> spec_namespace_lookup(final(self).namespaces(), n, k)
                    == spec_namespace_lookup(old(self).namespaces(), n, k),
            final(self).props() == old(self).props(),
    {
        let ghost before = self.namespaced@;
        self.namespaced.push((namespace, key, value));
        proof {
            assert(self.namespaced@.drop_last() =~= before);
        }
    }
}

} // verus!
