//! The run's configuration: which provider URL, spots and models to
//! fetch, and where to persist.
//!
//! Reading files or the environment is the shell's business; it fills a
//! `ConfigCache` with plain key/value entries in source order and decodes
//! them into `Settings`. Lookup is last-match, so a later source (the
//! environment) overrides an earlier one (a file).

use vstd::prelude::*;
use crate::forecast::IdModel;
use crate::forecast::IdSpot;

verus! {

/// What the provider-facing part of a run needs: the base URL and the
/// configured spot and model ids.
#[derive(Debug, Clone, PartialEq, Eq)]
pub struct WindguruConfig {
    pub url: String,
    pub spots: Vec<IdSpot>,
    pub models: Vec<IdModel>,
}

/// Nothing to configure for an object store yet.
#[derive(Debug, Clone, PartialEq, Eq)]
pub struct S3Config {
}

/// How to reach the relational store.
#[derive(Debug, Clone, PartialEq, Eq)]
pub struct PostgresqlConfig {
    pub connection_url: String,
}

/// Which storage backend a run persists into.
#[derive(Debug, Clone, PartialEq, Eq)]
pub enum DataStorage {
    S3(S3Config),
    Postgresql(PostgresqlConfig),
}

/// Everything a run is configured with.
#[derive(Debug, Clone, PartialEq, Eq)]
pub struct Settings {
    pub windguru: WindguruConfig,
    pub storage: DataStorage,
}

/// Assemble the settings of a run from its decoded parts.
pub fn init_config(windguru: WindguruConfig, storage: DataStorage) -> (r: Settings)
    ensures
        r.windguru == windguru,
        r.storage == storage,
{
    Settings { windguru, storage }
}

/// The value of the last entry for `key`, if any.
pub open spec fn lookup(entries: Seq<(String, String)>, key: Seq<char>) -> Option<Seq<char>>
    decreases entries.len(),
{
    if entries.len() == 0 {
        None
    } else if entries.last().0@ == key {
        Some(entries.last().1@)
    } else {
        lookup(entries.drop_last(), key)
    }
}

/// Plain configuration entries, in the order the sources supplied them.
#[derive(Debug, Clone, PartialEq, Eq)]
pub struct ConfigCache {
    pub entries: Vec<(String, String)>,
}

impl Default for ConfigCache {
    /// A cache with no entries yet.
    fn default() -> (r: Self)
        ensures
            r.entries@.len() == 0,
    {
        ConfigCache { entries: Vec::new() }
    }
}

impl ConfigCache {
    /// Add one entry; it overrides earlier entries for the same key.
    pub fn set(&mut self, key: String, value: String)
        ensures
            final(self).entries@ == old(self).entries@.push((key, value)),
    {
        self.entries.push((key, value));
    }

    /// The value configured for `key`: the last entry wins.
    pub fn get<'a>(&'a self, key: &str) -> (r: Option<&'a String>)
        ensures
            (match r {
                Some(s) => lookup(self.entries@, key@) == Some(s@),
                None => lookup(self.entries@, key@) is None,
            }),
    {
        let key_string = key.to_owned();
        let ghost all = self.entries@;
        let mut i: usize = self.entries.len();
        proof {
            assert(all.take(all.len() as int) =~= all);
        }
        while i > 0
            invariant
                0 <= i <= all.len(),
                self.entries@ == all,
                key_string@ == key@,
                lookup(all, key@) == lookup(all.take(i as int), key@),
            decreases i,
        {
            i = i - 1;
            proof {
                assert(all.take(i as int + 1).last() == all[i as int]);
                assert(all.take(i as int + 1).drop_last() =~= all.take(i as int));
            }
            if self.entries[i].0 == key_string {
                return Some(&self.entries[i].1);
            }
        }
        proof {
            assert(all.take(0).len() == 0);
        }
        None
    }
}

} // verus!
