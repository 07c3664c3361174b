//! What a bootnodes router answers: for each shard, named by its index in
//! decimal, the peers to dial first.

use vstd::prelude::*;
use vstd::string::StringExecFns;

verus! {

/// The seed peers of one shard.
#[derive(Debug, Clone, PartialEq, Eq)]
pub struct Shard {
    pub native: Vec<String>,
}

/// One entry of a router's answer.
#[derive(Debug, Clone, PartialEq, Eq)]
pub struct ShardEntry {
    pub key: String,
    pub shard: Shard,
}

/// A router's answer. No key occurs twice: putting a shard under a key that
/// is present replaces the earlier shard.
#[derive(Debug, Clone, PartialEq, Eq)]
pub struct BootnodesRouterConf {
    shards: Vec<ShardEntry>,
}

/// The shard of the first entry under `key`, if there is one.
pub open spec fn first_under(entries: Seq<ShardEntry>, key: Seq<char>) -> Option<Shard>
    decreases entries.len(),
{
    if entries.len() == 0 {
        None
    } else if entries[0].key@ == key {
        Some(entries[0].shard)
    } else {
        first_under(entries.skip(1), key)
    }
}

proof fn lemma_first_under_scan(entries: Seq<ShardEntry>, key: Seq<char>, i: int)
    requires
        0 <= i <= entries.len(),
        forall|j: int| 0 <= j < i ==> entries[j].key@ != key,
    ensures
        first_under(entries, key) == first_under(entries.skip(i), key),
    decreases i,
{
    if i == 0 {
        assert(entries.skip(0) == entries);
    } else {
        lemma_first_under_scan(entries, key, i - 1);
        let tail = entries.skip(i - 1);
        assert(tail[0] == entries[i - 1]);
        assert(tail.skip(1) == entries.skip(i));
    }
}

proof fn lemma_first_under_push(entries: Seq<ShardEntry>, entry: ShardEntry, key: Seq<char>)
    ensures
        first_under(entries.push(entry), key) == match first_under(entries, key) {
            Some(s) => Some(s),
            None => if entry.key@ == key {
                Some(entry.shard)
            } else {
                None
            },
        },
    decreases entries.len(),
{
    let longer = entries.push(entry);
    if entries.len() == 0 {
        assert(longer[0] == entry);
        assert(longer.skip(1).len() == 0);
        assert(first_under(longer.skip(1), key) is None);
    } else {
        assert(longer[0] == entries[0]);
        assert(longer.skip(1) == entries.skip(1).push(entry));
        lemma_first_under_push(entries.skip(1), entry, key);
    }
}

proof fn lemma_first_under_update(entries: Seq<ShardEntry>, i: int, entry: ShardEntry, key: Seq<char>)
    requires
        0 <= i < entries.len(),
        entry.key@ == entries[i].key@,
        forall|j: int| 0 <= j < i ==> entries[j].key@ != entry.key@,
    ensures
        first_under(entries.update(i, entry), key) == if key == entry.key@ {
            Some(entry.shard)
        } else {
            first_under(entries, key)
        },
    decreases i,
{
    let changed = entries.update(i, entry);
    if i == 0 {
        assert(changed.skip(1) == entries.skip(1));
    } else {
        assert(changed[0] == entries[0]);
        assert(changed.skip(1) == entries.skip(1).update(i - 1, entry));
        assert forall|j: int| 0 <= j < i - 1 implies entries.skip(1)[j].key@ != entry.key@ by {
            assert(entries.skip(1)[j] == entries[j + 1]);
        }
        lemma_first_under_update(entries.skip(1), i - 1, entry, key);
    }
}

impl View for BootnodesRouterConf {
    type V = Map<Seq<char>, Shard>;

    /// The shards by their keys.
    closed spec fn view(&self) -> Map<Seq<char>, Shard> {
        Map::new(
            |key: Seq<char>| first_under(self.shards@, key) is Some,
            |key: Seq<char>| first_under(self.shards@, key)->0,
        )
    }
}

impl BootnodesRouterConf {
    /// An answer without any shard.
    pub fn new() -> (conf: BootnodesRouterConf)
        ensures
            conf@ == Map::<Seq<char>, Shard>::empty(),
            conf.spec_len() == 0,
    {
        let conf = BootnodesRouterConf { shards: Vec::new() };
        assert(conf@ =~= Map::<Seq<char>, Shard>::empty());
        conf
    }

    /// Puts `shard` under `key`, in place of the shard that was there, if
    /// any.
    pub fn insert(&mut self, key: String, shard: Shard)
        ensures
            final(self)@ == old(self)@.insert(key@, shard),
    {
        let mut i: usize = 0;
        while i < self.shards.len()
            invariant
                i <= self.shards.len(),
                self.shards@ == old(self).shards@,
                forall|j: int| 0 <= j < i ==> self.shards@[j].key@ != key@,
            decreases self.shards.len() - i,
        {
            if self.shards[i].key == key {
                let entry = ShardEntry { key, shard };
                proof {
                    assert forall|k: Seq<char>|
                        first_under(#[trigger] old(self).shards@.update(i as int, entry), k) == (if k
                            == entry.key@ {
                            Some(entry.shard)
                        } else {
                            first_under(old(self).shards@, k)
                        }) by {
                        lemma_first_under_update(old(self).shards@, i as int, entry, k);
                    }
                }
                self.shards.set(i, entry);
                assert(self@ =~= old(self)@.insert(entry.key@, shard));
                return ;
            }
            i += 1;
        }
        let entry = ShardEntry { key, shard };
        proof {
            assert forall|k: Seq<char>|
                first_under(#[trigger] old(self).shards@.push(entry), k) == (match first_under(
                    old(self).shards@,
                    k,
                ) {
                    Some(s) => Some(s),
                    None => if entry.key@ == k {
                        Some(entry.shard)
                    } else {
                        None
                    },
                }) by {
                lemma_first_under_push(old(self).shards@, entry, k);
            }
            lemma_first_under_scan(old(self).shards@, entry.key@, old(self).shards@.len() as int);
            assert(old(self).shards@.skip(old(self).shards@.len() as int).len() == 0);
        }
        self.shards.push(entry);
        assert(self@ =~= old(self)@.insert(entry.key@, shard));
    }

    /// The shard under `key`, if there is one.
    pub fn get(&self, key: &str) -> (found: Option<&Shard>)
        ensures
            match found {
                Some(shard) => self@.contains_key(key@) && self@[key@] == *shard,
                None => !self@.contains_key(key@),
            },
    {
        let wanted = String::from_str(key);
        let mut i: usize = 0;
        while i < self.shards.len()
            invariant
                i <= self.shards.len(),
                wanted@ == key@,
                forall|j: int| 0 <= j < i ==> self.shards@[j].key@ != key@,
            decreases self.shards.len() - i,
        {
            if self.shards[i].key == wanted {
                proof {
                    lemma_first_under_scan(self.shards@, key@, i as int);
                    assert(self.shards@.skip(i as int)[0] == self.shards@[i as int]);
                }
                return Some(&self.shards[i].shard);
            }
            i += 1;
        }
        proof {
            lemma_first_under_scan(self.shards@, key@, self.shards@.len() as int);
            assert(self.shards@.skip(self.shards@.len() as int).len() == 0);
        }
        None
    }

    /// How many shards the answer names.
    pub fn len(&self) -> (n: usize)
        ensures
            n == self.spec_len(),
    {
        self.shards.len()
    }

    /// How many shards the answer names.
    pub closed spec fn spec_len(&self) -> nat {
        self.shards@.len()
    }
}

} // verus!
