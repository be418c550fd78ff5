//! The per-host credential store.

use vstd::prelude::*;
use vstd::string::*;

use crate::json::same_text;

verus! {

/// The token stored for `host` in `entries`: that of its first entry.
pub open spec fn lookup(entries: Seq<(String, String)>, host: Seq<char>) -> Option<Seq<char>>
    decreases entries.len(),
{
    if entries.len() == 0 {
        None
    } else if entries[0].0@ == host {
        Some(entries[0].1@)
    } else {
        lookup(entries.drop_first(), host)
    }
}

proof fn lemma_lookup_first(entries: Seq<(String, String)>, host: Seq<char>, i: int)
    requires
        0 <= i < entries.len(),
        entries[i].0@ == host,
        forall|j: int| 0 <= j < i ==> entries[j].0@ != host,
    ensures
        lookup(entries, host) == Some(entries[i].1@),
    decreases i,
{
    if i > 0 {
        lemma_lookup_first(entries.drop_first(), host, i - 1);
    }
}

proof fn lemma_lookup_absent(entries: Seq<(String, String)>, host: Seq<char>)
    requires
        forall|j: int| 0 <= j < entries.len() ==> entries[j].0@ != host,
    ensures
        lookup(entries, host) is None,
    decreases entries.len(),
{
    if entries.len() > 0 {
        lemma_lookup_absent(entries.drop_first(), host);
    }
}

proof fn lemma_lookup_set(
    entries: Seq<(String, String)>,
    i: int,
    e: (String, String),
    host: Seq<char>,
)
    requires
        0 <= i < entries.len(),
        entries[i].0@ != host,
        e.0@ != host,
    ensures
        lookup(entries.update(i, e), host) == lookup(entries, host),
    decreases entries.len(),
{
    if i == 0 {
        assert(entries.update(i, e).drop_first() =~= entries.drop_first());
    } else {
        assert(entries.update(i, e)[0] == entries[0]);
        assert(entries.update(i, e).drop_first() =~= entries.drop_first().update(i - 1, e));
        if entries[0].0@ != host {
            lemma_lookup_set(entries.drop_first(), i - 1, e, host);
        }
    }
}

proof fn lemma_lookup_push(entries: Seq<(String, String)>, e: (String, String), host: Seq<char>)
    ensures
        lookup(entries.push(e), host) == match lookup(entries, host) {
            Some(t) => Some(t),
            None => if e.0@ == host {
                Some(e.1@)
            } else {
                None
            },
        },
    decreases entries.len(),
{
    if entries.len() > 0 {
        assert(entries.push(e).drop_first() =~= entries.drop_first().push(e));
        assert(entries.push(e)[0] == entries[0]);
        lemma_lookup_push(entries.drop_first(), e, host);
    } else {
        assert(entries.push(e).drop_first() =~= Seq::<(String, String)>::empty());
        assert(entries.push(e)[0] == e);
        assert(lookup(Seq::<(String, String)>::empty(), host) is None);
    }
}

/// The stored tokens, one per host.
#[derive(Debug)]
pub struct Config {
    /// Hosts and their API keys or tokens.
    pub api_keys: Vec<(String, String)>,
}

impl Default for Config {
    fn default() -> (r: Self)
        ensures
            r.api_keys@.len() == 0,
            r.wf(),
    {
        Config { api_keys: Vec::new() }
    }
}

impl Config {
    /// The store's invariant: no host appears twice.
    pub open spec fn wf(&self) -> bool {
        forall|a: int, b: int|
            0 <= a < b < self.api_keys@.len() ==> self.api_keys@[a].0@ != self.api_keys@[b].0@
    }

    /// The token stored for `host`.
    pub fn get_token(&self, host: &str) -> (r: Option<&String>)
        ensures
            match r {
                Some(t) => lookup(self.api_keys@, host@) == Some(t@),
                None => lookup(self.api_keys@, host@) is None,
            },
    {
        let mut i: usize = 0;
        while i < self.api_keys.len()
            invariant
                i <= self.api_keys@.len(),
                forall|j: int| 0 <= j < i ==> self.api_keys@[j].0@ != host@,
            decreases self.api_keys@.len() - i,
        {
            if same_text(self.api_keys[i].0.as_str(), host) {
                proof {
                    lemma_lookup_first(self.api_keys@, host@, i as int);
                }
                return Some(&self.api_keys[i].1);
            }
            i = i + 1;
        }
        proof {
            lemma_lookup_absent(self.api_keys@, host@);
        }
        None
    }

    /// Stores `token` for `host`, replacing the token stored before.
    pub fn set_token(&mut self, host: &str, token: &str)
        requires
            old(self).wf(),
        ensures
            final(self).wf(),
            lookup(final(self).api_keys@, host@) == Some(token@),
            forall|h: Seq<char>|
                h != host@ ==> lookup(final(self).api_keys@, h) == lookup(old(self).api_keys@, h),
    {
        let ghost before = self.api_keys@;
        let entry = (String::from_str(host), String::from_str(token));
        let mut i: usize = 0;
        while i < self.api_keys.len()
            invariant
                self.api_keys@ == before,
                before == old(self).api_keys@,
                old(self).wf(),
                entry.0@ == host@,
                entry.1@ == token@,
                i <= before.len(),
                forall|j: int| 0 <= j < i ==> before[j].0@ != host@,
            decreases before.len() - i,
        {
            if same_text(self.api_keys[i].0.as_str(), host) {
                self.api_keys.set(i, entry);
                proof {
                    lemma_lookup_first(self.api_keys@, host@, i as int);
                    assert forall|h: Seq<char>| h != host@ implies lookup(self.api_keys@, h)
                        == lookup(before, h) by {
                        lemma_lookup_set(before, i as int, entry, h);
                    }
                }
                return;
            }
            i = i + 1;
        }
        self.api_keys.push(entry);
        proof {
            lemma_lookup_absent(before, host@);
            lemma_lookup_push(before, entry, host@);
            assert forall|h: Seq<char>| h != host@ implies lookup(self.api_keys@, h) == lookup(
                before,
                h,
            ) by {
                lemma_lookup_push(before, entry, h);
            }
        }
    }
}

} // verus!
