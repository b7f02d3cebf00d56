use vstd::prelude::*;

use crate::profile::CredentialRecord;

verus! {

/// The map that a list of (name, secret) entries stands for: each entry
/// replaces what an earlier one said of its name.
pub open spec fn entries_map(s: Seq<(Seq<char>, Seq<char>)>) -> Map<Seq<char>, Seq<char>>
    decreases s.len(),
{
    if s.len() == 0 {
        Map::empty()
    } else {
        entries_map(s.drop_last()).insert(s.last().0, s.last().1)
    }
}

pub open spec fn entries_view(v: Seq<(String, String)>) -> Seq<(Seq<char>, Seq<char>)> {
    v.map_values(|e: (String, String)| (e.0@, e.1@))
}

pub open spec fn keys_unique(s: Seq<(Seq<char>, Seq<char>)>) -> bool {
    forall|i: int, j: int| 0 <= i < s.len() && 0 <= j < s.len() && i != j ==> s[i].0 != s[j].0
}

/// The map `m` after a record is added: the record's secret under its
/// name, when it has one; `m` unchanged when it has none.
pub open spec fn add_record_spec(
    m: Map<Seq<char>, Seq<char>>,
    rec: (Seq<char>, Option<Seq<char>>),
) -> Map<Seq<char>, Seq<char>> {
    match rec.1 {
        Some(secret) => m.insert(rec.0, secret),
        None => m,
    }
}

proof fn lemma_entries_dom(s: Seq<(Seq<char>, Seq<char>)>)
    ensures
        entries_map(s).dom().finite(),
        forall|k: Seq<char>| #[trigger] entries_map(s).contains_key(k) <==> exists|i: int| 0 <= i < s.len() && s[i].0 == k,
    decreases s.len(),
{
    if s.len() > 0 {
        let d = s.drop_last();
        lemma_entries_dom(d);
        assert forall|k: Seq<char>| #[trigger] entries_map(s).contains_key(k) <==> exists|i: int| 0 <= i < s.len() && s[i].0 == k by {
            if exists|i: int| 0 <= i < s.len() && s[i].0 == k {
                let i = choose|i: int| 0 <= i < s.len() && s[i].0 == k;
                if i < s.len() - 1 {
                    assert(d[i].0 == k);
                }
            }
            if entries_map(d).contains_key(k) {
                let i = choose|i: int| 0 <= i < d.len() && d[i].0 == k;
                assert(s[i].0 == k);
            }
        }
    }
}

proof fn lemma_entries_len(s: Seq<(Seq<char>, Seq<char>)>)
    requires
        keys_unique(s),
    ensures
        entries_map(s).len() == s.len(),
    decreases s.len(),
{
    if s.len() > 0 {
        let d = s.drop_last();
        lemma_entries_len(d);
        lemma_entries_dom(d);
        if entries_map(d).contains_key(s.last().0) {
            let i = choose|i: int| 0 <= i < d.len() && d[i].0 == s.last().0;
            assert(s[i].0 == s[s.len() - 1].0);
        }
    }
}

proof fn lemma_entries_lookup(s: Seq<(Seq<char>, Seq<char>)>, i: int)
    requires
        keys_unique(s),
        0 <= i < s.len(),
    ensures
        entries_map(s).contains_key(s[i].0),
        entries_map(s)[s[i].0] == s[i].1,
    decreases s.len(),
{
    if i < s.len() - 1 {
        lemma_entries_lookup(s.drop_last(), i);
    }
}

proof fn lemma_entries_update(s: Seq<(Seq<char>, Seq<char>)>, i: int, v: Seq<char>)
    requires
        keys_unique(s),
        0 <= i < s.len(),
    ensures
        entries_map(s.update(i, (s[i].0, v))) == entries_map(s).insert(s[i].0, v),
    decreases s.len(),
{
    let u = s.update(i, (s[i].0, v));
    let d = s.drop_last();
    assert(u.drop_last() =~= if i < s.len() - 1 { d.update(i, (d[i].0, v)) } else { d });
    if i < s.len() - 1 {
        lemma_entries_update(d, i, v);
        assert(s[i].0 != s.last().0);
    }
    assert(entries_map(u) =~= entries_map(s).insert(s[i].0, v));
}

/// Network names mapped to their recovered secrets. Names are unique; a
/// later secret for a name replaces the earlier one.
pub struct WifiPasswords {
    entries: Vec<(String, String)>,
}

impl View for WifiPasswords {
    type V = Map<Seq<char>, Seq<char>>;

    closed spec fn view(&self) -> Map<Seq<char>, Seq<char>> {
        entries_map(entries_view(self.entries@))
    }
}

impl WifiPasswords {
    /// The names are unique.
    pub closed spec fn wf(&self) -> bool {
        keys_unique(entries_view(self.entries@))
    }

    /// An empty map.
    pub fn new() -> (r: Self)
        ensures
            r.wf(),
            r@ == Map::<Seq<char>, Seq<char>>::empty(),
    {
        let r = WifiPasswords { entries: Vec::new() };
        assert(entries_view(r.entries@).len() == 0);
        r
    }

    /// The number of networks in the map.
    pub fn len(&self) -> (r: usize)
        requires
            self.wf(),
        ensures
            r == self@.len(),
    {
        proof {
            lemma_entries_len(entries_view(self.entries@));
        }
        self.entries.len()
    }

    /// The name and secret at position `i`, in the order the names first
    /// came in.
    pub fn entry(&self, i: usize) -> (r: (&String, &String))
        requires
            self.wf(),
            i < self@.len(),
        ensures
            self@.contains_key(r.0@),
            self@[r.0@] == r.1@,
    {
        proof {
            lemma_entries_len(entries_view(self.entries@));
            lemma_entries_lookup(entries_view(self.entries@), i as int);
        }
        let e = &self.entries[i];
        (&e.0, &e.1)
    }

    /// The secret stored for `name`, if any.
    pub fn get(&self, name: &String) -> (r: Option<String>)
        requires
            self.wf(),
        ensures
            match r {
                Some(s) => self@.contains_key(name@) && self@[name@] == s@,
                None => !self@.contains_key(name@),
            },
    {
        proof {
            lemma_entries_dom(entries_view(self.entries@));
        }
        let mut i: usize = 0;
        while i < self.entries.len()
            invariant
                0 <= i <= self.entries@.len(),
                keys_unique(entries_view(self.entries@)),
                forall|j: int| 0 <= j < i ==> self.entries@[j].0@ != name@,
            decreases self.entries@.len() - i,
        {
            if self.entries[i].0 == *name {
                proof {
                    lemma_entries_lookup(entries_view(self.entries@), i as int);
                }
                return Some(self.entries[i].1.clone());
            }
            i = i + 1;
        }
        proof {
            let s = entries_view(self.entries@);
            if self@.contains_key(name@) {
                let j = choose|j: int| 0 <= j < s.len() && s[j].0 == name@;
                assert(self.entries@[j].0@ == name@);
            }
        }
        None
    }

    /// Stores `secret` under `name`, replacing any earlier secret for it.
    pub fn insert(&mut self, name: String, secret: String)
        requires
            old(self).wf(),
        ensures
            final(self).wf(),
            final(self)@ == old(self)@.insert(name@, secret@),
    {
        proof {
        }
        let ghost s0 = entries_view(self.entries@);
        let mut i: usize = 0;
        while i < self.entries.len()
            invariant
                0 <= i <= self.entries@.len(),
                s0 == entries_view(self.entries@),
                self.entries@ == old(self).entries@,
                keys_unique(s0),
                forall|j: int| 0 <= j < i ==> self.entries@[j].0@ != name@,
            decreases self.entries@.len() - i,
        {
            if self.entries[i].0 == name {
                proof {
                    assert(s0[i as int].0 == name@);
                    lemma_entries_update(s0, i as int, secret@);
                }
                self.entries.set(i, (name, secret));
                assert(entries_view(self.entries@) =~= s0.update(i as int, (s0[i as int].0, secret@)));
                assert(keys_unique(entries_view(self.entries@))) by {
                    let s1 = entries_view(self.entries@);
                    assert forall|a: int, b: int| 0 <= a < s1.len() && 0 <= b < s1.len() && a != b implies s1[a].0 != s1[b].0 by {
                        assert(s1[a].0 == s0[a].0 && s1[b].0 == s0[b].0);
                    }
                }
                return;
            }
            i = i + 1;
        }
        self.entries.push((name, secret));
        let ghost s1 = entries_view(self.entries@);
        assert(s1.drop_last() =~= s0);
        assert(keys_unique(s1)) by {
            assert forall|a: int, b: int| 0 <= a < s1.len() && 0 <= b < s1.len() && a != b implies s1[a].0 != s1[b].0 by {
                if a < s0.len() && b < s0.len() {
                    assert(s1[a] == s0[a] && s1[b] == s0[b]);
                } else if a < s0.len() {
                    assert(self.entries@[a].0@ != name@);
                } else {
                    assert(self.entries@[b].0@ != name@);
                }
            }
        }
    }

    /// Adds a record's secret under its network name; a record without a
    /// secret leaves the map as it is.
    pub fn add_record(&mut self, rec: CredentialRecord)
        requires
            old(self).wf(),
        ensures
            final(self).wf(),
            final(self)@ == add_record_spec(old(self)@, rec@),
    {
        match rec.secret {
            Some(secret) => self.insert(rec.network_name, secret),
            None => {},
        }
    }
}

} // verus!
