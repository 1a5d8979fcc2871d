//! A snapshot of the daemon's proxy map: proxies keyed by their names.

use vstd::prelude::*;
use vstd::string::StringExecFns;

use crate::model::{Proxy, ProxyView};

verus! {

/// No two entries carry the same name.
pub open spec fn names_distinct(entries: Seq<ProxyView>) -> bool {
    forall|i: int, j: int| 0 <= i < j < entries.len() ==> entries[i].name != entries[j].name
}

/// Some entry carries the name.
pub open spec fn has_name(entries: Seq<ProxyView>, name: Seq<char>) -> bool {
    exists|i: int| 0 <= i < entries.len() && #[trigger] entries[i].name == name
}

/// The place of an entry that carries the name.
pub open spec fn index_of(entries: Seq<ProxyView>, name: Seq<char>) -> int {
    choose|i: int| 0 <= i < entries.len() && #[trigger] entries[i].name == name
}

/// The entry that carries the name, where there is one.
pub open spec fn entry(entries: Seq<ProxyView>, name: Seq<char>) -> ProxyView {
    entries[index_of(entries, name)]
}

/// The entries after a proxy was put in: it takes the place of the entry of
/// its name, or the last place where no entry had that name.
pub open spec fn inserted(entries: Seq<ProxyView>, proxy: ProxyView) -> Seq<ProxyView> {
    if has_name(entries, proxy.name) {
        entries.update(index_of(entries, proxy.name), proxy)
    } else {
        entries.push(proxy)
    }
}

/// In a list of distinct names an entry is found at its own place.
pub proof fn lemma_index_of_unique(entries: Seq<ProxyView>, i: int)
    requires
        names_distinct(entries),
        0 <= i < entries.len(),
    ensures
        has_name(entries, entries[i].name),
        index_of(entries, entries[i].name) == i,
        entry(entries, entries[i].name) == entries[i],
{
    let name = entries[i].name;
    assert(entries[i].name == name);
    let j = index_of(entries, name);
    assert(0 <= j < entries.len() && entries[j].name == name);
    if j != i {
        if j < i {
            assert(entries[j].name != entries[i].name);
        } else {
            assert(entries[i].name != entries[j].name);
        }
    }
}

/// The proxies of one reply of the daemon, each under its own name, in the
/// order in which they were put in.
pub struct ProxySnapshot {
    entries: Vec<Proxy>,
}

impl ProxySnapshot {
    /// The entries in order.
    pub closed spec fn view(&self) -> Seq<ProxyView> {
        self.entries.deep_view()
    }

    /// The invariant of the type: the names are distinct.
    pub open spec fn wf(&self) -> bool {
        names_distinct(self@)
    }

    /// An empty one.
    pub fn new() -> (r: Self)
        ensures
            r.wf(),
            r@ == Seq::<ProxyView>::empty(),
    {
        let r = ProxySnapshot { entries: Vec::new() };
        assert(r@ =~= Seq::<ProxyView>::empty());
        r
    }

    /// The number of entries.
    pub fn len(&self) -> (n: usize)
        ensures
            n == self@.len(),
    {
        self.entries.len()
    }

    /// The proxy at a place.
    pub fn entry_at(&self, i: usize) -> (r: &Proxy)
        requires
            i < self@.len(),
        ensures
            r.deep_view() == self@[i as int],
    {
        &self.entries[i]
    }

    /// The first place that holds the name.
    pub fn position(&self, name: &String) -> (r: Option<usize>)
        ensures
            match r {
                Some(i) => i < self@.len() && self@[i as int].name == name@ && forall|k: int|
                    0 <= k < i ==> self@[k].name != name@,
                None => !has_name(self@, name@),
            },
    {
        let mut i: usize = 0;
        while i < self.entries.len()
            invariant
                i <= self.entries.len(),
                forall|k: int| 0 <= k < i ==> self@[k].name != name@,
            decreases self.entries.len() - i,
        {
            if self.entries[i].name == *name {
                return Some(i);
            }
            i += 1;
        }
        None
    }

    /// The proxy of that name.
    pub fn get(&self, name: &str) -> (r: Option<&Proxy>)
        requires
            self.wf(),
        ensures
            r is Some <==> has_name(self@, name@),
            r is Some ==> r.unwrap().deep_view() == entry(self@, name@),
    {
        let key = String::from_str(name);
        match self.position(&key) {
            Some(i) => {
                proof {
                    lemma_index_of_unique(self@, i as int);
                }
                Some(&self.entries[i])
            },
            None => None,
        }
    }

    /// Puts a proxy in under its name, in place of the entry of that name if
    /// there is one.
    pub fn insert(&mut self, proxy: Proxy)
        requires
            old(self).wf(),
        ensures
            final(self).wf(),
            final(self)@ == inserted(old(self)@, proxy.deep_view()),
    {
        let ghost before = self@;
        let ghost added = proxy.deep_view();
        match self.position(&proxy.name) {
            Some(i) => {
                proof {
                    lemma_index_of_unique(before, i as int);
                }
                self.entries.set(i, proxy);
                assert(self@ =~= before.update(i as int, added));
            },
            None => {
                self.entries.push(proxy);
                assert(self@ =~= before.push(added));
            },
        }
    }

    /// The snapshot that holds the proxies of a list, put in one by one.
    pub fn from_entries(proxies: Vec<Proxy>) -> (r: Self)
        ensures
            r.wf(),
            r@ == collected(proxies.deep_view()),
    {
        let mut out = ProxySnapshot::new();
        let mut i: usize = 0;
        while i < proxies.len()
            invariant
                i <= proxies.len(),
                out.wf(),
                out@ == collected(proxies.deep_view().take(i as int)),
            decreases proxies.len() - i,
        {
            let ghost all = proxies.deep_view();
            assert(all.take(i + 1).drop_last() =~= all.take(i as int));
            out.insert(proxies[i].clone());
            i += 1;
        }
        assert(proxies.deep_view().take(i as int) =~= proxies.deep_view());
        out
    }
}

/// The entries that a list of proxies leaves when they are put in one by one.
pub open spec fn collected(proxies: Seq<ProxyView>) -> Seq<ProxyView>
    decreases proxies.len(),
{
    if proxies.len() == 0 {
        Seq::empty()
    } else {
        inserted(collected(proxies.drop_last()), proxies.last())
    }
}

} // verus!
