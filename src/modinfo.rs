//! Kernel-module metadata: a payload of NUL-terminated `key=value` strings.

use vstd::prelude::*;
use vstd::string::StringSliceAdditionalSpecFns;
use crate::elfio::Elfio;
use crate::utils::{bytes_equal, copy_range};
use crate::section::ElfSection;
use crate::strings::{lemma_string_len_bounds, str_from_u8_nul, string_at, string_len_from, text_from_bytes, utf8_lossy};
use crate::types::ElfXword;

verus! {

/// The non-empty NUL-terminated runs of `d` from `i` on, in order.
pub open spec fn runs_from(d: Seq<u8>, i: int) -> Seq<Seq<u8>>
    decreases d.len() - i,
{
    if i < 0 || i >= d.len() {
        Seq::empty()
    } else if d[i] == 0 {
        runs_from(d, i + 1)
    } else if i + string_len_from(d, i) + 1 > d.len() {
        seq![string_at(d, i)]
    } else {
        proof {
            lemma_string_len_bounds(d, i);
        }
        seq![string_at(d, i)] + runs_from(d, i + string_len_from(d, i) + 1)
    }
}

/// Index of the first `=` of `r` at or after `k`, or -1.
pub open spec fn eq_from(r: Seq<u8>, k: int) -> int
    decreases r.len() - k,
{
    if k < 0 || k >= r.len() {
        -1
    } else if r[k] == 0x3D {
        k
    } else {
        eq_from(r, k + 1)
    }
}

/// A run split at its first `=` into key and value; none without an `=`.
pub open spec fn entry_of(r: Seq<u8>) -> Option<(Seq<u8>, Seq<u8>)> {
    let k = eq_from(r, 0);
    if k < 0 {
        None
    } else {
        Some((r.subrange(0, k), r.subrange(k + 1, r.len() as int)))
    }
}

/// Index of the last entry of `es` with key `k`, or -1.
pub open spec fn key_index(es: Seq<(Seq<u8>, Seq<u8>)>, k: Seq<u8>) -> int
    decreases es.len(),
{
    if es.len() == 0 {
        -1
    } else if es.last().0 == k {
        es.len() - 1
    } else {
        key_index(es.drop_last(), k)
    }
}

/// `es` with the value of key `k` set to `v`: replaced in place when the
/// key is there, appended otherwise.
pub open spec fn upsert(es: Seq<(Seq<u8>, Seq<u8>)>, k: Seq<u8>, v: Seq<u8>) -> Seq<(Seq<u8>, Seq<u8>)> {
    let j = key_index(es, k);
    if j >= 0 {
        es.update(j, (k, v))
    } else {
        es.push((k, v))
    }
}

/// The key/value entries of the runs, in order of first appearance of each
/// key, the last value of a key winning.
pub open spec fn modinfo_entries(runs: Seq<Seq<u8>>) -> Seq<(Seq<u8>, Seq<u8>)>
    decreases runs.len(),
{
    if runs.len() == 0 {
        Seq::empty()
    } else {
        let es = modinfo_entries(runs.drop_last());
        match entry_of(runs.last()) {
            None => es,
            Some(kv) => upsert(es, kv.0, kv.1),
        }
    }
}

/// The view of stored entries as byte sequences.
pub open spec fn entries_view(c: Seq<(Vec<u8>, Vec<u8>)>) -> Seq<(Seq<u8>, Seq<u8>)> {
    c.map_values(|e: (Vec<u8>, Vec<u8>)| (e.0@, e.1@))
}

/// Position of the last entry with key `key`.
fn find_key(content: &Vec<(Vec<u8>, Vec<u8>)>, key: &[u8]) -> (r: Option<usize>)
    ensures
        match r {
            Some(j) => key_index(entries_view(content@), key@) == j && j < content@.len(),
            None => key_index(entries_view(content@), key@) == -1,
        },
{
    let ghost es = entries_view(content@);
    let mut j: usize = content.len();
    assert(es.subrange(0, j as int) =~= es);
    while j > 0
        invariant
            j <= content@.len(),
            es == entries_view(content@),
            key_index(es, key@) == key_index(es.subrange(0, j as int), key@),
        decreases j,
    {
        let ghost sub = es.subrange(0, j as int);
        if bytes_equal(content[j - 1].0.as_slice(), key) {
            assert(sub.last().0 == key@);
            return Some(j - 1);
        }
        assert(sub.drop_last() =~= es.subrange(0, j - 1));
        j = j - 1;
    }
    assert(es.subrange(0, 0) =~= Seq::<(Seq<u8>, Seq<u8>)>::empty());
    None
}

/// Index of the first `=` in `r`.
fn find_eq(r: &[u8]) -> (k: Option<usize>)
    ensures
        match k {
            Some(k) => eq_from(r@, 0) == k && k < r@.len(),
            None => eq_from(r@, 0) == -1,
        },
{
    let mut k: usize = 0;
    while k < r.len()
        invariant
            k <= r@.len(),
            eq_from(r@, 0) == eq_from(r@, k as int),
        decreases r@.len() - k,
    {
        if r[k] == 0x3D {
            return Some(k);
        }
        k = k + 1;
    }
    None
}

/// A modinfo view of a section: its `key=value` entries.
pub struct ModInfoSectionAccessor<'a> {
    elfio: &'a Elfio,
    section: &'a ElfSection,
    content: Vec<(Vec<u8>, Vec<u8>)>,
}

impl<'a> ModInfoSectionAccessor<'a> {
    /// The file the section belongs to.
    pub closed spec fn elfio(&self) -> &'a Elfio {
        self.elfio
    }

    /// The modinfo section.
    pub closed spec fn section(&self) -> &'a ElfSection {
        self.section
    }

    /// The entries, keys unique, in order of first appearance.
    pub closed spec fn entries(&self) -> Seq<(Seq<u8>, Seq<u8>)> {
        entries_view(self.content@)
    }

    /// Creates a new instance of the modinfo accessor and reads the entries:
    /// runs without an `=` are skipped.
    pub fn new(elfio: &'a Elfio, section: &'a ElfSection) -> (r: ModInfoSectionAccessor<'a>)
        ensures
            r.elfio() == elfio,
            r.section() == section,
            r.entries() == modinfo_entries(runs_from(section.data@, 0)),
    {
        let d = section.data.as_slice();
        let len = d.len();
        let mut content: Vec<(Vec<u8>, Vec<u8>)> = Vec::new();
        let ghost all = runs_from(d@, 0);
        let ghost consumed: Seq<Seq<u8>> = Seq::empty();
        let mut i: usize = 0;
        while i < len
            invariant
                d@ == section.data@,
                len == d@.len(),
                i <= len,
                all == runs_from(d@, 0),
                all == consumed + runs_from(d@, i as int),
                entries_view(content@) == modinfo_entries(consumed),
            decreases len - i,
        {
            if d[i] == 0 {
                i = i + 1;
                continue;
            }
            let run = str_from_u8_nul(d, i);
            proof {
                lemma_string_len_bounds(d@, i as int);
                let next = i + string_len_from(d@, i as int) + 1;
                if next > len {
                    assert(runs_from(d@, i as int) == seq![run@]);
                } else {
                    assert(runs_from(d@, i as int) == seq![run@] + runs_from(d@, next));
                }
                assert(all =~= consumed.push(run@) + runs_from(d@, next));
                assert(consumed.push(run@).drop_last() =~= consumed);
                consumed = consumed.push(run@);
            }
            match find_eq(run.as_slice()) {
                None => {},
                Some(k) => {
                    let key = copy_range(run.as_slice(), 0, k);
                    let value = copy_range(run.as_slice(), k + 1, run.len());
                    let ghost before = entries_view(content@);
                    match find_key(&content, key.as_slice()) {
                        Some(j) => {
                            let ghost kv = (key@, value@);
                            content.set(j, (key, value));
                            assert(entries_view(content@) =~= before.update(j as int, kv));
                        },
                        None => {
                            let ghost kv = (key@, value@);
                            content.push((key, value));
                            assert(entries_view(content@) =~= before.push(kv));
                        },
                    }
                },
            }
            if run.len() >= len - i {
                i = len;
            } else {
                i = i + run.len() + 1;
            }
        }
        proof {
            assert(runs_from(d@, i as int) =~= Seq::<Seq<u8>>::empty());
            assert(all =~= consumed);
        }
        ModInfoSectionAccessor { elfio, section, content }
    }

    /// Returns the number of modinfo entries.
    pub fn get_entries_num(&self) -> (r: ElfXword)
        ensures
            r == self.entries().len(),
    {
        self.content.len() as u64
    }

    /// All entries as (key, value) byte runs, in order of first appearance.
    pub fn get_iter(&self) -> (r: &[(Vec<u8>, Vec<u8>)])
        ensures
            entries_view(r@) == self.entries(),
    {
        self.content.as_slice()
    }

    /// Retrieve the value of key `field`.
    pub fn get(&self, field: &str) -> (r: Option<String>)
        ensures
            key_index(self.entries(), field.spec_bytes()) < 0 ==> r is None,
            key_index(self.entries(), field.spec_bytes()) >= 0 ==> (r matches Some(v) && v@
                == utf8_lossy(self.entries()[key_index(self.entries(), field.spec_bytes())].1)),
    {
        match find_key(&self.content, field.as_bytes()) {
            None => None,
            Some(j) => {
                let v = &self.content[j];
                assert(self.entries()[j as int] == (v.0@, v.1@));
                Some(text_from_bytes(v.1.as_slice()))
            },
        }
    }
}

} // verus!
