//! Ordered directory snapshots.
//!
//! A snapshot is the list of entries of one directory, with a synthetic
//! parent entry (named `..`) first whenever a parent path exists, then
//! directories before files, and entries of the same kind ordered by
//! their lowercased name. The shell reads the directory and hands the
//! raw entries in; everything from there — injecting the parent entry,
//! ordering, selection lookup — is verified here.

use vstd::multiset::Multiset;
use vstd::prelude::*;
use vstd::std_specs::iter::IteratorSpec;

verus! {

/// One entry of a directory snapshot: display name, absolute path,
/// whether it is a plain file, and its size in bytes.
#[derive(Debug, Clone)]
pub struct FileEntry {
    pub name: String,
    pub path: String,
    pub is_file: bool,
    pub size: u64,
}

/// The name of the synthetic parent entry.
pub open spec fn parent_name() -> Seq<char> {
    seq!['.', '.']
}

/// Lexicographic order on character sequences, by code point.
pub open spec fn lex_le(a: Seq<char>, b: Seq<char>) -> bool
    decreases a.len(),
{
    if a.len() == 0 {
        true
    } else if b.len() == 0 {
        false
    } else if a[0] as u32 == b[0] as u32 {
        lex_le(a.drop_first(), b.drop_first())
    } else {
        (a[0] as u32) < (b[0] as u32)
    }
}

pub proof fn lemma_lex_le_total(a: Seq<char>, b: Seq<char>)
    ensures
        lex_le(a, b) || lex_le(b, a),
    decreases a.len(),
{
    if a.len() > 0 && b.len() > 0 && a[0] as u32 == b[0] as u32 {
        lemma_lex_le_total(a.drop_first(), b.drop_first());
    }
}

pub proof fn lemma_lex_le_trans(a: Seq<char>, b: Seq<char>, c: Seq<char>)
    requires
        lex_le(a, b),
        lex_le(b, c),
    ensures
        lex_le(a, c),
    decreases a.len(),
{
    if a.len() > 0 && b.len() > 0 && c.len() > 0 && a[0] as u32 == b[0] as u32 && b[0] as u32
        == c[0] as u32 {
        lemma_lex_le_trans(a.drop_first(), b.drop_first(), c.drop_first());
    }
}

/// What `str::to_lowercase` returns: a function of the characters alone.
pub uninterp spec fn lower_of(s: Seq<char>) -> Seq<char>;

/// Relies on str::to_lowercase: the lowercased text depends on the
/// input characters alone, the same on every machine.
#[verifier::external_body]
fn to_lower(s: &str) -> (r: String)
    ensures
        r@ == lower_of(s@),
{
    s.to_lowercase()
}

/// The characters of the string, in order, as a vector.
fn chars_of(s: &str) -> (r: Vec<char>)
    ensures
        r@ == s@,
{
    broadcast use vstd::string::axiom_spec_iter;
    broadcast use vstd::string::next_postcondition;

    let mut it = s.chars();
    let mut r: Vec<char> = Vec::new();
    loop
        invariant_except_break
            it.obeys_prophetic_iter_laws(),
            it.decrease() is Some,
            r@ + it.remaining() == s@,
        ensures
            r@ == s@,
        decreases it.decrease()->0,
    {
        let c = it.next();
        match c {
            Some(ch) => {
                r.push(ch);
            },
            None => {
                proof {
                    assert(r@ + it.remaining() =~= r@);
                }
                break;
            },
        }
    }
    r
}

/// Lexicographic comparison of two character vectors.
fn chars_le(a: &Vec<char>, b: &Vec<char>) -> (r: bool)
    ensures
        r == lex_le(a@, b@),
{
    let mut i: usize = 0;
    proof {
        assert(a@.skip(0) =~= a@);
        assert(b@.skip(0) =~= b@);
    }
    loop
        invariant
            i <= a.len(),
            i <= b.len(),
            lex_le(a@, b@) == lex_le(a@.skip(i as int), b@.skip(i as int)),
        decreases a.len() - i,
    {
        if i == a.len() {
            return true;
        }
        if i == b.len() {
            return false;
        }
        let x = a[i];
        let y = b[i];
        if (x as u32) == (y as u32) {
            proof {
                assert(a@.skip(i as int).drop_first() =~= a@.skip(i as int + 1));
                assert(b@.skip(i as int).drop_first() =~= b@.skip(i as int + 1));
            }
            i = i + 1;
        } else {
            return (x as u32) < (y as u32);
        }
    }
}

/// Whether this name is the synthetic parent entry's name.
fn is_parent_name(s: &String) -> (r: bool)
    ensures
        r == (s@ == parent_name()),
{
    let v = chars_of(s.as_str());
    if v.len() == 2 {
        let r = v[0] == '.' && v[1] == '.';
        proof {
            if r {
                assert(s@ =~= parent_name());
            }
            if s@ == parent_name() {
                assert(v@[0] == '.' && v@[1] == '.');
            }
        }
        r
    } else {
        false
    }
}

/// The snapshot order: the parent entry first, then directories before
/// files, then by lowercased name.
pub open spec fn entry_le(a: FileEntry, b: FileEntry) -> bool {
    if a.name@ == parent_name() {
        true
    } else if b.name@ == parent_name() {
        false
    } else if a.is_file != b.is_file {
        !a.is_file
    } else {
        lex_le(lower_of(a.name@), lower_of(b.name@))
    }
}

pub proof fn lemma_entry_le_total(a: FileEntry, b: FileEntry)
    ensures
        entry_le(a, b) || entry_le(b, a),
{
    lemma_lex_le_total(lower_of(a.name@), lower_of(b.name@));
}

pub proof fn lemma_entry_le_trans(a: FileEntry, b: FileEntry, c: FileEntry)
    requires
        entry_le(a, b),
        entry_le(b, c),
    ensures
        entry_le(a, c),
{
    if a.name@ != parent_name() && b.name@ != parent_name() && c.name@ != parent_name()
        && a.is_file == b.is_file && b.is_file == c.is_file {
        lemma_lex_le_trans(lower_of(a.name@), lower_of(b.name@), lower_of(c.name@));
    }
}

/// The executable snapshot order.
fn entry_le_exec(a: &FileEntry, b: &FileEntry) -> (r: bool)
    ensures
        r == entry_le(*a, *b),
{
    if is_parent_name(&a.name) {
        true
    } else if is_parent_name(&b.name) {
        false
    } else if a.is_file != b.is_file {
        !a.is_file
    } else {
        let la = to_lower(a.name.as_str());
        let lb = to_lower(b.name.as_str());
        let va = chars_of(la.as_str());
        let vb = chars_of(lb.as_str());
        chars_le(&va, &vb)
    }
}

/// A sequence in snapshot order.
pub open spec fn sorted_entries(s: Seq<FileEntry>) -> bool {
    forall|i: int, j: int| 0 <= i < j < s.len() ==> entry_le(s[i], s[j])
}

proof fn lemma_to_multiset_insert(s: Seq<FileEntry>, pos: int, e: FileEntry)
    requires
        0 <= pos <= s.len(),
    ensures
        s.insert(pos, e).to_multiset() =~= s.to_multiset().insert(e),
{
    broadcast use vstd::seq_lib::group_to_multiset_ensures;
    broadcast use vstd::multiset::group_multiset_axioms;

    let t = s.insert(pos, e);
    assert(t.remove(pos) =~= s);
    assert(t[pos] == e);
    assert(t.contains(e));
    assert(t.remove(pos).to_multiset() =~= t.to_multiset().remove(t[pos]));
}

/// Insert one entry into an already ordered vector, keeping it ordered.
fn insert_sorted(out: &mut Vec<FileEntry>, e: FileEntry)
    requires
        sorted_entries(old(out)@),
    ensures
        sorted_entries(final(out)@),
        final(out)@.to_multiset() == old(out)@.to_multiset().insert(e),
        final(out)@.len() == old(out)@.len() + 1,
{
    let ghost e0 = e;
    let mut pos: usize = 0;
    loop
        invariant_except_break
            pos <= out.len(),
            forall|k: int| 0 <= k < pos ==> entry_le(out@[k], e0),
            sorted_entries(out@),
            out@ == old(out)@,
            e == e0,
        ensures
            pos <= out.len(),
            forall|k: int| 0 <= k < pos ==> entry_le(out@[k], e0),
            pos < out.len() ==> !entry_le(out@[pos as int], e0),
            sorted_entries(out@),
            out@ == old(out)@,
            e == e0,
        decreases out.len() - pos,
    {
        if pos == out.len() {
            break;
        }
        if entry_le_exec(&out[pos], &e) {
            pos = pos + 1;
        } else {
            break;
        }
    }
    proof {
        if pos < out@.len() {
            lemma_entry_le_total(out@[pos as int], e0);
            assert forall|k: int| pos <= k < out@.len() implies entry_le(e0, out@[k]) by {
                if k > pos {
                    lemma_entry_le_trans(e0, out@[pos as int], out@[k]);
                }
            }
        }
        lemma_to_multiset_insert(out@, pos as int, e0);
    }
    out.insert(pos, e);
}

/// Order a vector of entries by the snapshot order. The result holds
/// exactly the entries that went in.
pub fn sort_entries(v: &mut Vec<FileEntry>)
    ensures
        sorted_entries(final(v)@),
        final(v)@.to_multiset() == old(v)@.to_multiset(),
        final(v)@.len() == old(v)@.len(),
{
    broadcast use vstd::seq_lib::group_to_multiset_ensures;

    let mut out: Vec<FileEntry> = Vec::new();
    proof {
        assert(out@.to_multiset().add(v@.to_multiset()) =~= old(v)@.to_multiset());
    }
    loop
        invariant_except_break
            sorted_entries(out@),
            out@.to_multiset().add(v@.to_multiset()) == old(v)@.to_multiset(),
            out@.len() + v@.len() == old(v)@.len(),
        ensures
            sorted_entries(out@),
            out@.to_multiset().add(v@.to_multiset()) == old(v)@.to_multiset(),
            out@.len() + v@.len() == old(v)@.len(),
            v@.len() == 0,
        decreases v@.len(),
    {
        let ghost prev = v@;
        let ghost out_prev = out@;
        let popped = v.pop();
        match popped {
            Some(e) => {
                proof {
                    broadcast use vstd::multiset::group_multiset_axioms;
                    broadcast use vstd::seq_lib::group_to_multiset_ensures;

                    assert(prev.len() > 0);
                    assert(prev[prev.len() - 1] == prev.last());
                    assert(v@ =~= prev.remove(prev.len() - 1));
                    assert(prev.remove(prev.len() - 1).to_multiset() =~= prev.to_multiset().remove(
                        prev.last(),
                    ));
                    assert(prev.to_multiset().count(prev.last()) > 0);
                }
                insert_sorted(&mut out, e);
                proof {
                    broadcast use vstd::multiset::group_multiset_axioms;
                    broadcast use vstd::seq_lib::group_to_multiset_ensures;

                    assert(out@.to_multiset().add(v@.to_multiset()) =~= out_prev.to_multiset().add(
                        prev.to_multiset(),
                    ));
                }
            },
            None => {
                break;
            },
        }
    }
    proof {
        broadcast use vstd::multiset::group_multiset_axioms;
        broadcast use vstd::multiset::lemma_multiset_empty_len;
        broadcast use vstd::seq_lib::group_to_multiset_ensures;

        assert(v@.to_multiset().len() == 0);
        assert(v@.to_multiset() =~= Multiset::<FileEntry>::empty());
        assert(out@.to_multiset().add(v@.to_multiset()) =~= out@.to_multiset());
    }
    *v = out;
}

/// The executable name of the synthetic parent entry.
fn parent_label() -> (r: String)
    ensures
        r@ == parent_name(),
{
    let r = "..".to_owned();
    proof {
        reveal_strlit("..");
        assert(r@ =~= parent_name());
    }
    r
}

/// The active directory snapshot: its path and its ordered entries.
pub struct FileManager {
    pub entries: Vec<FileEntry>,
    pub current_path: String,
}

impl FileManager {
    /// Build the snapshot for `path` from the raw directory listing:
    /// inject the synthetic parent entry when a parent path exists, then
    /// order everything by the snapshot order. The result holds exactly
    /// the listed entries, plus the parent entry first when one exists.
    pub fn new(path: String, parent: Option<String>, listing: Vec<FileEntry>) -> (r: FileManager)
        requires
            forall|k: int| 0 <= k < listing@.len() ==> (#[trigger] listing@[k].name)@
                != parent_name(),
        ensures
            r.current_path@ == path@,
            sorted_entries(r.entries@),
            parent is None ==> r.entries@.to_multiset() == listing@.to_multiset()
                && r.entries@.len() == listing@.len(),
            parent matches Some(p) ==> r.entries@.len() == listing@.len() + 1
                && r.entries@[0].name@ == parent_name() && r.entries@[0].path@ == p@
                && r.entries@[0].is_file == false && r.entries@[0].size == 0 && r.entries@.remove(
                0,
            ).to_multiset() == listing@.to_multiset(),
    {
        let mut entries = listing;
        let ghost listing0 = entries@;
        match parent {
            Some(p) => {
                let pe = FileEntry { name: parent_label(), path: p, is_file: false, size: 0 };
                let ghost pe0 = pe;
                entries.push(pe);
                proof {
                    broadcast use vstd::seq_lib::group_to_multiset_ensures;

                    assert(entries@.to_multiset() =~= listing0.to_multiset().insert(pe0));
                }
                sort_entries(&mut entries);
                proof {
                    broadcast use vstd::seq_lib::group_to_multiset_ensures;
                    broadcast use vstd::multiset::group_multiset_axioms;

                    let s = entries@;
                    assert(s.to_multiset().count(pe0) > 0);
                    assert(s.contains(pe0));
                    let k = choose|k: int| 0 <= k < s.len() && s[k] == pe0;
                    assert(entry_le(s[0], s[k]) || k == 0);
                    assert(s[0].name@ == parent_name());
                    assert(s.contains(s[0]));
                    assert(s.to_multiset().count(s[0]) > 0);
                    if s[0] != pe0 {
                        assert(listing0.to_multiset().count(s[0]) > 0);
                        assert(listing0.contains(s[0]));
                        let j = choose|j: int| 0 <= j < listing0.len() && listing0[j] == s[0];
                        assert(listing0[j].name@ != parent_name());
                        assert(false);
                    }
                    assert(s.remove(0).to_multiset() =~= s.to_multiset().remove(s[0]));
                    assert(s.remove(0).to_multiset() =~= listing0.to_multiset());
                }
                FileManager { entries, current_path: path }
            },
            None => {
                sort_entries(&mut entries);
                FileManager { entries, current_path: path }
            },
        }
    }

    /// The entry at `index`, if the snapshot has one there.
    pub fn get_selected(&self, index: usize) -> (r: Option<&FileEntry>)
        ensures
            match r {
                Some(e) => index < self.entries@.len() && *e == self.entries@[index as int],
                None => index >= self.entries@.len(),
            },
    {
        if index < self.entries.len() {
            Some(&self.entries[index])
        } else {
            None
        }
    }
}

} // verus!
