//! The table of live external-buffer images.
//!
//! The table maps an image id to its import state: a descriptor still
//! waiting for import, or the finished imported texture. It is the shared
//! resource that both the import step and the per-frame ownership-transfer
//! step read; here it is an explicitly passed service object rather than
//! ambient state. Every operation is specified against the table's
//! mathematical value, a map from id to state, so that one image's failure
//! or removal provably leaves every other image untouched.

use vstd::prelude::*;

use crate::dmatex::{Dmatex, DmatexUsage};
use crate::error::ImportError;
use crate::import::ImportedTexture;

verus! {

/// The import state of one tracked image.
#[derive(Debug)]
pub enum DmaImage {
    /// Handed over by the producer, not yet imported.
    UnImported(Dmatex, DmatexUsage),
    /// Imported; the renderer may use it once acquired.
    Imported(ImportedTexture),
}

/// One table row: an image id and its state.
#[derive(Debug)]
pub struct TableEntry {
    pub id: u64,
    pub img: DmaImage,
}

/// No two rows carry the same id.
pub open spec fn unique_ids(s: Seq<TableEntry>) -> bool {
    forall|i: int, j: int| 0 <= i < j < s.len() ==> s[i].id != s[j].id
}

/// The map a row sequence denotes.
pub open spec fn entries_map(s: Seq<TableEntry>) -> Map<u64, DmaImage>
    decreases s.len(),
{
    if s.len() == 0 {
        Map::empty()
    } else {
        entries_map(s.drop_last()).insert(s.last().id, s.last().img)
    }
}

/// The imported textures a row sequence holds, in row order.
pub open spec fn imported_textures_of(s: Seq<TableEntry>) -> Seq<ImportedTexture>
    decreases s.len(),
{
    if s.len() == 0 {
        Seq::empty()
    } else {
        match s.last().img {
            DmaImage::Imported(t) => imported_textures_of(s.drop_last()).push(t),
            DmaImage::UnImported(_, _) => imported_textures_of(s.drop_last()),
        }
    }
}

proof fn lemma_entries_map_contains(s: Seq<TableEntry>, id: u64)
    ensures
        entries_map(s).dom().contains(id) <==> exists|k: int| 0 <= k < s.len() && s[k].id == id,
    decreases s.len(),
{
    if s.len() > 0 {
        let pre = s.drop_last();
        lemma_entries_map_contains(pre, id);
        if entries_map(s).dom().contains(id) {
            if id == s.last().id {
                assert(s[s.len() - 1].id == id);
            } else {
                let k = choose|k: int| 0 <= k < pre.len() && pre[k].id == id;
                assert(s[k].id == id);
            }
        }
        if exists|k: int| 0 <= k < s.len() && s[k].id == id {
            let k = choose|k: int| 0 <= k < s.len() && s[k].id == id;
            if k < s.len() - 1 {
                assert(pre[k].id == id);
            }
        }
    }
}

proof fn lemma_entries_map_value(s: Seq<TableEntry>, k: int)
    requires
        unique_ids(s),
        0 <= k < s.len(),
    ensures
        entries_map(s).dom().contains(s[k].id),
        entries_map(s)[s[k].id] == s[k].img,
    decreases s.len(),
{
    if k < s.len() - 1 {
        let pre = s.drop_last();
        assert(unique_ids(pre));
        lemma_entries_map_value(pre, k);
        assert(s.last().id != s[k].id);
        assert(pre[k] == s[k]);
    }
}

proof fn lemma_entries_map_remove(s: Seq<TableEntry>, k: int)
    requires
        unique_ids(s),
        0 <= k < s.len(),
    ensures
        entries_map(s.remove(k)) == entries_map(s).remove(s[k].id),
    decreases s.len(),
{
    let id = s[k].id;
    if k == s.len() - 1 {
        assert(s.remove(k) =~= s.drop_last());
        lemma_entries_map_contains(s.drop_last(), id);
        assert(forall|j: int| 0 <= j < s.len() - 1 ==> s.drop_last()[j] == s[j]);
        assert(!entries_map(s.drop_last()).dom().contains(id));
        assert(entries_map(s).remove(id) =~= entries_map(s.drop_last()));
    } else {
        let pre = s.drop_last();
        assert(unique_ids(pre));
        assert(pre[k] == s[k]);
        lemma_entries_map_remove(pre, k);
        let shorter = s.remove(k);
        assert(shorter.drop_last() =~= pre.remove(k));
        assert(shorter.last() == s.last());
        assert(entries_map(shorter) == entries_map(pre.remove(k)).insert(
            s.last().id,
            s.last().img,
        ));
        assert(s.last().id != id);
        assert(entries_map(pre).remove(id).insert(s.last().id, s.last().img) =~= entries_map(
            pre,
        ).insert(s.last().id, s.last().img).remove(id));
    }
}

/// Finds the row carrying an id.
fn find_index(entries: &Vec<TableEntry>, id: u64) -> (r: Option<usize>)
    ensures
        r matches Some(k) ==> k < entries@.len() && entries@[k as int].id == id,
        r is None ==> forall|k: int| 0 <= k < entries@.len() ==> entries@[k].id != id,
{
    let n = entries.len();
    let mut i: usize = 0;
    while i < n
        invariant
            n == entries@.len(),
            i <= n,
            forall|k: int| 0 <= k < i ==> entries@[k].id != id,
        decreases n - i,
    {
        if entries[i].id == id {
            return Some(i);
        }
        i += 1;
    }
    None
}

/// The table of live external-buffer images, keyed by image id.
///
/// Its mathematical value is the map from id to import state; every
/// operation says exactly which single key it touches.
#[derive(Debug)]
pub struct ImportedDmatexs {
    entries: Vec<TableEntry>,
}

impl View for ImportedDmatexs {
    type V = Map<u64, DmaImage>;

    closed spec fn view(&self) -> Map<u64, DmaImage> {
        entries_map(self.entries@)
    }
}

impl ImportedDmatexs {
    #[verifier::type_invariant]
    spec fn wf(self) -> bool {
        unique_ids(self.entries@)
    }

    /// The table rows, in insertion order.
    pub closed spec fn entries(&self) -> Seq<TableEntry> {
        self.entries@
    }

    /// An empty table.
    pub fn new() -> (r: ImportedDmatexs)
        ensures
            r@ == Map::<u64, DmaImage>::empty(),
            r.entries() == Seq::<TableEntry>::empty(),
    {
        ImportedDmatexs { entries: Vec::new() }
    }

    /// Removes the row carrying `id`, if any, from a row vector.
    fn take_out(entries: &mut Vec<TableEntry>, id: u64)
        requires
            unique_ids(old(entries)@),
        ensures
            unique_ids(final(entries)@),
            entries_map(final(entries)@) == entries_map(old(entries)@).remove(id),
            forall|k: int| 0 <= k < final(entries)@.len() ==> final(entries)@[k].id != id,
    {
        let ghost s0 = entries@;
        match find_index(entries, id) {
            Some(k) => {
                entries.remove(k);
                proof {
                    lemma_entries_map_remove(s0, k as int);
                    assert forall|j: int| 0 <= j < entries@.len() implies entries@[j].id
                        != id by {
                        if j < k {
                            assert(entries@[j] == s0[j]);
                        } else {
                            assert(entries@[j] == s0[j + 1]);
                        }
                    }
                }
            },
            None => {
                proof {
                    lemma_entries_map_contains(s0, id);
                    assert(entries_map(s0).remove(id) =~= entries_map(s0));
                }
            },
        }
    }

    /// Replaces whatever state `id` had with a new state.
    fn insert_value(&mut self, id: u64, img: DmaImage)
        ensures
            final(self)@ == old(self)@.insert(id, img),
    {
        proof {
            use_type_invariant(&*self);
        }
        let ghost m0 = self@;
        let mut entries: Vec<TableEntry> = Vec::new();
        core::mem::swap(&mut entries, &mut self.entries);
        Self::take_out(&mut entries, id);
        let ghost removed = entries@;
        entries.push(TableEntry { id, img });
        proof {
            assert(entries@.drop_last() =~= removed);
            assert(forall|j: int| 0 <= j < removed.len() ==> entries@[j] == removed[j]);
            assert(unique_ids(entries@));
            assert(entries_map(entries@) == entries_map(removed).insert(id, img));
            assert(m0.remove(id).insert(id, img) =~= m0.insert(id, img));
        }
        self.entries = entries;
    }

    /// Records a descriptor handed over by the producer: the image enters
    /// the table as waiting for import, and no other image changes.
    pub fn set(&mut self, id: u64, buf: Dmatex, usage: DmatexUsage)
        ensures
            final(self)@ == old(self)@.insert(id, DmaImage::UnImported(buf, usage)),
    {
        self.insert_value(id, DmaImage::UnImported(buf, usage));
    }

    /// Records a texture that was already imported elsewhere: the image
    /// enters the table as imported, and no other image changes.
    pub fn insert_imported_dmatex(&mut self, id: u64, tex: ImportedTexture)
        ensures
            final(self)@ == old(self)@.insert(id, DmaImage::Imported(tex)),
    {
        self.insert_value(id, DmaImage::Imported(tex));
    }

    /// Drops an image from the table; every other image keeps its state.
    pub fn remove(&mut self, id: u64)
        ensures
            final(self)@ == old(self)@.remove(id),
    {
        proof {
            use_type_invariant(&*self);
        }
        let mut entries: Vec<TableEntry> = Vec::new();
        core::mem::swap(&mut entries, &mut self.entries);
        Self::take_out(&mut entries, id);
        self.entries = entries;
    }

    /// Applies one import attempt's outcome to the table. Success stores
    /// the imported texture under the image's id; failure removes the
    /// image, and nothing else: the error is terminal for this image alone
    /// and latches no state for later, independent imports.
    pub fn resolve(&mut self, id: u64, result: Result<ImportedTexture, ImportError>) -> (r: Result<
        (),
        ImportError,
    >)
        ensures
            result matches Ok(tex) ==> final(self)@ == old(self)@.insert(
                id,
                DmaImage::Imported(tex),
            ) && r is Ok,
            result matches Err(e) ==> final(self)@ == old(self)@.remove(id) && r == Err::<
                (),
                ImportError,
            >(e),
    {
        match result {
            Ok(tex) => {
                self.insert_imported_dmatex(id, tex);
                Ok(())
            },
            Err(e) => {
                self.remove(id);
                Err(e)
            },
        }
    }

    /// The number of tracked images.
    pub fn len(&self) -> (r: usize)
        ensures
            r == self.entries().len(),
    {
        self.entries.len()
    }

    /// The imported texture stored under an id, if the id is tracked and
    /// already imported.
    pub fn imported_texture(&self, id: u64) -> (r: Option<ImportedTexture>)
        ensures
            r matches Some(t) ==> self@.dom().contains(id) && self@[id] == DmaImage::Imported(t),
            r is None ==> !self@.dom().contains(id) || !(self@[id] is Imported),
    {
        proof {
            use_type_invariant(&*self);
        }
        match find_index(&self.entries, id) {
            Some(k) => {
                proof {
                    lemma_entries_map_value(self.entries@, k as int);
                }
                match &self.entries[k].img {
                    DmaImage::Imported(t) => Some(*t),
                    DmaImage::UnImported(_, _) => None,
                }
            },
            None => {
                proof {
                    lemma_entries_map_contains(self.entries@, id);
                }
                None
            },
        }
    }

    /// Whether an id is tracked at all, imported or not.
    pub fn contains(&self, id: u64) -> (r: bool)
        ensures
            r == self@.dom().contains(id),
    {
        proof {
            use_type_invariant(&*self);
            lemma_entries_map_contains(self.entries@, id);
        }
        find_index(&self.entries, id).is_some()
    }

    /// Every imported texture in the table, in row order: the images a
    /// queue-ownership transfer must cover.
    pub fn imported_textures(&self) -> (r: Vec<ImportedTexture>)
        ensures
            r@ == imported_textures_of(self.entries()),
    {
        let mut out: Vec<ImportedTexture> = Vec::new();
        let n = self.entries.len();
        let mut i: usize = 0;
        while i < n
            invariant
                n == self.entries@.len(),
                i <= n,
                out@ == imported_textures_of(self.entries@.take(i as int)),
            decreases n - i,
        {
            proof {
                assert(self.entries@.take(i as int + 1).drop_last() =~= self.entries@.take(
                    i as int,
                ));
                assert(self.entries@.take(i as int + 1).last() == self.entries@[i as int]);
            }
            match &self.entries[i].img {
                DmaImage::Imported(t) => out.push(*t),
                DmaImage::UnImported(_, _) => {},
            }
            i += 1;
        }
        proof {
            assert(self.entries@.take(n as int) =~= self.entries@);
        }
        out
    }
}

/// Law: a failed import does not latch. Resolving one image's failure only
/// removes that image's own entry: every other id keeps exactly its prior
/// state, and a later import stored under another id lands with exactly
/// the state it was given.
pub proof fn lemma_failed_import_is_isolated(
    m: Map<u64, DmaImage>,
    failed: u64,
    other: u64,
    tex: ImportedTexture,
)
    requires
        other != failed,
    ensures
        m.remove(failed).dom().contains(other) == m.dom().contains(other),
        m.dom().contains(other) ==> m.remove(failed)[other] == m[other],
        m.remove(failed).insert(other, DmaImage::Imported(tex))[other] == DmaImage::Imported(tex),
{
}

} // verus!
