use vstd::prelude::*;

verus! {

/// A header entry as plain values: its name (lowercase bytes) and its value.
pub type Entry = (Seq<u8>, Seq<u8>);

/// One header line: a name, held in its lowercase form, and a value.
pub struct Header {
    pub name: Vec<u8>,
    pub value: Vec<u8>,
}

impl View for Header {
    type V = Entry;

    open spec fn view(&self) -> Entry {
        (self.name@, self.value@)
    }
}

/// An ordered collection of header lines; a name may occur more than once.
pub struct HeaderList {
    pub entries: Vec<Header>,
}

impl View for HeaderList {
    type V = Seq<Entry>;

    open spec fn view(&self) -> Seq<Entry> {
        self.entries@.map_values(|h: Header| h@)
    }
}

/// Whether some entry of `overlay` carries the name `name`.
pub open spec fn names(overlay: Seq<Entry>, name: Seq<u8>) -> bool {
    exists|j: int| 0 <= j < overlay.len() && #[trigger] overlay[j].0 == name
}

/// The entries of `base` whose name the overlay does not carry, in their order.
pub open spec fn kept(base: Seq<Entry>, overlay: Seq<Entry>) -> Seq<Entry>
    decreases base.len(),
{
    if base.len() == 0 {
        Seq::empty()
    } else {
        let rest = kept(base.drop_last(), overlay);
        if names(overlay, base.last().0) {
            rest
        } else {
            rest.push(base.last())
        }
    }
}

/// The merge rule of an overlay: every name that the overlay carries is taken
/// from the overlay alone, all of its values; the other entries of the base
/// stay, in their order, before the overlay's.
pub open spec fn merged(base: Seq<Entry>, overlay: Seq<Entry>) -> Seq<Entry> {
    kept(base, overlay) + overlay
}

/// An empty overlay leaves the base's headers as they are.
pub proof fn lemma_merge_empty(base: Seq<Entry>)
    ensures
        merged(base, Seq::empty()) == base,
    decreases base.len(),
{
    if base.len() > 0 {
        lemma_merge_empty(base.drop_last());
        assert(base.drop_last().push(base.last()) =~= base);
    }
    assert(merged(base, Seq::empty()) =~= base);
}

/// Whether an entry carries the name `name`.
pub open spec fn has_name(name: Seq<u8>) -> spec_fn(Entry) -> bool {
    |e: Entry| e.0 == name
}

proof fn lemma_none_named(s: Seq<Entry>, name: Seq<u8>)
    requires
        !names(s, name),
    ensures
        s.filter(has_name(name)) == Seq::<Entry>::empty(),
{
    let f = s.filter(has_name(name));
    if f.len() > 0 {
        s.lemma_filter_pred(has_name(name), 0);
        assert(f.contains(f[0]));
        s.lemma_filter_contains_rev(has_name(name), f[0]);
        let i = choose|i: int| 0 <= i < s.len() && s[i] == f[0];
        assert(s[i].0 == name);
    }
    assert(f =~= Seq::<Entry>::empty());
}

proof fn lemma_kept_named(base: Seq<Entry>, overlay: Seq<Entry>, name: Seq<u8>)
    ensures
        kept(base, overlay).filter(has_name(name)) == if names(overlay, name) {
            Seq::<Entry>::empty()
        } else {
            base.filter(has_name(name))
        },
    decreases base.len(),
{
    let p = has_name(name);
    if base.len() == 0 {
        reveal(Seq::filter);
        assert(kept(base, overlay).filter(p) =~= Seq::<Entry>::empty());
        assert(base.filter(p) =~= Seq::<Entry>::empty());
    } else {
        let init = base.drop_last();
        let l = base.last();
        lemma_kept_named(init, overlay, name);
        assert(init.push(l) =~= base);
        init.lemma_filter_push(l, p);
        let rest = kept(init, overlay);
        if !names(overlay, l.0) {
            rest.lemma_filter_push(l, p);
        }
    }
}

/// The merge rule by name: the entries of a name that the overlay carries are
/// the overlay's, all of them and in its order; those of any other name are
/// the base's, all of them and in its order.
pub proof fn lemma_merge_by_name(base: Seq<Entry>, overlay: Seq<Entry>, name: Seq<u8>)
    ensures
        merged(base, overlay).filter(has_name(name)) == if names(overlay, name) {
            overlay.filter(has_name(name))
        } else {
            base.filter(has_name(name))
        },
{
    let p = has_name(name);
    Seq::filter_distributes_over_add(kept(base, overlay), overlay, p);
    lemma_kept_named(base, overlay, name);
    if names(overlay, name) {
        assert(Seq::<Entry>::empty() + overlay.filter(p) =~= overlay.filter(p));
    } else {
        lemma_none_named(overlay, name);
        assert(base.filter(p) + Seq::<Entry>::empty() =~= base.filter(p));
    }
}

/// Byte-wise equality of two header names.
pub fn same_name(a: &Vec<u8>, b: &Vec<u8>) -> (r: bool)
    ensures
        r == (a@ == b@),
{
    if a.len() != b.len() {
        return false;
    }
    let mut i: usize = 0;
    while i < a.len()
        invariant
            a@.len() == b@.len(),
            i <= a@.len(),
            forall|k: int| 0 <= k < i ==> a@[k] == b@[k],
        decreases a@.len() - i,
    {
        if a[i] != b[i] {
            return false;
        }
        i = i + 1;
    }
    assert(a@ =~= b@);
    true
}

impl Header {
    pub fn new(name: Vec<u8>, value: Vec<u8>) -> (r: Header)
        ensures
            r@ == (name@, value@),
    {
        Header { name, value }
    }

    /// A copy of this entry.
    pub fn duplicate(&self) -> (r: Header)
        ensures
            r@ == self@,
    {
        Header { name: self.name.clone(), value: self.value.clone() }
    }
}

impl HeaderList {
    pub fn new() -> (r: HeaderList)
        ensures
            r@ == Seq::<Entry>::empty(),
    {
        HeaderList { entries: Vec::new() }
    }

    /// Adds an entry after the others, keeping those of the same name.
    pub fn append(&mut self, name: Vec<u8>, value: Vec<u8>)
        ensures
            final(self)@ == old(self)@.push((name@, value@)),
    {
        let h = Header::new(name, value);
        self.entries.push(h);
        assert(final(self)@ =~= old(self)@.push((name@, value@)));
    }

    pub fn len(&self) -> (r: usize)
        ensures
            r == self@.len(),
    {
        self.entries.len()
    }

    /// Whether some entry carries the name `name`.
    pub fn contains_name(&self, name: &Vec<u8>) -> (r: bool)
        ensures
            r == names(self@, name@),
    {
        let mut i: usize = 0;
        while i < self.entries.len()
            invariant
                i <= self@.len(),
                self@.len() == self.entries@.len(),
                forall|j: int| 0 <= j < i ==> self@[j].0 != name@,
            decreases self@.len() - i,
        {
            if same_name(&self.entries[i].name, name) {
                assert(self@[i as int].0 == name@);
                return true;
            }
            i = i + 1;
        }
        false
    }

    /// The headers that a request carries when this list is the head's own and
    /// `overlay` is laid over it (see `merged`). Neither list changes.
    pub fn merged_with(&self, overlay: &HeaderList) -> (r: HeaderList)
        ensures
            r@ == merged(self@, overlay@),
    {
        let mut out: Vec<Header> = Vec::new();
        let mut i: usize = 0;
        while i < self.entries.len()
            invariant
                i <= self@.len(),
                self@.len() == self.entries@.len(),
                out@.map_values(|h: Header| h@) == kept(self@.take(i as int), overlay@),
            decreases self@.len() - i,
        {
            let ghost before = out@.map_values(|h: Header| h@);
            assert(self@.take(i + 1).drop_last() =~= self@.take(i as int));
            assert(self@.take(i + 1).last() == self.entries@[i as int]@);
            if !overlay.contains_name(&self.entries[i].name) {
                out.push(self.entries[i].duplicate());
                assert(out@.map_values(|h: Header| h@) =~= before.push(self.entries@[i as int]@));
            }
            i = i + 1;
        }
        assert(self@.take(self@.len() as int) =~= self@);
        let ghost base = out@.map_values(|h: Header| h@);
        let mut j: usize = 0;
        while j < overlay.entries.len()
            invariant
                j <= overlay@.len(),
                overlay@.len() == overlay.entries@.len(),
                base == kept(self@, overlay@),
                out@.map_values(|h: Header| h@) == base + overlay@.take(j as int),
            decreases overlay@.len() - j,
        {
            let ghost before = out@.map_values(|h: Header| h@);
            out.push(overlay.entries[j].duplicate());
            assert(out@.map_values(|h: Header| h@) =~= before.push(overlay@[j as int]));
            assert(overlay@.take(j + 1) =~= overlay@.take(j as int).push(overlay@[j as int]));
            assert(out@.map_values(|h: Header| h@) =~= base + overlay@.take(j + 1));
            j = j + 1;
        }
        assert(overlay@.take(overlay@.len() as int) =~= overlay@);
        HeaderList { entries: out }
    }
}

} // verus!
