//! The URID map host feature: every URI gets a stable, unique numeric id.
use vstd::prelude::*;

verus! {

/// The URI under which the URID map feature is offered to plugins.
pub const URID_MAP_URI: &'static str = "http://lv2plug.in/ns/ext/urid#map";

/// Why a host feature could not be taken as a URID map.
#[derive(PartialEq, Eq, Structural, Clone, Copy, Debug)]
pub enum UridFeatureError {
    /// The feature is a URID map, but its data pointer is null.
    FeatureDataIsNull,
    /// The feature's URI is not the URID map URI.
    FeatureIsNotUridMap,
}

/// Whether two strings hold the same characters.
pub fn str_eq(a: &str, b: &str) -> (r: bool)
    ensures
        r == (a@ == b@),
{
    let n = a.unicode_len();
    if n != b.unicode_len() {
        return false;
    }
    let mut i: usize = 0;
    while i < n
        invariant
            n == a@.len(),
            n == b@.len(),
            i <= n,
            forall|j: int| 0 <= j < i ==> a@[j] == b@[j],
        decreases n - i,
    {
        if a.get_char(i) != b.get_char(i) {
            return false;
        }
        i = i + 1;
    }
    assert(a@ =~= b@);
    true
}

/// Decides whether a host feature with URI `uri` is a usable URID map, given
/// whether its data pointer is null.
pub fn check_urid_feature(uri: &str, data_is_null: bool) -> (r: Result<(), UridFeatureError>)
    ensures
        uri@ != URID_MAP_URI@ ==> r == Err::<(), UridFeatureError>(UridFeatureError::FeatureIsNotUridMap),
        uri@ == URID_MAP_URI@ && data_is_null ==> r == Err::<(), UridFeatureError>(UridFeatureError::FeatureDataIsNull),
        uri@ == URID_MAP_URI@ && !data_is_null ==> r is Ok,
{
    if !str_eq(uri, URID_MAP_URI) {
        Err(UridFeatureError::FeatureIsNotUridMap)
    } else if data_is_null {
        Err(UridFeatureError::FeatureDataIsNull)
    } else {
        Ok(())
    }
}

/// The largest number of URIs that a map can hold: ids are `u32`, and 0 is
/// never a valid id.
pub const MAX_URIDS: usize = 0xffff_ffff;

/// A table of URIs; the id of the URI at position `i` is `i + 1`.
pub struct UridMap {
    uris: Vec<Vec<u8>>,
}

/// The id of `uri` in `table`: one more than its position, 0 if it is absent.
pub open spec fn id_in(table: Seq<Seq<u8>>, uri: Seq<u8>) -> nat {
    if exists|i: int| 0 <= i < table.len() && table[i] == uri {
        (choose|i: int| 0 <= i < table.len() && table[i] == uri) as nat + 1
    } else {
        0
    }
}

/// No URI stands twice in `table`, and every id fits a `u32`.
pub open spec fn table_wf(table: Seq<Seq<u8>>) -> bool {
    &&& table.len() <= MAX_URIDS
    &&& forall|i: int, j: int| 0 <= i < j < table.len() ==> table[i] != table[j]
}

impl View for UridMap {
    type V = Seq<Seq<u8>>;

    closed spec fn view(&self) -> Seq<Seq<u8>> {
        self.uris@.map_values(|u: Vec<u8>| u@)
    }
}

/// Whether two byte strings are equal.
fn bytes_eq(a: &[u8], b: &[u8]) -> (r: bool)
    ensures
        r == (a@ == b@),
{
    if a.len() != b.len() {
        return false;
    }
    let mut i: usize = 0;
    while i < a.len()
        invariant
            a@.len() == b@.len(),
            i <= a@.len(),
            forall|j: int| 0 <= j < i ==> a@[j] == b@[j],
        decreases a@.len() - i,
    {
        if a[i] != b[i] {
            return false;
        }
        i = i + 1;
    }
    assert(a@ =~= b@);
    true
}

/// An owned copy of a byte string.
fn copy_bytes(b: &[u8]) -> (r: Vec<u8>)
    ensures
        r@ == b@,
{
    let mut r: Vec<u8> = Vec::new();
    let mut i: usize = 0;
    while i < b.len()
        invariant
            i <= b@.len(),
            r@ == b@.take(i as int),
        decreases b@.len() - i,
    {
        r.push(b[i]);
        i = i + 1;
        proof {
            assert(r@ =~= b@.take(i as int));
        }
    }
    assert(b@.take(b@.len() as int) =~= b@);
    r
}

impl UridMap {
    /// A map with no URI registered.
    pub fn new() -> (r: UridMap)
        ensures
            r@ == Seq::<Seq<u8>>::empty(),
            r.wf(),
    {
        let r = UridMap { uris: Vec::new() };
        assert(r@ =~= Seq::<Seq<u8>>::empty());
        r
    }

    /// The map's invariant: URIs are unique and ids fit a `u32`.
    pub open spec fn wf(&self) -> bool {
        table_wf(self@)
    }

    /// The number of registered URIs.
    pub fn len(&self) -> (r: usize)
        ensures
            r == self@.len(),
    {
        self.uris.len()
    }

    /// The position of `uri` in the table, if it is registered.
    fn position(&self, uri: &[u8]) -> (r: Option<usize>)
        requires
            self.wf(),
        ensures
            r is Some ==> r->Some_0 < self@.len() && self@[r->Some_0 as int] == uri@,
            r is None ==> forall|i: int| 0 <= i < self@.len() ==> self@[i] != uri@,
    {
        let mut i: usize = 0;
        while i < self.uris.len()
            invariant
                i <= self@.len(),
                self@.len() == self.uris@.len(),
                forall|j: int| 0 <= j < i ==> self@[j] != uri@,
            decreases self@.len() - i,
        {
            if bytes_eq(self.uris[i].as_slice(), uri) {
                return Some(i);
            }
            i = i + 1;
        }
        None
    }

    /// The id of `uri`, registering it with the next free id if it has none.
    /// Returns 0, and registers nothing, when the map is full.
    pub fn map(&mut self, uri: &[u8]) -> (r: u32)
        requires
            old(self).wf(),
        ensures
            final(self).wf(),
            old(self)@.contains(uri@) ==> final(self)@ == old(self)@ && r as nat == id_in(old(self)@, uri@),
            !old(self)@.contains(uri@) && old(self)@.len() < MAX_URIDS ==> final(self)@ == old(self)@.push(uri@)
                && r as nat == old(self)@.len() + 1,
            !old(self)@.contains(uri@) && old(self)@.len() >= MAX_URIDS ==> final(self)@ == old(self)@ && r == 0,
            r != 0 ==> r as nat == id_in(final(self)@, uri@),
    {
        match self.position(uri) {
            Some(i) => {
                proof {
                    lemma_id_is_position(self@, uri@, i as int);
                }
                (i + 1) as u32
            },
            None => {
                if self.uris.len() >= MAX_URIDS {
                    0
                } else {
                    let ghost before = self@;
                    let n = self.uris.len();
                    self.uris.push(copy_bytes(uri));
                    proof {
                        assert(self@ =~= before.push(uri@));
                        assert(self@[n as int] == uri@);
                        lemma_id_is_position(self@, uri@, n as int);
                    }
                    (n + 1) as u32
                }
            },
        }
    }
}

proof fn lemma_id_is_position(table: Seq<Seq<u8>>, uri: Seq<u8>, i: int)
    requires
        table_wf(table),
        0 <= i < table.len(),
        table[i] == uri,
    ensures
        id_in(table, uri) == i + 1,
{
    let k = choose|k: int| 0 <= k < table.len() && table[k] == uri;
    if k != i {
        if k < i {
            assert(table[k] != table[i]);
        } else {
            assert(table[i] != table[k]);
        }
    }
}

/// Mapping the same URI again gives the same id and leaves the map as it was.
pub proof fn lemma_map_is_stable(table: Seq<Seq<u8>>, uri: Seq<u8>)
    requires
        table_wf(table),
        table.contains(uri),
    ensures
        id_in(table, uri) >= 1,
        id_in(table, uri) <= table.len(),
        table[id_in(table, uri) - 1] == uri,
{
}

/// Two different URIs that are both registered have different ids.
pub proof fn lemma_ids_are_unique(table: Seq<Seq<u8>>, a: Seq<u8>, b: Seq<u8>)
    requires
        table_wf(table),
        table.contains(a),
        table.contains(b),
        a != b,
    ensures
        id_in(table, a) != id_in(table, b),
        id_in(table, a) != 0,
        id_in(table, b) != 0,
{
}

} // verus!
