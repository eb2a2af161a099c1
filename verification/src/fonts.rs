//! Font lookup: the application font registry and the font cache.
//!
//! A font request names a family and a weight. The registry holds the
//! fonts the application registered, backed by an outside font
//! database; an empty family falls back to the generic sans-serif
//! family. The cache maps each (family, weight) pair to the GPU font
//! handle loaded for it on first request; fonts are few and small, so
//! nothing is ever evicted within a rendering session.

use vstd::prelude::*;

verus! {

/// What an application font request asks for.
#[derive(Debug)]
pub struct FontRequest {
    pub family: String,
    pub weight: i32,
}

/// The pair a loaded font is cached under.
#[derive(Debug)]
pub struct FontCacheKey {
    pub family: String,
    pub weight: i32,
}

/// Mathematical value of a font cache key.
pub type FontKeyView = (Seq<char>, i32);

impl View for FontCacheKey {
    type V = FontKeyView;

    open spec fn view(&self) -> FontKeyView {
        (self.family@, self.weight)
    }
}

impl FontCacheKey {
    /// The key a request is cached under.
    pub fn new(request: &FontRequest) -> (r: FontCacheKey)
        ensures
            r@ == (request.family@, request.weight),
    {
        FontCacheKey { family: request.family.clone(), weight: request.weight }
    }
}

/// The family a request resolves to: an empty family name falls back
/// to the generic sans-serif family, which a query names by naming no
/// family.
pub open spec fn spec_effective_family(family: Seq<char>) -> Option<Seq<char>> {
    if family.len() == 0 {
        None
    } else {
        Some(family)
    }
}

pub fn effective_family(family: &String) -> (r: Option<String>)
    ensures
        family_view(r) == spec_effective_family(family@),
{
    if family.as_str().is_empty() {
        None
    } else {
        Some(family.clone())
    }
}

/// Registration is reported as failed only by the outside font
/// subsystem; the database behind the registry accepts any bytes and
/// skips unparsable faces, so in this generation every registration
/// succeeds.
#[derive(Clone, Copy, PartialEq, Eq, Structural, Debug)]
pub enum FontRegistryError {
    InvalidFontData,
}

/// How many font faces a font database holds; grows as fonts are
/// registered and is never otherwise observable from verified code.
pub uninterp spec fn db_face_count(db: fontdb::Database) -> nat;

/// How many font faces a byte string parses to: every face of a valid
/// font or collection, none of unparsable bytes. The parse is a
/// function of the bytes alone.
pub uninterp spec fn db_faces_parsed(data: Seq<u8>) -> nat;

/// The face the font database's CSS-like matching finds for one
/// family (the generic sans-serif family when none is named) and a
/// weight: a function of the database value and the query alone.
pub uninterp spec fn db_query_find(
    db: fontdb::Database,
    family: Option<Seq<char>>,
    weight: u16,
) -> Option<fontdb::ID>;

/// The source the font database holds for a face identifier: a
/// function of the database value and the identifier alone.
pub uninterp spec fn db_face_source_find(db: fontdb::Database, id: fontdb::ID) -> Option<
    FontSourceView,
>;

/// The family name a query names, if it names one.
pub open spec fn family_view(family: Option<String>) -> Option<Seq<char>> {
    match family {
        Some(f) => Some(f@),
        None => None,
    }
}

#[verifier::external_type_specification]
#[verifier::external_body]
pub struct ExFontdbDatabase(fontdb::Database);

#[verifier::external_type_specification]
#[verifier::external_body]
pub struct ExFontdbId(fontdb::ID);

/// Relies on fontdb::Database::new: creates a database with no faces.
#[verifier::external_body]
fn db_new() -> (db: fontdb::Database)
    ensures
        db_face_count(db) == 0,
{
    fontdb::Database::new()
}

/// Relies on fontdb::Database::load_font_data: parses the bytes and
/// inserts exactly the faces they parse to; it never removes a face.
#[verifier::external_body]
fn db_load_font_data(db: &mut fontdb::Database, data: Vec<u8>)
    ensures
        db_face_count(*final(db)) == db_face_count(*old(db)) + db_faces_parsed(data@),
{
    db.load_font_data(data)
}

/// Relies on fontdb::Database::query: a CSS-like match over the faces
/// of the database, deterministic in the database and the query; a
/// database with no faces matches nothing.
#[verifier::external_body]
fn db_query(db: &fontdb::Database, family: Option<String>, weight: u16) -> (r: Option<
    fontdb::ID,
>)
    ensures
        r == db_query_find(*db, family_view(family), weight),
        db_face_count(*db) == 0 ==> r is None,
{
    let fam = match family {
        Some(ref name) => fontdb::Family::Name(name.as_str()),
        None => fontdb::Family::SansSerif,
    };
    let families = [fam];
    db.query(&fontdb::Query {
        families: &families,
        weight: fontdb::Weight(weight),
        ..Default::default()
    })
}

/// Where a registered font face's bytes come from.
#[derive(Debug)]
pub enum FontSource {
    /// The font's raw bytes.
    Memory(Vec<u8>),
    /// The path of the font file.
    File(String),
}

/// Mathematical value of a face's source.
pub enum FontSourceView {
    Memory(Seq<u8>),
    File(Seq<char>),
}

impl View for FontSource {
    type V = FontSourceView;

    open spec fn view(&self) -> FontSourceView {
        match self {
            FontSource::Memory(bytes) => FontSourceView::Memory(bytes@),
            FontSource::File(path) => FontSourceView::File(path@),
        }
    }
}

/// The source an answer carries, if it carries one.
pub open spec fn font_source_view(r: Option<FontSource>) -> Option<FontSourceView> {
    match r {
        Some(s) => Some(s@),
        None => None,
    }
}

/// Relies on fontdb::Database::face_source: hands back the source of
/// the face the identifier names, if the database still holds it,
/// deterministic in the database and the identifier; a database with
/// no faces holds none.
#[verifier::external_body]
fn db_face_source(db: &fontdb::Database, id: fontdb::ID) -> (r: Option<FontSource>)
    ensures
        font_source_view(r) == db_face_source_find(*db, id),
        db_face_count(*db) == 0 ==> r is None,
{
    match db.face_source(id) {
        Some((fontdb::Source::Binary(data), _index)) => {
            Some(FontSource::Memory(data.as_ref().as_ref().to_vec()))
        },
        Some((fontdb::Source::File(path), _index)) => {
            Some(FontSource::File(path.to_string_lossy().into_owned()))
        },
        Some((fontdb::Source::SharedFile(path, _data), _index)) => {
            Some(FontSource::File(path.to_string_lossy().into_owned()))
        },
        None => None,
    }
}

/// The fonts the application registered for use by family name,
/// append-only for the life of the process.
#[derive(Debug)]
pub struct FontRegistry {
    db: fontdb::Database,
}

/// Which source a requested font is loaded from: a face of the
/// application registry, or, exactly when the registry matches none,
/// whatever the system's font matching selects.
#[derive(Debug)]
pub enum FontSelection {
    /// The matching registered face; load this one.
    AppFace(FontSource),
    /// No registered face matches; consult the system's matching.
    System,
}

impl FontRegistry {
    /// How many font faces have been registered.
    pub closed spec fn face_count(&self) -> nat {
        db_face_count(self.db)
    }

    /// The face the registry's matching finds for an effective family
    /// and a weight.
    pub closed spec fn spec_query_face(&self, family: Option<Seq<char>>, weight: u16) -> Option<
        fontdb::ID,
    > {
        db_query_find(self.db, family, weight)
    }

    /// The source the registry holds for a face identifier.
    pub closed spec fn spec_face_source(&self, id: fontdb::ID) -> Option<FontSourceView> {
        db_face_source_find(self.db, id)
    }

    /// The source of the face the registry matches for a request's
    /// family and weight, if it matches one.
    pub open spec fn spec_font_source_for(&self, family: Seq<char>, weight: u16) -> Option<
        FontSourceView,
    > {
        match self.spec_query_face(spec_effective_family(family), weight) {
            Some(id) => self.spec_face_source(id),
            None => None,
        }
    }

    /// A fresh registry knows no fonts.
    pub fn new() -> (r: FontRegistry)
        ensures
            r.face_count() == 0,
    {
        FontRegistry { db: db_new() }
    }

    /// Registers a font (or font collection) given as raw bytes, for
    /// use with the family names its faces carry: exactly the faces
    /// the bytes parse to are appended, and no registered face is
    /// ever removed. In this generation registration always succeeds;
    /// unparsable bytes simply parse to no face.
    pub fn register_application_font_from_memory(&mut self, data: Vec<u8>) -> (r: Result<
        (),
        FontRegistryError,
    >)
        ensures
            r is Ok,
            final(self).face_count() == old(self).face_count() + db_faces_parsed(data@),
    {
        db_load_font_data(&mut self.db, data);
        Ok(())
    }

    /// Looks for a registered face matching the request: its family
    /// (the generic sans-serif family when the request's is empty) and
    /// its weight. An empty registry matches nothing.
    pub fn query_face(&self, family: &String, weight: u16) -> (r: Option<fontdb::ID>)
        ensures
            r == self.spec_query_face(spec_effective_family(family@), weight),
            self.face_count() == 0 ==> r is None,
    {
        let fam = effective_family(family);
        db_query(&self.db, fam, weight)
    }

    /// The source bytes or file path of a face found by `query_face`.
    pub fn face_source(&self, id: fontdb::ID) -> (r: Option<FontSource>)
        ensures
            font_source_view(r) == self.spec_face_source(id),
            self.face_count() == 0 ==> r is None,
    {
        db_face_source(&self.db, id)
    }

    /// Decides where a requested font is loaded from, as the backend
    /// resolves fonts: the application registry's matching face comes
    /// first, and the system's font matching is the fallback,
    /// consulted exactly when the registry matches no face for the
    /// request's family (the generic sans-serif family when empty)
    /// and weight.
    pub fn select_font_source(&self, family: &String, weight: u16) -> (r: FontSelection)
        ensures
            match self.spec_font_source_for(family@, weight) {
                Some(sv) => (r matches FontSelection::AppFace(s) && s@ == sv),
                None => r is System,
            },
    {
        match self.query_face(family, weight) {
            Some(id) => match self.face_source(id) {
                Some(source) => FontSelection::AppFace(source),
                None => FontSelection::System,
            },
            None => FontSelection::System,
        }
    }
}

struct FontCacheEntry {
    key: FontCacheKey,
    font_id: u64,
}

/// The session's font cache: every font loaded so far, by family and
/// weight.
pub struct FontDatabase {
    entries: Vec<FontCacheEntry>,
}

/// The map a sequence of font cache entries denotes.
spec fn font_map_of(s: Seq<FontCacheEntry>) -> Map<FontKeyView, u64>
    decreases s.len(),
{
    if s.len() == 0 {
        Map::empty()
    } else {
        font_map_of(s.drop_last()).insert(s.last().key@, s.last().font_id)
    }
}

spec fn font_distinct_keys(s: Seq<FontCacheEntry>) -> bool {
    forall|i: int, j: int| 0 <= i < j < s.len() ==> s[i].key@ != s[j].key@
}

proof fn lemma_font_map_of_contains(s: Seq<FontCacheEntry>, k: FontKeyView)
    ensures
        font_map_of(s).contains_key(k) <==> exists|i: int| 0 <= i < s.len() && s[i].key@ == k,
    decreases s.len(),
{
    if s.len() > 0 {
        lemma_font_map_of_contains(s.drop_last(), k);
        if s.last().key@ == k {
            assert(s[s.len() - 1].key@ == k);
        } else if font_map_of(s).contains_key(k) {
            let i = choose|i: int| 0 <= i < s.drop_last().len() && s.drop_last()[i].key@ == k;
            assert(s[i].key@ == k);
        } else {
            if exists|i: int| 0 <= i < s.len() && s[i].key@ == k {
                let i = choose|i: int| 0 <= i < s.len() && s[i].key@ == k;
                assert(s.drop_last()[i].key@ == k);
            }
        }
    }
}

proof fn lemma_font_map_of_index(s: Seq<FontCacheEntry>, i: int)
    requires
        font_distinct_keys(s),
        0 <= i < s.len(),
    ensures
        font_map_of(s).contains_key(s[i].key@),
        font_map_of(s)[s[i].key@] == s[i].font_id,
    decreases s.len(),
{
    if i == s.len() - 1 {
        lemma_font_map_of_contains(s, s[i].key@);
    } else {
        lemma_font_map_of_index(s.drop_last(), i);
        assert(s.drop_last()[i] == s[i]);
        assert(s[i].key@ != s.last().key@);
    }
}

proof fn lemma_font_map_of_push(s: Seq<FontCacheEntry>, e: FontCacheEntry)
    ensures
        font_map_of(s.push(e)) =~= font_map_of(s).insert(e.key@, e.font_id),
{
    assert(s.push(e).drop_last() =~= s);
    assert(s.push(e).last() == e);
}

impl View for FontDatabase {
    type V = Map<FontKeyView, u64>;

    closed spec fn view(&self) -> Map<FontKeyView, u64> {
        font_map_of(self.entries@)
    }
}

impl FontDatabase {
    /// Validity: the cache holds each key at most once.
    pub closed spec fn wf(&self) -> bool {
        font_distinct_keys(self.entries@)
    }

    /// A fresh cache with no fonts loaded.
    pub fn new() -> (r: FontDatabase)
        ensures
            r.wf(),
            r@ == Map::<FontKeyView, u64>::empty(),
    {
        let r = FontDatabase { entries: Vec::new() };
        proof {
            assert(r@ =~= Map::<FontKeyView, u64>::empty());
        }
        r
    }

    fn find(&self, key: &FontCacheKey) -> (r: Option<usize>)
        ensures
            match r {
                Some(i) => 0 <= i < self.entries@.len() && self.entries@[i as int].key@ == key@,
                None => forall|i: int|
                    0 <= i < self.entries@.len() ==> self.entries@[i].key@ != key@,
            },
    {
        let n: usize = self.entries.len();
        let mut i: usize = 0;
        while i < n
            invariant
                n == self.entries@.len(),
                0 <= i <= n,
                forall|j: int| 0 <= j < i ==> self.entries@[j].key@ != key@,
            decreases n - i,
        {
            let e = &self.entries[i];
            if e.key.family == key.family && e.key.weight == key.weight {
                return Some(i);
            }
            i += 1;
        }
        None
    }

    /// The font for a request: loaded through `load` on the first
    /// request for its family and weight, answered from the cache —
    /// whatever the callback would do — on every later one, and never
    /// evicted.
    pub fn font<F: FnOnce() -> u64>(&mut self, request: &FontRequest, load: F) -> (r: u64)
        requires
            old(self).wf(),
            call_requires(load, ()),
        ensures
            final(self).wf(),
            old(self)@.contains_key((request.family@, request.weight)) ==> r == old(self)@[
                (request.family@, request.weight)
            ] && final(self)@ == old(self)@,
            !old(self)@.contains_key((request.family@, request.weight)) ==> call_ensures(
                load,
                (),
                r,
            ) && final(self)@ == old(self)@.insert((request.family@, request.weight), r),
    {
        let key = FontCacheKey::new(request);
        proof {
            lemma_font_map_of_contains(self.entries@, key@);
        }
        match self.find(&key) {
            Some(i) => {
                proof {
                    lemma_font_map_of_index(self.entries@, i as int);
                }
                self.entries[i].font_id
            },
            None => {
                let id = load();
                let ghost old_entries = self.entries@;
                self.entries.push(FontCacheEntry { key, font_id: id });
                proof {
                    assert(self.entries@.drop_last() =~= old_entries);
                    lemma_font_map_of_push(old_entries, self.entries@.last());
                    assert(self.entries@ =~= old_entries.push(self.entries@.last()));
                }
                id
            },
        }
    }
}

} // verus!
