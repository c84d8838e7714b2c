//! The font resolution cache: which face answers a request, and the font
//! object of each face, each computed once and remembered.

use crate::attrs::{
    family_models, font_attrs_model, Attrs, FamilyOwned, FontAttrs, FontAttrsModel,
};
use crate::attrs::FamilyModel;
use crate::database::{
    check_holds_its_faces, database_faces, database_family, database_query, database_with_font,
    db_face, db_face_data, db_face_ids, db_load_font_data, db_new, db_query,
    db_set_monospace_family,
    db_set_sans_serif_family, db_set_serif_family, distinct_ids, face_ids, face_record,
    family_names, has_face, holds_its_faces, is_face_at, keeps_faces, new_faces_hold,
    same_families, same_stretch, same_style, same_weight, FaceModel, FaceRecord,
};
use crate::font::{share, Font};
use crate::memo::{memo_after, memo_answer, occurs_once, Memo, MemoKey};
use std::sync::Arc;
use vstd::prelude::*;

verus! {

/// The key of a remembered search for a monospaced face.
#[derive(Debug)]
pub struct MonospaceKey {
    pub style: fontdb::Style,
    pub weight: fontdb::Weight,
    pub stretch: fontdb::Stretch,
}

impl MemoKey for MonospaceKey {
    type Model = (fontdb::Style, fontdb::Weight, fontdb::Stretch);

    open spec fn model(&self) -> (fontdb::Style, fontdb::Weight, fontdb::Stretch) {
        (self.style, self.weight, self.stretch)
    }

    fn same(&self, other: &Self) -> (r: bool) {
        same_style(self.style, other.style) && same_weight(self.weight, other.weight)
            && same_stretch(self.stretch, other.stretch)
    }
}

/// The key under which a search for a monospaced face with `attrs` is remembered.
pub open spec fn monospace_key(attrs: Attrs) -> (fontdb::Style, fontdb::Weight, fontdb::Stretch) {
    (attrs.style, attrs.weight, attrs.stretch)
}

/// `face` is monospaced and has exactly the style, weight and stretch of `attrs`.
pub open spec fn is_monospace_match(face: FaceModel, attrs: Attrs) -> bool {
    face.monospaced && face.weight == attrs.weight && face.stretch == attrs.stretch && face.style
        == attrs.style
}

/// The face at position `i` matches, and none before it does.
pub open spec fn is_first_monospace(faces: Seq<FaceRecord>, attrs: Attrs, i: int) -> bool {
    &&& 0 <= i < faces.len()
    &&& is_monospace_match(faces[i].face, attrs)
    &&& forall|j: int| 0 <= j < i ==> !is_monospace_match(#[trigger] faces[j].face, attrs)
}

/// The first face of the enumeration that matches, if any does.
pub open spec fn first_monospace(faces: Seq<FaceRecord>, attrs: Attrs) -> Option<fontdb::ID> {
    if exists|i: int| is_first_monospace(faces, attrs, i) {
        Some(faces[choose|i: int| is_first_monospace(faces, attrs, i)].face.id)
    } else {
        None
    }
}

/// The name that stands for the face `id`: its first family name, its
/// PostScript name where it declares no family, and a fixed text where the
/// database holds no such face.
pub open spec fn face_name_of(db: fontdb::Database, id: fontdb::ID) -> Seq<char> {
    if !has_face(db, id) {
        "invalid font id"@
    } else if face_record(db, id).face.families.len() > 0 {
        face_record(db, id).face.families[0]
    } else {
        face_record(db, id).face.post_script_name
    }
}

/// A font object can be made for the face `id`: the database holds the face,
/// holds its font bytes in memory, and the rasterizer's reader finds the face
/// in them.
pub open spec fn has_font(db: fontdb::Database, id: fontdb::ID) -> bool {
    &&& has_face(db, id)
    &&& face_record(db, id).data is Some
    &&& Font::readable(face_record(db, id).data.unwrap(), face_record(db, id).face.index)
}

/// `font` is what construction gives for the face `id`: a font object read from
/// the face's bytes where one can be made, and nothing where none can.
pub open spec fn is_font_of(font: Option<Arc<Font>>, db: fontdb::Database, id: fontdb::ID) -> bool {
    if has_font(db, id) {
        font is Some && font.unwrap().reads(
            id,
            face_record(db, id).data.unwrap(),
            face_record(db, id).face.index,
        )
    } else {
        font is None
    }
}

/// What looking up the font object of the face `id` does to a font system,
/// and what it gives.
///
/// Where an outcome is remembered for the face, that outcome is given and
/// nothing changes. Where none is, the outcome is what construction gives, and
/// it is remembered. Nothing else changes in either case.
pub open spec fn font_looked_up(
    before: FontSystem,
    after: FontSystem,
    id: fontdb::ID,
    font: Option<Arc<Font>>,
) -> bool {
    &&& before.fonts().contains_key(id) ==> font == before.fonts()[id] && after == before
    &&& !before.fonts().contains_key(id) ==> is_font_of(font, before.database(), id)
    &&& after.fonts() == memo_after(before.fonts(), id, font)
    &&& after.queries() == before.queries()
    &&& after.monospace() == before.monospace()
    &&& after.database() == before.database()
    &&& after.locale_model() == before.locale_model()
}

/// What asking for the face that answers `family` with `attrs` does to a font
/// system, and what it gives.
///
/// Where an answer is remembered for the request, that answer is given and
/// nothing changes. Where none is, the answer is the database's, and it is
/// remembered. Either way the request is then remembered once, and nothing
/// else changes.
pub open spec fn query_asked(
    before: FontSystem,
    after: FontSystem,
    family: Seq<FamilyOwned>,
    attrs: Attrs,
    answer: Option<fontdb::ID>,
) -> bool {
    let key = font_attrs_model(family, attrs);
    &&& answer == memo_answer(
        before.queries(),
        key,
        database_query(
            before.database(),
            family_models(family),
            attrs.style,
            attrs.weight,
            attrs.stretch,
        ),
    )
    &&& after.queries() == memo_after(before.queries(), key, answer)
    &&& occurs_once(after.query_keys(), key)
    &&& before.queries().contains_key(key) ==> after == before
    &&& !before.queries().contains_key(key) && answer is Some ==> has_face(
        before.database(),
        answer.unwrap(),
    )
    &&& after.fonts() == before.fonts()
    &&& after.monospace() == before.monospace()
    &&& after.database() == before.database()
    &&& after.locale_model() == before.locale_model()
}

/// What searching for a monospaced face with `attrs` does to a font system,
/// and what it gives.
///
/// Where an outcome is remembered for the style, weight and stretch, that
/// outcome is given and nothing changes. Where none is, the outcome is the
/// first matching face of the database's enumeration, and it is remembered.
/// Nothing else changes in either case.
pub open spec fn monospace_asked(
    before: FontSystem,
    after: FontSystem,
    attrs: Attrs,
    answer: Option<fontdb::ID>,
) -> bool {
    &&& answer == memo_answer(
        before.monospace(),
        monospace_key(attrs),
        first_monospace(database_faces(before.database()), attrs),
    )
    &&& after.monospace() == memo_after(before.monospace(), monospace_key(attrs), answer)
    &&& before.monospace().contains_key(monospace_key(attrs)) ==> after == before
    &&& after.fonts() == before.fonts()
    &&& after.queries() == before.queries()
    &&& after.database() == before.database()
    &&& after.locale_model() == before.locale_model()
}

/// The database after a font file was loaded into it: the database with the
/// faces that are found in the file. A collection that claims to hold more
/// faces than it has room for holds none, and leaves the database as it is.
pub open spec fn database_loaded(db: fontdb::Database, data: Seq<u8>) -> fontdb::Database {
    if holds_its_faces(data) {
        database_with_font(db, data)
    } else {
        db
    }
}

/// The database after each of `fonts` was loaded into it, in order.
pub open spec fn database_with_fonts(db: fontdb::Database, fonts: Seq<Seq<u8>>) -> fontdb::Database
    decreases fonts.len(),
{
    if fonts.len() == 0 {
        db
    } else {
        database_loaded(database_with_fonts(db, fonts.drop_last()), fonts.last())
    }
}

/// The generic monospace, sans-serif and serif families are taken for the
/// families that a font system starts with.
pub open spec fn has_default_families(db: fontdb::Database) -> bool {
    &&& database_family(db, FamilyModel::Monospace) == "Fira Mono"@
    &&& database_family(db, FamilyModel::SansSerif) == "Fira Sans"@
    &&& database_family(db, FamilyModel::Serif) == "DejaVu Serif"@
}

/// `after` is `before` with faces added from `fonts`: every face of `before`
/// is a face of `after`, unchanged, every other face of `after` has one of
/// `fonts` as its font bytes, and the configured families are those of `before`.
pub open spec fn faces_added(
    before: fontdb::Database,
    after: fontdb::Database,
    fonts: Seq<Seq<u8>>,
) -> bool {
    &&& keeps_faces(before, after)
    &&& same_families(before, after)
    &&& forall|id: fontdb::ID| #[trigger]
        has_face(after, id) && !has_face(before, id) ==> exists|k: int|
            0 <= k < fonts.len() && face_record(after, id).data == Some(#[trigger] fonts[k])
}

/// Adding faces from one more font adds faces from the fonts with that one.
proof fn lemma_faces_added_more(
    before: fontdb::Database,
    between: fontdb::Database,
    after: fontdb::Database,
    fonts: Seq<Seq<u8>>,
    data: Seq<u8>,
)
    requires
        faces_added(before, between, fonts),
        keeps_faces(between, after),
        new_faces_hold(between, after, data),
        same_families(between, after),
    ensures
        faces_added(before, after, fonts.push(data)),
{
    let more = fonts.push(data);
    assert forall|id: fontdb::ID| #[trigger]
        has_face(after, id) && !has_face(before, id) implies exists|k: int|
        0 <= k < more.len() && face_record(after, id).data == Some(#[trigger] more[k]) by {
        if has_face(between, id) {
            let k = choose|k: int|
                0 <= k < fonts.len() && face_record(between, id).data == Some(#[trigger] fonts[k]);
            assert(more[k] == fonts[k]);
        } else {
            assert(more[fonts.len() as int] == data);
        }
    }
    assert forall|id: fontdb::ID| #[trigger] has_face(before, id) implies has_face(after, id)
        && face_record(after, id) == face_record(before, id) by {
        assert(has_face(between, id));
    }
    assert forall|family: FamilyModel| #[trigger]
        database_family(before, family) == database_family(after, family) by {
        assert(database_family(before, family) == database_family(between, family));
    }
}

/// The contents of the files that could be read, in order.
pub open spec fn readable<E>(files: Seq<Result<Vec<u8>, E>>) -> Seq<Seq<u8>>
    decreases files.len(),
{
    if files.len() == 0 {
        Seq::empty()
    } else {
        match files.last() {
            Ok(data) => readable(files.drop_last()).push(data@),
            Err(_) => readable(files.drop_last()),
        }
    }
}

/// The views of a list of font files.
pub open spec fn font_views(fonts: Seq<Vec<u8>>) -> Seq<Seq<u8>> {
    fonts.map_values(|f: Vec<u8>| f@)
}

/// `sys_locale::get_locale`: the locale that the system reports, if it reports
/// one. It depends on the environment, so nothing is claimed of it.
#[verifier::external_body]
fn detect_locale() -> (r: Option<String>) {
    sys_locale::get_locale()
}

/// The locale to work with: the detected one, or `en-US` where none was detected.
pub fn locale_or_default(detected: Option<String>) -> (r: String)
    ensures
        match detected {
            Some(locale) => r@ == locale@,
            None => r@ == "en-US"@,
        },
{
    match detected {
        Some(locale) => locale,
        None => "en-US".to_owned(),
    }
}

/// Access to fonts: a font database with what was asked of it remembered.
pub struct FontSystem {
    locale: String,
    db: fontdb::Database,
    font_cache: Memo<fontdb::ID, Option<Arc<Font>>>,
    query_cache: Memo<FontAttrs, Option<fontdb::ID>>,
    monospace_cache: Memo<MonospaceKey, Option<fontdb::ID>>,
}

impl FontSystem {
    /// The locale.
    pub closed spec fn locale_model(&self) -> Seq<char> {
        self.locale@
    }

    /// The font database.
    pub closed spec fn database(&self) -> fontdb::Database {
        self.db
    }

    /// The font objects remembered, by face; `None` for a face that has none.
    pub closed spec fn fonts(&self) -> Map<fontdb::ID, Option<Arc<Font>>> {
        self.font_cache@
    }

    /// The answers remembered for queries.
    pub closed spec fn queries(&self) -> Map<FontAttrsModel, Option<fontdb::ID>> {
        self.query_cache@
    }

    /// The queries that an answer is remembered for, in the order in which they
    /// were first asked.
    pub closed spec fn query_keys(&self) -> Seq<FontAttrsModel> {
        self.query_cache.keys()
    }

    /// The answers remembered for searches for a monospaced face.
    pub closed spec fn monospace(&self) -> Map<
        (fontdb::Style, fontdb::Weight, fontdb::Stretch),
        Option<fontdb::ID>,
    > {
        self.monospace_cache@
    }

    /// Nothing is remembered.
    pub open spec fn remembers_nothing(&self) -> bool {
        &&& self.fonts() == Map::<fontdb::ID, Option<Arc<Font>>>::empty()
        &&& self.queries() == Map::<FontAttrsModel, Option<fontdb::ID>>::empty()
        &&& self.monospace() == Map::<
            (fontdb::Style, fontdb::Weight, fontdb::Stretch),
            Option<fontdb::ID>,
        >::empty()
    }

    /// What is remembered in `self` is what is remembered in `other`.
    pub open spec fn remembers_as(&self, other: &FontSystem) -> bool {
        &&& self.fonts() == other.fonts()
        &&& self.queries() == other.queries()
        &&& self.monospace() == other.monospace()
    }

    /// A font system with the default generic families and without faces, in
    /// the locale that the system reports (`en-US` where it reports none).
    pub fn new() -> (r: Self)
        ensures
            database_faces(r.database()) == Seq::<FaceRecord>::empty(),
            has_default_families(r.database()),
            r.remembers_nothing(),
    {
        Self::new_with_fonts(Vec::new())
    }

    /// A font system like that of `new`, with each of `fonts` loaded, in order.
    pub fn new_with_fonts(fonts: Vec<Vec<u8>>) -> (r: Self)
        ensures
            exists|base: fontdb::Database|
                database_faces(base) == Seq::<FaceRecord>::empty() && r.database()
                    == #[trigger] database_with_fonts(base, font_views(fonts@)) && faces_added(
                    base,
                    r.database(),
                    font_views(fonts@),
                ),
            has_default_families(r.database()),
            r.remembers_nothing(),
    {
        let locale = locale_or_default(detect_locale());
        let mut db = db_new();
        db_set_monospace_family(&mut db, "Fira Mono");
        db_set_sans_serif_family(&mut db, "Fira Sans");
        db_set_serif_family(&mut db, "DejaVu Serif");
        let ghost base = db;
        let ghost all = font_views(fonts@);
        let mut r = Self::new_with_locale_and_db(locale, db);
        assert(all.take(0) =~= Seq::<Seq<u8>>::empty());
        for font in it: fonts
            invariant
                it.seq().map_values(|f: Vec<u8>| f@) == all,
                r.database() == database_with_fonts(base, all.take(it.index() as int)),
                faces_added(base, r.database(), all.take(it.index() as int)),
                has_default_families(r.database()),
                r.remembers_nothing(),
        {
            let ghost between = r.database();
            proof {
                let n = it.index() as int;
                assert(all.take(n + 1).drop_last() =~= all.take(n));
                assert(all.take(n + 1).last() == font@);
                assert(all.take(n + 1) =~= all.take(n).push(font@));
            }
            load_font_data(&mut r, font);
            proof {
                lemma_faces_added_more(
                    base,
                    between,
                    r.database(),
                    all.take(it.index() as int),
                    font@,
                );
            }
        }
        assert(all.take(all.len() as int) =~= all);
        r
    }

    /// A font system in `locale` that reads `db`, with nothing remembered.
    pub fn new_with_locale_and_db(locale: String, db: fontdb::Database) -> (r: Self)
        ensures
            r.locale_model() == locale@,
            r.database() == db,
            r.remembers_nothing(),
    {
        FontSystem {
            locale,
            db,
            font_cache: Memo::new(),
            query_cache: Memo::new(),
            monospace_cache: Memo::new(),
        }
    }

    /// The locale.
    pub fn locale(&self) -> (r: &str)
        ensures
            r@ == self.locale_model(),
    {
        self.locale.as_str()
    }

    /// The font database.
    pub fn db(&self) -> (r: &fontdb::Database)
        ensures
            *r == self.database(),
    {
        &self.db
    }

    /// The font database, to load faces into by other means. What is
    /// remembered stays as it is.
    pub fn db_mut(&mut self) -> (r: &mut fontdb::Database)
        ensures
            *r == old(self).database(),
            final(self).database() == *final(r),
            final(self).locale_model() == old(self).locale_model(),
            final(self).remembers_as(old(self)),
    {
        &mut self.db
    }

    /// What is remembered as the font object of the face `id`: `None` where no
    /// lookup was made for it yet, `Some(None)` where it is known to have none.
    pub fn cached_font(&self, id: fontdb::ID) -> (r: Option<Option<Arc<Font>>>)
        ensures
            r is Some <==> self.fonts().contains_key(id),
            r is Some ==> r.unwrap() == self.fonts()[id],
    {
        match self.font_cache.get(&id) {
            Some(found) => Some(
                match found {
                    Some(font) => Some(share(font)),
                    None => None,
                },
            ),
            None => None,
        }
    }

    /// What is remembered as the answer to a request for `family` with
    /// `attrs`: `None` where it was not asked yet, `Some(None)` where it is
    /// known that no face answers it.
    pub fn cached_query(&self, family: &[FamilyOwned], attrs: Attrs) -> (r: Option<
        Option<fontdb::ID>,
    >)
        ensures
            r is Some <==> self.queries().contains_key(font_attrs_model(family@, attrs)),
            r is Some ==> r.unwrap() == self.queries()[font_attrs_model(family@, attrs)],
    {
        let key = FontAttrs::new(family, attrs);
        match self.query_cache.get(&key) {
            Some(found) => Some(*found),
            None => None,
        }
    }

    /// What is remembered as the outcome of a search for a monospaced face
    /// with `attrs`: `None` where none was made yet, `Some(None)` where it is
    /// known that no face matches.
    pub fn cached_monospace(&self, attrs: &Attrs) -> (r: Option<Option<fontdb::ID>>)
        ensures
            r is Some <==> self.monospace().contains_key(monospace_key(*attrs)),
            r is Some ==> r.unwrap() == self.monospace()[monospace_key(*attrs)],
    {
        let key = MonospaceKey { style: attrs.style, weight: attrs.weight, stretch: attrs.stretch };
        match self.monospace_cache.get(&key) {
            Some(found) => Some(*found),
            None => None,
        }
    }

    /// Remembers `font` as the font object of the face `id`, unless one is
    /// remembered for it already, and returns the one that is remembered.
    pub fn cache_font(&mut self, id: fontdb::ID, font: Option<Font>) -> (r: Option<Arc<Font>>)
        ensures
            old(self).fonts().contains_key(id) ==> r == old(self).fonts()[id],
            !old(self).fonts().contains_key(id) ==> (r is Some <==> font is Some),
            !old(self).fonts().contains_key(id) && font is Some ==> *r.unwrap() == font.unwrap(),
            final(self).fonts() == memo_after(old(self).fonts(), id, r),
            final(self).queries() == old(self).queries(),
            final(self).monospace() == old(self).monospace(),
            final(self).database() == old(self).database(),
            final(self).locale_model() == old(self).locale_model(),
    {
        let shared = match font {
            Some(font) => Some(Arc::new(font)),
            None => None,
        };
        match self.font_cache.insert_if_absent(id, shared) {
            Some(found) => Some(share(found)),
            None => None,
        }
    }

    /// The font object of the face `id`, or `None` where it has none: the
    /// database holds no such face, or does not hold its bytes in memory, or
    /// the rasterizer cannot read them.
    ///
    /// The first call for a face constructs the object and remembers the
    /// outcome, also where it is `None`. Every later call for that face returns
    /// what is remembered, and changes nothing.
    pub fn get_font(&mut self, id: fontdb::ID) -> (r: Option<Arc<Font>>)
        ensures
            font_looked_up(*old(self), *final(self), id, r),
    {
        match self.cached_font(id) {
            Some(found) => {
                return found;
            },
            None => {},
        }
        let font = match db_face(&self.db, id) {
            Some(face) => match db_face_data(&self.db, id) {
                Some(data) => Font::new(&face, data),
                None => None,
            },
            None => None,
        };
        self.cache_font(id, font)
    }

    /// Remembers `answer` for the query `key`, unless an answer is remembered
    /// for it already, and returns the answer that is remembered.
    pub fn cache_query(&mut self, key: FontAttrs, answer: Option<fontdb::ID>) -> (r: Option<
        fontdb::ID,
    >)
        ensures
            r == memo_answer(old(self).queries(), key@, answer),
            final(self).queries() == memo_after(old(self).queries(), key@, answer),
            occurs_once(final(self).query_keys(), key@),
            final(self).fonts() == old(self).fonts(),
            final(self).monospace() == old(self).monospace(),
            final(self).database() == old(self).database(),
            final(self).locale_model() == old(self).locale_model(),
    {
        *self.query_cache.insert_if_absent(key, answer)
    }

    /// The face that answers a request for `family` with `attrs`.
    ///
    /// The first call for a request asks the database and remembers its answer,
    /// also where it is `None`. Every later call for that request returns what
    /// is remembered, and changes nothing.
    pub fn query(&mut self, family: &[FamilyOwned], attrs: Attrs) -> (r: Option<fontdb::ID>)
        ensures
            query_asked(*old(self), *final(self), family@, attrs, r),
    {
        let key = FontAttrs::new(family, attrs);
        match self.query_cache.get(&key) {
            Some(found) => {
                return *found;
            },
            None => {},
        }
        let answer = db_query(&self.db, family, attrs.style, attrs.weight, attrs.stretch);
        self.cache_query(key, answer)
    }

    /// The first face, in the database's order, that is monospaced and has the
    /// style, weight and stretch of `attrs`.
    ///
    /// The first call for a style, weight and stretch searches the database
    /// and remembers the outcome, also where it is `None`. Every later call
    /// for them returns what is remembered, and changes nothing.
    pub fn query_monospace(&mut self, attrs: &Attrs) -> (r: Option<fontdb::ID>)
        ensures
            monospace_asked(*old(self), *final(self), *attrs, r),
    {
        let key = MonospaceKey { style: attrs.style, weight: attrs.weight, stretch: attrs.stretch };
        match self.monospace_cache.get(&key) {
            Some(found) => {
                return *found;
            },
            None => {},
        }
        let found = find_monospace(&self.db, attrs);
        *self.monospace_cache.insert_if_absent(key, found)
    }

    /// The name that stands for the face `id`: its first family name, its
    /// PostScript name where it declares no family, and `invalid font id`
    /// where the database holds no such face.
    pub fn face_name(&self, id: fontdb::ID) -> (r: String)
        ensures
            r@ == face_name_of(self.database(), id),
    {
        match db_face(&self.db, id) {
            Some(face) => {
                if face.families.len() > 0 {
                    face.families[0].clone()
                } else {
                    face.post_script_name
                }
            },
            None => "invalid font id".to_owned(),
        }
    }
}

/// Searches the database, in its order, for the first monospaced face with
/// the style, weight and stretch of `attrs`.
fn find_monospace(db: &fontdb::Database, attrs: &Attrs) -> (r: Option<fontdb::ID>)
    ensures
        r == first_monospace(database_faces(*db), *attrs),
{
    let ids = db_face_ids(db);
    let ghost faces = database_faces(*db);
    let mut i: usize = 0;
    while i < ids.len()
        invariant
            i <= ids.len(),
            ids@ == face_ids(*db),
            distinct_ids(ids@),
            faces == database_faces(*db),
            forall|j: int| 0 <= j < i ==> !is_monospace_match(#[trigger] faces[j].face, *attrs),
        decreases ids.len() - i,
    {
        proof {
            lemma_face_at(*db, i as int);
        }
        match db_face(db, ids[i]) {
            Some(face) => {
                if face.monospaced && same_weight(face.weight, attrs.weight) && same_stretch(
                    face.stretch,
                    attrs.stretch,
                ) && same_style(face.style, attrs.style) {
                    proof {
                        assert(is_first_monospace(faces, *attrs, i as int));
                        lemma_first_monospace_unique(faces, *attrs, i as int);
                    }
                    return Some(face.id);
                }
            },
            None => {},
        }
        i += 1;
    }
    proof {
        assert forall|k: int| !is_first_monospace(faces, *attrs, k) by {}
    }
    None
}

/// Where no identifier occurs twice, the face held under the identifier at
/// position `i` is the face at position `i`.
proof fn lemma_face_at(db: fontdb::Database, i: int)
    requires
        0 <= i < database_faces(db).len(),
        distinct_ids(face_ids(db)),
    ensures
        has_face(db, database_faces(db)[i].face.id),
        face_record(db, database_faces(db)[i].face.id) == database_faces(db)[i],
{
    let faces = database_faces(db);
    let ids = face_ids(db);
    let id = faces[i].face.id;
    assert(is_face_at(db, id, i));
    let j = choose|j: int| is_face_at(db, id, j);
    assert(is_face_at(db, id, j));
    assert(ids[i] == id && ids[j] == id);
    if i < j {
        assert(ids[i] != ids[j]);
    } else if j < i {
        assert(ids[j] != ids[i]);
    }
}

/// At most one position is that of the first match.
proof fn lemma_first_monospace_unique(faces: Seq<FaceRecord>, attrs: Attrs, i: int)
    requires
        is_first_monospace(faces, attrs, i),
    ensures
        first_monospace(faces, attrs) == Some(faces[i].face.id),
{
    let j = choose|j: int| is_first_monospace(faces, attrs, j);
    assert(is_first_monospace(faces, attrs, j));
    if i < j {
        assert(!is_monospace_match(faces[i].face, attrs));
    } else if j < i {
        assert(!is_monospace_match(faces[j].face, attrs));
    }
}

/// A query that is repeated gives the face that it gave the first time, and
/// the second time changes nothing: the database is asked once for a request.
pub proof fn law_query_repeats(
    start: FontSystem,
    once: FontSystem,
    twice: FontSystem,
    family: Seq<FamilyOwned>,
    again: Seq<FamilyOwned>,
    attrs: Attrs,
    first: Option<fontdb::ID>,
    second: Option<fontdb::ID>,
)
    requires
        family_models(family) == family_models(again),
        query_asked(start, once, family, attrs, first),
        query_asked(once, twice, again, attrs, second),
    ensures
        second == first,
        twice == once,
        occurs_once(twice.query_keys(), font_attrs_model(family, attrs)),
{
}

/// The answer to a request that was not asked before depends on the faces of
/// the database and on its configured families only: two font systems that
/// agree in these give the same answer.
pub proof fn law_query_reads_faces_and_families(
    one: FontSystem,
    one_after: FontSystem,
    other: FontSystem,
    other_after: FontSystem,
    family: Seq<FamilyOwned>,
    attrs: Attrs,
    first: Option<fontdb::ID>,
    second: Option<fontdb::ID>,
)
    requires
        !one.queries().contains_key(font_attrs_model(family, attrs)),
        !other.queries().contains_key(font_attrs_model(family, attrs)),
        database_faces(one.database()) == database_faces(other.database()),
        same_families(one.database(), other.database()),
        query_asked(one, one_after, family, attrs, first),
        query_asked(other, other_after, family, attrs, second),
    ensures
        second == first,
{
    let families = family_models(family);
    assert(family_names(one.database(), families) =~= family_names(other.database(), families));
}

/// A face that the database gave as an answer stays what it is when fonts are
/// loaded: loading keeps every face under its identifier, so the face is
/// still there, with the same description, the same name and the same bytes.
pub proof fn law_faces_outlive_loading(
    start: FontSystem,
    asked: FontSystem,
    loaded: fontdb::Database,
    family: Seq<FamilyOwned>,
    attrs: Attrs,
    id: fontdb::ID,
)
    requires
        !start.queries().contains_key(font_attrs_model(family, attrs)),
        query_asked(start, asked, family, attrs, Some(id)),
        keeps_faces(asked.database(), loaded),
    ensures
        has_face(loaded, id),
        face_record(loaded, id) == face_record(start.database(), id),
        face_name_of(loaded, id) == face_name_of(start.database(), id),
        has_font(loaded, id) == has_font(start.database(), id),
{
}

/// Loading a font file leaves every remembered answer in place: a query that
/// was answered before the file was loaded gets the same answer after it.
pub proof fn law_answers_outlive_loading(
    start: FontSystem,
    once: FontSystem,
    loaded: FontSystem,
    twice: FontSystem,
    family: Seq<FamilyOwned>,
    attrs: Attrs,
    first: Option<fontdb::ID>,
    second: Option<fontdb::ID>,
)
    requires
        query_asked(start, once, family, attrs, first),
        loaded.remembers_as(&once),
        query_asked(loaded, twice, family, attrs, second),
    ensures
        second == first,
{
}

/// A lookup of a font object that is repeated gives what it gave the first
/// time, and the second time changes nothing. A face that had no font object
/// the first time has none the second time, and construction is not tried
/// again.
pub proof fn law_font_repeats(
    start: FontSystem,
    once: FontSystem,
    twice: FontSystem,
    id: fontdb::ID,
    first: Option<Arc<Font>>,
    second: Option<Arc<Font>>,
)
    requires
        font_looked_up(start, once, id, first),
        font_looked_up(once, twice, id, second),
    ensures
        second == first,
        twice == once,
        first is None ==> second is None,
{
}

/// A search for a monospaced face that is repeated gives the face that it gave
/// the first time, and the second time changes nothing.
pub proof fn law_monospace_repeats(
    start: FontSystem,
    once: FontSystem,
    twice: FontSystem,
    attrs: Attrs,
    first: Option<fontdb::ID>,
    second: Option<fontdb::ID>,
)
    requires
        monospace_asked(start, once, attrs, first),
        monospace_asked(once, twice, attrs, second),
    ensures
        second == first,
        twice == once,
{
}

/// Two font systems that remember no search and read databases with the same
/// faces in the same order give the same monospaced face: the first match of
/// the enumeration, whichever other faces match too.
pub proof fn law_monospace_is_first_match(
    one: FontSystem,
    one_after: FontSystem,
    other: FontSystem,
    other_after: FontSystem,
    attrs: Attrs,
    first: Option<fontdb::ID>,
    second: Option<fontdb::ID>,
)
    requires
        !one.monospace().contains_key(monospace_key(attrs)),
        !other.monospace().contains_key(monospace_key(attrs)),
        database_faces(one.database()) == database_faces(other.database()),
        monospace_asked(one, one_after, attrs, first),
        monospace_asked(other, other_after, attrs, second),
    ensures
        second == first,
        first == first_monospace(database_faces(one.database()), attrs),
        forall|i: int|
            is_first_monospace(database_faces(one.database()), attrs, i) ==> first == Some(
                database_faces(one.database())[i].face.id,
            ),
{
    let faces = database_faces(one.database());
    assert forall|i: int| is_first_monospace(faces, attrs, i) implies first == Some(
        faces[i].face.id,
    ) by {
        lemma_first_monospace_unique(faces, attrs, i);
    }
}

/// Loads the font file `data` into the database of `font_system`: each face
/// found in it becomes a face of the database. A collection that claims to
/// hold more faces than it has room for is passed over. What is remembered
/// stays.
pub fn load_font_data(font_system: &mut FontSystem, data: Vec<u8>)
    ensures
        final(font_system).database() == database_loaded(old(font_system).database(), data@),
        keeps_faces(old(font_system).database(), final(font_system).database()),
        new_faces_hold(old(font_system).database(), final(font_system).database(), data@),
        same_families(old(font_system).database(), final(font_system).database()),
        final(font_system).locale_model() == old(font_system).locale_model(),
        final(font_system).remembers_as(old(font_system)),
{
    if check_holds_its_faces(&data) {
        db_load_font_data(&mut font_system.db, data);
    }
}

/// Loads a font file that was read, or hands on the error of reading it.
///
/// With `Ok` of the file's contents this is `load_font_data` and the result is
/// `Ok`. With `Err` nothing changes and the error is returned.
pub fn load_font_file<E>(font_system: &mut FontSystem, contents: Result<Vec<u8>, E>) -> (r: Result<
    (),
    E,
>)
    ensures
        match contents {
            Ok(data) => r is Ok && final(font_system).database() == database_loaded(
                old(font_system).database(),
                data@,
            ) && new_faces_hold(
                old(font_system).database(),
                final(font_system).database(),
                data@,
            ),
            Err(e) => r == Err::<(), E>(e) && final(font_system).database() == old(
                font_system,
            ).database(),
        },
        keeps_faces(old(font_system).database(), final(font_system).database()),
        same_families(old(font_system).database(), final(font_system).database()),
        final(font_system).locale_model() == old(font_system).locale_model(),
        final(font_system).remembers_as(old(font_system)),
{
    match contents {
        Ok(data) => {
            load_font_data(font_system, data);
            Ok(())
        },
        Err(e) => Err(e),
    }
}

/// Loads the font files of a directory, as far as they could be read: each
/// file that was read is loaded, in order, and each that was not is passed
/// over. Returns how many were passed over.
pub fn load_fonts_dir<E>(font_system: &mut FontSystem, files: Vec<Result<Vec<u8>, E>>) -> (skipped:
    usize)
    ensures
        final(font_system).database() == database_with_fonts(
            old(font_system).database(),
            readable(files@),
        ),
        faces_added(old(font_system).database(), final(font_system).database(), readable(files@)),
        skipped == files@.len() - readable(files@).len(),
        final(font_system).locale_model() == old(font_system).locale_model(),
        final(font_system).remembers_as(old(font_system)),
{
    let ghost all = files@;
    let ghost start = font_system.database();
    let mut skipped: usize = 0;
    assert(all.len() == files.len());
    assert(all.take(0) =~= Seq::<Result<Vec<u8>, E>>::empty());
    for file in it: files
        invariant
            it.seq() == all,
            all.len() <= usize::MAX,
            font_system.database() == database_with_fonts(
                start,
                readable(all.take(it.index() as int)),
            ),
            faces_added(start, font_system.database(), readable(all.take(it.index() as int))),
            skipped == it.index() - readable(all.take(it.index() as int)).len(),
            readable(all.take(it.index() as int)).len() <= it.index(),
            font_system.locale_model() == old(font_system).locale_model(),
            font_system.remembers_as(old(font_system)),
    {
        proof {
            let n = it.index() as int;
            assert(all.take(n + 1).drop_last() =~= all.take(n));
            assert(all.take(n + 1).last() == file);
        }
        match file {
            Ok(data) => {
                proof {
                    let done = readable(all.take(it.index() as int));
                    assert(done.push(data@).drop_last() =~= done);
                }
                let ghost between = font_system.database();
                load_font_data(font_system, data);
                proof {
                    lemma_faces_added_more(
                        start,
                        between,
                        font_system.database(),
                        readable(all.take(it.index() as int)),
                        data@,
                    );
                }
            },
            Err(_) => {
                skipped += 1;
            },
        }
    }
    assert(all.take(all.len() as int) =~= all);
    skipped
}

} // verus!
