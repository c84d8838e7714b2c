//! The font database, as far as this library relies on it.
//!
//! The database itself, its face identifiers and its style, weight and stretch
//! values are carried through as opaque values. What the library reads of a
//! face is copied out into [`Face`]. The contracts of the functions that call
//! the database are taken on trust from the database's source: their bodies
//! are not verified.

use crate::attrs::{family_models, FamilyModel, FamilyOwned};
use crate::memo::MemoKey;
use vstd::prelude::*;

verus! {

/// `fontdb::Database`, the font database: opaque.
#[verifier::external_type_specification]
#[verifier::external_body]
pub struct ExDatabase(fontdb::Database);

/// `fontdb::ID`, the identifier that a database gives to a face: opaque.
#[verifier::external_type_specification]
#[verifier::external_body]
pub struct ExFaceId(fontdb::ID);

/// `fontdb::Style`, the style of a face: opaque.
#[verifier::external_type_specification]
#[verifier::external_body]
pub struct ExStyle(fontdb::Style);

/// `fontdb::Weight`, the weight of a face: opaque.
#[verifier::external_type_specification]
#[verifier::external_body]
pub struct ExWeight(fontdb::Weight);

/// `fontdb::Stretch`, the stretch of a face: opaque.
#[verifier::external_type_specification]
#[verifier::external_body]
pub struct ExStretch(fontdb::Stretch);

/// What the library reads of one face of the database, as plain values.
#[derive(Debug)]
pub struct Face {
    pub id: fontdb::ID,
    /// The declared family names, in the database's order.
    pub families: Vec<String>,
    pub post_script_name: String,
    pub style: fontdb::Style,
    pub weight: fontdb::Weight,
    pub stretch: fontdb::Stretch,
    pub monospaced: bool,
    /// The index of the face within its font data.
    pub index: u32,
}

/// The model of a [`Face`].
pub struct FaceModel {
    pub id: fontdb::ID,
    pub families: Seq<Seq<char>>,
    pub post_script_name: Seq<char>,
    pub style: fontdb::Style,
    pub weight: fontdb::Weight,
    pub stretch: fontdb::Stretch,
    pub monospaced: bool,
    pub index: u32,
}

impl View for Face {
    type V = FaceModel;

    open spec fn view(&self) -> FaceModel {
        FaceModel {
            id: self.id,
            families: self.families@.map_values(|s: String| s@),
            post_script_name: self.post_script_name@,
            style: self.style,
            weight: self.weight,
            stretch: self.stretch,
            monospaced: self.monospaced,
            index: self.index,
        }
    }
}

/// One face as the database holds it: its description, and the bytes of its
/// font where the database holds them in memory (`None` where the face's
/// source is only a path to a file).
pub struct FaceRecord {
    pub face: FaceModel,
    pub data: Option<Seq<u8>>,
}

/// The faces that a database holds, in the order in which it enumerates them.
pub uninterp spec fn database_faces(db: fontdb::Database) -> Seq<FaceRecord>;

/// The family name that a database takes a requested family for: the name
/// that was configured for a generic family, and the name itself for a family
/// that is requested by name.
pub uninterp spec fn database_family(db: fontdb::Database, family: FamilyModel) -> Seq<char>;

/// The face that the database's matching algorithm selects among `faces` for
/// a list of family names, most wanted first, and a style, weight and stretch.
pub uninterp spec fn best_match(
    faces: Seq<FaceRecord>,
    names: Seq<Seq<char>>,
    style: fontdb::Style,
    weight: fontdb::Weight,
    stretch: fontdb::Stretch,
) -> Option<fontdb::ID>;

/// The family names that a database takes a list of requested families for.
pub open spec fn family_names(db: fontdb::Database, families: Seq<FamilyModel>) -> Seq<Seq<char>> {
    families.map_values(|family: FamilyModel| database_family(db, family))
}

/// The face that a database selects for a list of requested families and a
/// style, weight and stretch: the best match among its faces for the names
/// that it takes the families for.
pub open spec fn database_query(
    db: fontdb::Database,
    families: Seq<FamilyModel>,
    style: fontdb::Style,
    weight: fontdb::Weight,
    stretch: fontdb::Stretch,
) -> Option<fontdb::ID> {
    best_match(database_faces(db), family_names(db, families), style, weight, stretch)
}

/// The database after a font file was loaded into it.
pub uninterp spec fn database_with_font(db: fontdb::Database, data: Seq<u8>) -> fontdb::Database;

/// Two databases take every requested family for the same family name.
pub open spec fn same_families(one: fontdb::Database, other: fontdb::Database) -> bool {
    forall|family: FamilyModel| #[trigger]
        database_family(one, family) == database_family(other, family)
}

/// `after` takes every family but `family` for what `before` takes it for,
/// and holds the faces of `before`.
pub open spec fn only_family_set(
    before: fontdb::Database,
    after: fontdb::Database,
    family: FamilyModel,
) -> bool {
    &&& database_faces(after) == database_faces(before)
    &&& forall|other: FamilyModel|
        other != family ==> #[trigger] database_family(after, other) == database_family(
            before,
            other,
        )
}

/// The face at position `i` of the enumeration has the identifier `id`.
pub open spec fn is_face_at(db: fontdb::Database, id: fontdb::ID, i: int) -> bool {
    0 <= i < database_faces(db).len() && database_faces(db)[i].face.id == id
}

/// The database holds a face with the identifier `id`.
pub open spec fn has_face(db: fontdb::Database, id: fontdb::ID) -> bool {
    exists|i: int| is_face_at(db, id, i)
}

/// The face that the database holds under `id` (arbitrary if it holds none).
pub open spec fn face_record(db: fontdb::Database, id: fontdb::ID) -> FaceRecord {
    database_faces(db)[choose|i: int| is_face_at(db, id, i)]
}

/// The identifiers of the faces, in the order of the enumeration.
pub open spec fn face_ids(db: fontdb::Database) -> Seq<fontdb::ID> {
    database_faces(db).map_values(|r: FaceRecord| r.face.id)
}

/// No identifier occurs twice in `ids`.
pub open spec fn distinct_ids(ids: Seq<fontdb::ID>) -> bool {
    forall|i: int, j: int| 0 <= i < j < ids.len() ==> ids[i] != ids[j]
}

/// Every face of `before` is a face of `after`, unchanged.
pub open spec fn keeps_faces(before: fontdb::Database, after: fontdb::Database) -> bool {
    forall|id: fontdb::ID| #[trigger]
        has_face(before, id) ==> has_face(after, id) && face_record(after, id) == face_record(
            before,
            id,
        )
}

/// Every face of `after` that is not a face of `before` has `data` as its font bytes.
pub open spec fn new_faces_hold(
    before: fontdb::Database,
    after: fontdb::Database,
    data: Seq<u8>,
) -> bool {
    forall|id: fontdb::ID| #[trigger]
        has_face(after, id) && !has_face(before, id) ==> face_record(after, id).data == Some(data)
}

/// `PartialEq::eq` of `fontdb::ID`, which is derived and compares the whole
/// identifier: two identifiers test equal exactly when they are the same value.
#[verifier::external_body]
pub(crate) fn same_id(a: fontdb::ID, b: fontdb::ID) -> (r: bool)
    ensures
        r == (a == b),
{
    a == b
}

/// `PartialEq::eq` of `fontdb::Style`, derived on an enum without fields: two
/// styles test equal exactly when they are the same variant.
#[verifier::external_body]
pub(crate) fn same_style(a: fontdb::Style, b: fontdb::Style) -> (r: bool)
    ensures
        r == (a == b),
{
    a == b
}

/// `PartialEq::eq` of `fontdb::Weight`, derived on a wrapper of one `u16`: two
/// weights test equal exactly when they hold the same number.
#[verifier::external_body]
pub(crate) fn same_weight(a: fontdb::Weight, b: fontdb::Weight) -> (r: bool)
    ensures
        r == (a == b),
{
    a == b
}

/// `PartialEq::eq` of `fontdb::Stretch`, derived on an enum without fields: two
/// stretches test equal exactly when they are the same variant.
#[verifier::external_body]
pub(crate) fn same_stretch(a: fontdb::Stretch, b: fontdb::Stretch) -> (r: bool)
    ensures
        r == (a == b),
{
    a == b
}

/// `fontdb::Database::new`: a database without faces.
#[verifier::external_body]
pub(crate) fn db_new() -> (db: fontdb::Database)
    ensures
        database_faces(db) == Seq::<FaceRecord>::empty(),
{
    fontdb::Database::new()
}

/// `fontdb::Database::set_monospace_family`: names the family that stands for
/// the generic monospace family. It stores the name, and leaves the faces and
/// the other families alone.
#[verifier::external_body]
pub(crate) fn db_set_monospace_family(db: &mut fontdb::Database, family: &str)
    ensures
        database_family(*final(db), FamilyModel::Monospace) == family@,
        only_family_set(*old(db), *final(db), FamilyModel::Monospace),
{
    db.set_monospace_family(family)
}

/// `fontdb::Database::set_sans_serif_family`: names the family that stands for
/// the generic sans-serif family. It stores the name, and leaves the faces and
/// the other families alone.
#[verifier::external_body]
pub(crate) fn db_set_sans_serif_family(db: &mut fontdb::Database, family: &str)
    ensures
        database_family(*final(db), FamilyModel::SansSerif) == family@,
        only_family_set(*old(db), *final(db), FamilyModel::SansSerif),
{
    db.set_sans_serif_family(family)
}

/// `fontdb::Database::set_serif_family`: names the family that stands for the
/// generic serif family. It stores the name, and leaves the faces and the
/// other families alone.
#[verifier::external_body]
pub(crate) fn db_set_serif_family(db: &mut fontdb::Database, family: &str)
    ensures
        database_family(*final(db), FamilyModel::Serif) == family@,
        only_family_set(*old(db), *final(db), FamilyModel::Serif),
{
    db.set_serif_family(family)
}

/// The font data starts with the tag of a font collection.
pub open spec fn is_collection(data: Seq<u8>) -> bool {
    data.len() >= 4 && data[0] == 0x74 && data[1] == 0x74 && data[2] == 0x63 && data[3] == 0x66
}

/// The number of faces that font data claims to hold: what the header of a
/// collection says, and one for any other data.
pub open spec fn claimed_faces(data: Seq<u8>) -> int {
    if is_collection(data) && data.len() >= 12 {
        ((data[8] as int * 256 + data[9] as int) * 256 + data[10] as int) * 256 + data[11] as int
    } else {
        1
    }
}

/// The data is long enough for what it claims: the header of a collection is
/// followed by one offset of four bytes for each face.
pub open spec fn holds_its_faces(data: Seq<u8>) -> bool {
    is_collection(data) ==> 12 + 4 * claimed_faces(data) <= data.len()
}

/// Whether the data is long enough for the faces that it claims to hold.
pub fn check_holds_its_faces(data: &Vec<u8>) -> (r: bool)
    ensures
        r == holds_its_faces(data@),
{
    if data.len() < 4 || data[0] != 0x74 || data[1] != 0x74 || data[2] != 0x63 || data[3] != 0x66 {
        return true;
    }
    if data.len() < 12 {
        return false;
    }
    let claimed: u64 = ((data[8] as u64 * 256 + data[9] as u64) * 256 + data[10] as u64) * 256
        + data[11] as u64;
    let room: u64 = (data.len() - 12) as u64 / 4;
    claimed <= room
}

/// `fontdb::Database::load_font_data`: parses `data` and adds each face found
/// in it, with `data` as its font bytes. What it adds is decided by the
/// database and the bytes. It only inserts: the faces held before stay as they
/// were, under their identifiers, and the configured families stay.
///
/// The database reserves memory for as many faces as a collection claims to
/// hold before it reads any of them, so data that claims more faces than it
/// has room for is left out.
#[verifier::external_body]
pub(crate) fn db_load_font_data(db: &mut fontdb::Database, data: Vec<u8>)
    requires
        holds_its_faces(data@),
    ensures
        *final(db) == database_with_font(*old(db), data@),
        keeps_faces(*old(db), *final(db)),
        new_faces_hold(*old(db), *final(db), data@),
        same_families(*old(db), *final(db)),
{
    db.load_font_data(data)
}

/// `fontdb::Database::faces`, each face mapped to its identifier: the
/// identifiers in the order of the enumeration. The database keys its faces by
/// identifier, so none occurs twice.
#[verifier::external_body]
pub(crate) fn db_face_ids(db: &fontdb::Database) -> (ids: Vec<fontdb::ID>)
    ensures
        ids@ == face_ids(*db),
        distinct_ids(ids@),
{
    db.faces().map(|info| info.id).collect()
}

/// `fontdb::Database::face`: the face held under `id`, copied into plain
/// values, or `None` where the database holds no face under `id`.
#[verifier::external_body]
pub(crate) fn db_face(db: &fontdb::Database, id: fontdb::ID) -> (r: Option<Face>)
    ensures
        r is Some <==> has_face(*db, id),
        r is Some ==> r.unwrap()@ == face_record(*db, id).face,
{
    let info = db.face(id)?;
    Some(
        Face {
            id: info.id,
            families: info.families.iter().map(|name| name.0.clone()).collect(),
            post_script_name: info.post_script_name.clone(),
            style: info.style,
            weight: info.weight,
            stretch: info.stretch,
            monospaced: info.monospaced,
            index: info.index,
        },
    )
}

/// `fontdb::Database::face_source`, reduced to the font bytes of the source
/// that it returns: a copy of the bytes where the source holds them in memory,
/// `None` where the database holds no face under `id` or the source is only a
/// path.
#[verifier::external_body]
pub(crate) fn db_face_data(db: &fontdb::Database, id: fontdb::ID) -> (r: Option<Vec<u8> >)
    ensures
        match r {
            Some(bytes) => has_face(*db, id) && face_record(*db, id).data == Some(bytes@),
            None => !has_face(*db, id) || face_record(*db, id).data is None,
        },
{
    match db.face_source(id)?.0 {
        fontdb::Source::Binary(data) => Some((*data).as_ref().to_vec()),
        fontdb::Source::File(_) => None,
        fontdb::Source::SharedFile(_, data) => Some((*data).as_ref().to_vec()),
    }
}

/// `fontdb::Database::query`: the face that the database's matching algorithm
/// selects. It takes each requested family for a family name and matches the
/// names against the family names, styles, weights and stretches of its faces,
/// in the order of the enumeration: the answer is decided by the faces, the
/// names and the requested style, weight and stretch. Whatever it selects is
/// one of the database's faces.
#[verifier::external_body]
pub(crate) fn db_query(
    db: &fontdb::Database,
    families: &[FamilyOwned],
    style: fontdb::Style,
    weight: fontdb::Weight,
    stretch: fontdb::Stretch,
) -> (r: Option<fontdb::ID>)
    ensures
        r == best_match(
            database_faces(*db),
            family_names(*db, family_models(families@)),
            style,
            weight,
            stretch,
        ),
        r is Some ==> has_face(*db, r.unwrap()),
{
    let families: Vec<fontdb::Family> = families.iter().map(
        |family| match family {
            FamilyOwned::Name(name) => fontdb::Family::Name(name),
            FamilyOwned::Serif => fontdb::Family::Serif,
            FamilyOwned::SansSerif => fontdb::Family::SansSerif,
            FamilyOwned::Cursive => fontdb::Family::Cursive,
            FamilyOwned::Fantasy => fontdb::Family::Fantasy,
            FamilyOwned::Monospace => fontdb::Family::Monospace,
        },
    ).collect();
    db.query(&fontdb::Query { families: &families, weight, stretch, style })
}

impl MemoKey for fontdb::ID {
    type Model = fontdb::ID;

    open spec fn model(&self) -> fontdb::ID {
        *self
    }

    fn same(&self, other: &Self) -> (r: bool) {
        same_id(*self, *other)
    }
}

} // verus!
