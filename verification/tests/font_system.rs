use std::sync::Arc;

use font_cache::database::check_holds_its_faces;
use font_cache::{
    load_font_data, load_font_file, load_fonts_dir, locale_or_default, Attrs, FamilyOwned,
    FontSystem,
};
use fontdb::{Stretch, Style, Weight};

fn put16(out: &mut Vec<u8>, value: u16) {
    out.extend_from_slice(&value.to_be_bytes());
}

fn put32(out: &mut Vec<u8>, value: u32) {
    out.extend_from_slice(&value.to_be_bytes());
}

fn utf16(text: &str) -> Vec<u8> {
    let mut out = Vec::new();
    for unit in text.encode_utf16() {
        put16(&mut out, unit);
    }
    out
}

fn name_table(family: &str, post_script: &str) -> Vec<u8> {
    let family = utf16(family);
    let post_script = utf16(post_script);
    let mut table = Vec::new();
    put16(&mut table, 0);
    put16(&mut table, 2);
    put16(&mut table, 6 + 2 * 12);
    for (name_id, length, offset) in [(1u16, family.len(), 0usize), (6u16, post_script.len(), family.len())] {
        put16(&mut table, 3);
        put16(&mut table, 1);
        put16(&mut table, 0x0409);
        put16(&mut table, name_id);
        put16(&mut table, length as u16);
        put16(&mut table, offset as u16);
    }
    table.extend_from_slice(&family);
    table.extend_from_slice(&post_script);
    table
}

fn os2_table(weight: u16, width: u16, italic: bool) -> Vec<u8> {
    let mut table = vec![0u8; 78];
    table[4..6].copy_from_slice(&weight.to_be_bytes());
    table[6..8].copy_from_slice(&width.to_be_bytes());
    if italic {
        table[63] = 1;
    }
    table
}

fn post_table(monospaced: bool) -> Vec<u8> {
    let mut table = vec![0u8; 32];
    if monospaced {
        table[15] = 1;
    }
    table
}

/// A font file with one face that declares the given names and attributes.
fn font_file(family: &str, post_script: &str, weight: u16, width: u16, italic: bool, monospaced: bool) -> Vec<u8> {
    let tables: [(&[u8; 4], Vec<u8>); 3] = [
        (b"OS/2", os2_table(weight, width, italic)),
        (b"name", name_table(family, post_script)),
        (b"post", post_table(monospaced)),
    ];
    let mut file = Vec::new();
    put32(&mut file, 0x0001_0000);
    put16(&mut file, 3);
    put16(&mut file, 0);
    put16(&mut file, 0);
    put16(&mut file, 0);
    let mut offset = 12 + 16 * tables.len();
    for (tag, table) in tables.iter() {
        file.extend_from_slice(&tag[..]);
        put32(&mut file, 0);
        put32(&mut file, offset as u32);
        put32(&mut file, table.len() as u32);
        offset += table.len();
    }
    for (_, table) in tables.iter() {
        file.extend_from_slice(table);
    }
    file
}

fn plain(family: &str) -> Vec<u8> {
    font_file(family, &format!("{}-Regular", family), 400, 5, false, false)
}

fn attrs() -> Attrs {
    Attrs { monospaced: false, stretch: Stretch::Normal, style: Style::Normal, weight: Weight::NORMAL }
}

fn named(family: &str) -> Vec<FamilyOwned> {
    vec![FamilyOwned::Name(family.to_string())]
}

/// The identifier that a database gives to the first face loaded into it.
fn first_id(file: Vec<u8>) -> fontdb::ID {
    let mut db = fontdb::Database::new();
    db.load_font_data(file);
    let id = db.faces().next().map(|face| face.id);
    id.unwrap()
}

fn unnamed_face(post_script: &str, source: fontdb::Source) -> fontdb::FaceInfo {
    fontdb::FaceInfo {
        id: fontdb::ID::dummy(),
        source,
        index: 0,
        families: Vec::new(),
        post_script_name: post_script.to_string(),
        style: Style::Normal,
        weight: Weight::NORMAL,
        stretch: Stretch::Normal,
        monospaced: false,
    }
}

#[test]
fn new_system_has_no_faces() {
    let system = FontSystem::new();
    assert_eq!(system.db().len(), 0);
    assert_eq!(
        system.locale(),
        sys_locale::get_locale().unwrap_or_else(|| "en-US".to_string())
    );
}

#[test]
fn locale_falls_back_to_en_us() {
    assert_eq!(locale_or_default(None), "en-US");
    assert_eq!(locale_or_default(Some("fr-FR".to_string())), "fr-FR");
    assert_eq!(locale_or_default(Some(String::new())), "");
}

#[test]
fn new_with_locale_and_db_keeps_both() {
    let mut db = fontdb::Database::new();
    db.load_font_data(plain("Alpha"));
    let mut system = FontSystem::new_with_locale_and_db("de-DE".to_string(), db);
    assert_eq!(system.locale(), "de-DE");
    assert_eq!(system.db().len(), 1);
    let id = system.query(&named("Alpha"), attrs()).unwrap();
    assert_eq!(system.face_name(id), "Alpha");
}

#[test]
fn new_with_fonts_loads_in_order() {
    let system = FontSystem::new_with_fonts(vec![plain("Alpha"), plain("Beta"), plain("Gamma")]);
    let names: Vec<String> = system.db().faces().map(|face| face.families[0].0.clone()).collect();
    assert_eq!(names, vec!["Alpha", "Beta", "Gamma"]);
}

#[test]
fn new_sets_generic_families() {
    let mut system = FontSystem::new_with_fonts(vec![
        plain("Other"),
        plain("Fira Mono"),
        plain("Fira Sans"),
        plain("DejaVu Serif"),
    ]);
    let mono = system.query(&[FamilyOwned::Monospace], attrs()).unwrap();
    assert_eq!(system.face_name(mono), "Fira Mono");
    let sans = system.query(&[FamilyOwned::SansSerif], attrs()).unwrap();
    assert_eq!(system.face_name(sans), "Fira Sans");
    let serif = system.query(&[FamilyOwned::Serif], attrs()).unwrap();
    assert_eq!(system.face_name(serif), "DejaVu Serif");
    assert_eq!(system.query(&[FamilyOwned::Cursive], attrs()), None);
}

#[test]
fn query_round_trip_gives_the_declared_family() {
    let mut system = FontSystem::new();
    load_font_data(&mut system, plain("Round Trip"));
    let id = system.query(&named("Round Trip"), attrs()).unwrap();
    assert_eq!(system.face_name(id), "Round Trip");
}

#[test]
fn query_twice_gives_the_same_face() {
    let mut system = FontSystem::new_with_fonts(vec![plain("Alpha"), plain("Beta")]);
    let first = system.query(&named("Beta"), attrs());
    let second = system.query(&named("Beta"), attrs());
    assert!(first.is_some());
    assert_eq!(first, second);
    assert_eq!(first, Some(first_id_of(&system, "Beta")));
}

fn first_id_of(system: &FontSystem, family: &str) -> fontdb::ID {
    let found = system.db().faces().find(|face| face.families[0].0 == family).map(|face| face.id);
    found.unwrap()
}

#[test]
fn query_takes_the_first_family_that_has_a_face() {
    let mut system = FontSystem::new_with_fonts(vec![plain("Alpha"), plain("Beta")]);
    let wanted = vec![
        FamilyOwned::Name("Missing".to_string()),
        FamilyOwned::Name("Beta".to_string()),
        FamilyOwned::Name("Alpha".to_string()),
    ];
    let id = system.query(&wanted, attrs()).unwrap();
    assert_eq!(system.face_name(id), "Beta");
}

#[test]
fn query_matches_weight_within_a_family() {
    let mut system = FontSystem::new_with_fonts(vec![
        font_file("Alpha", "Alpha-Regular", 400, 5, false, false),
        font_file("Alpha", "Alpha-Bold", 700, 5, false, false),
    ]);
    let bold = Attrs { weight: Weight::BOLD, ..attrs() };
    let id = system.query(&named("Alpha"), bold).unwrap();
    assert_eq!(system.db().face(id).unwrap().post_script_name, "Alpha-Bold");
    let regular = system.query(&named("Alpha"), attrs()).unwrap();
    assert_eq!(system.db().face(regular).unwrap().post_script_name, "Alpha-Regular");
}

#[test]
fn query_answer_is_remembered_when_it_is_none() {
    let mut system = FontSystem::new();
    assert_eq!(system.query(&named("Late"), attrs()), None);
    load_font_data(&mut system, plain("Late"));
    assert_eq!(system.db().len(), 1);
    // The remembered answer stands; the database is not asked again.
    assert_eq!(system.query(&named("Late"), attrs()), None);
    // A request that differs in the preference for a monospaced face is another request.
    let other = Attrs { monospaced: true, ..attrs() };
    assert!(system.query(&named("Late"), other).is_some());
}

#[test]
fn query_answer_outlives_loading() {
    let mut system = FontSystem::new_with_fonts(vec![font_file("Alpha", "Alpha-Bold", 700, 5, false, false)]);
    let first = system.query(&named("Alpha"), attrs()).unwrap();
    assert_eq!(system.db().face(first).unwrap().post_script_name, "Alpha-Bold");
    load_font_data(&mut system, font_file("Alpha", "Alpha-Regular", 400, 5, false, false));
    assert_eq!(system.query(&named("Alpha"), attrs()), Some(first));
    let mut fresh = FontSystem::new_with_fonts(vec![
        font_file("Alpha", "Alpha-Bold", 700, 5, false, false),
        font_file("Alpha", "Alpha-Regular", 400, 5, false, false),
    ]);
    let better = fresh.query(&named("Alpha"), attrs()).unwrap();
    assert_eq!(fresh.db().face(better).unwrap().post_script_name, "Alpha-Regular");
}

#[test]
fn get_font_shares_one_object() {
    let file = plain("Alpha");
    let mut system = FontSystem::new_with_fonts(vec![file.clone()]);
    let id = system.query(&named("Alpha"), attrs()).unwrap();
    let first = system.get_font(id).unwrap();
    let second = system.get_font(id).unwrap();
    assert!(Arc::ptr_eq(&first, &second));
    assert_eq!(first.id(), id);
    assert_eq!(first.data(), &file);
    assert_eq!(first.index(), 0);
    assert_eq!(first.offset(), 0);
    assert_eq!(first.key(), second.key());
}

#[test]
fn get_font_of_an_unknown_face_is_none() {
    let mut system = FontSystem::new_with_fonts(vec![plain("Alpha")]);
    assert!(system.get_font(fontdb::ID::dummy()).is_none());
    assert!(system.get_font(fontdb::ID::dummy()).is_none());
}

#[test]
fn get_font_remembers_that_a_face_has_none() {
    let file = plain("Late");
    let id = first_id(file.clone());
    let mut system = FontSystem::new();
    assert!(system.get_font(id).is_none());
    load_font_data(&mut system, file.clone());
    assert_eq!(system.face_name(id), "Late");
    // The face is there now, but the outcome of the first lookup stands.
    assert!(system.get_font(id).is_none());
    let mut fresh = FontSystem::new_with_fonts(vec![file]);
    assert!(fresh.get_font(id).is_some());
}

#[test]
fn get_font_of_an_unreadable_face_is_none() {
    let mut system = FontSystem::new();
    let source = fontdb::Source::Binary(Arc::new(vec![1u8, 2, 3]));
    let id = system.db_mut().push_face_info(unnamed_face("Broken", source));
    assert!(system.get_font(id).is_none());
    assert!(system.get_font(id).is_none());
    assert_eq!(system.face_name(id), "Broken");
}

#[test]
fn get_font_needs_the_bytes_in_memory() {
    let mut system = FontSystem::new();
    let source = fontdb::Source::File("/nowhere/at/all.ttf".into());
    let id = system.db_mut().push_face_info(unnamed_face("OnDisk", source));
    assert!(system.get_font(id).is_none());
}

#[test]
fn get_font_reads_a_face_of_a_collection() {
    let face = plain("Alpha");
    let mut file = Vec::new();
    file.extend_from_slice(b"ttcf");
    put32(&mut file, 0x0001_0000);
    put32(&mut file, 1);
    put32(&mut file, 16);
    let start = file.len();
    // Offsets inside a face count from the start of the file.
    let mut shifted = face.clone();
    for record in 0..3 {
        let at = 12 + 16 * record + 8;
        let offset = u32::from_be_bytes([face[at], face[at + 1], face[at + 2], face[at + 3]]);
        shifted[at..at + 4].copy_from_slice(&(offset + start as u32).to_be_bytes());
    }
    file.extend_from_slice(&shifted);
    let mut system = FontSystem::new_with_fonts(vec![file]);
    let id = system.query(&named("Alpha"), attrs()).unwrap();
    let font = system.get_font(id).unwrap();
    assert_eq!(font.index(), 0);
    assert_eq!(font.offset(), 16);
}

#[test]
fn face_name_prefers_the_first_family() {
    let mut system = FontSystem::new_with_fonts(vec![plain("Alpha")]);
    let id = system.query(&named("Alpha"), attrs()).unwrap();
    assert_eq!(system.face_name(id), "Alpha");
}

#[test]
fn face_name_falls_back_to_the_post_script_name() {
    let mut system = FontSystem::new();
    let source = fontdb::Source::Binary(Arc::new(plain("Hidden")));
    let id = system.db_mut().push_face_info(unnamed_face("Hidden-PS", source));
    assert_eq!(system.face_name(id), "Hidden-PS");
}

#[test]
fn face_name_of_an_unknown_face() {
    let system = FontSystem::new_with_fonts(vec![plain("Alpha")]);
    assert_eq!(system.face_name(fontdb::ID::dummy()), "invalid font id");
}

#[test]
fn query_monospace_takes_the_first_match() {
    let files = vec![
        font_file("Prop", "Prop-Regular", 400, 5, false, false),
        font_file("Mono Bold", "MonoBold", 700, 5, false, true),
        font_file("Mono One", "MonoOne", 400, 5, false, true),
        font_file("Mono Two", "MonoTwo", 400, 5, false, true),
    ];
    let mut system = FontSystem::new_with_fonts(files.clone());
    let id = system.query_monospace(&attrs()).unwrap();
    assert_eq!(system.face_name(id), "Mono One");
    assert_eq!(system.query_monospace(&attrs()), Some(id));
    let mut again = FontSystem::new_with_fonts(files);
    assert_eq!(again.query_monospace(&attrs()), Some(id));
    assert_eq!(again.face_name(id), "Mono One");
}

#[test]
fn query_monospace_matches_attributes_exactly() {
    let mut system = FontSystem::new_with_fonts(vec![
        font_file("Mono Bold", "MonoBold", 700, 5, false, true),
        font_file("Mono Wide", "MonoWide", 400, 7, false, true),
        font_file("Mono Italic", "MonoItalic", 400, 5, true, true),
    ]);
    assert_eq!(system.query_monospace(&attrs()), None);
    let bold = Attrs { weight: Weight::BOLD, ..attrs() };
    let id = system.query_monospace(&bold).unwrap();
    assert_eq!(system.face_name(id), "Mono Bold");
    let wide = Attrs { stretch: Stretch::Expanded, ..attrs() };
    let id = system.query_monospace(&wide).unwrap();
    assert_eq!(system.face_name(id), "Mono Wide");
    let italic = Attrs { style: Style::Italic, ..attrs() };
    let id = system.query_monospace(&italic).unwrap();
    assert_eq!(system.face_name(id), "Mono Italic");
}

#[test]
fn query_monospace_ignores_the_monospace_preference() {
    let mut system = FontSystem::new_with_fonts(vec![font_file("Mono", "Mono", 400, 5, false, true)]);
    let id = system.query_monospace(&attrs()).unwrap();
    let preferring = Attrs { monospaced: true, ..attrs() };
    assert_eq!(system.query_monospace(&preferring), Some(id));
}

#[test]
fn query_monospace_remembers_that_there_is_none() {
    let mut system = FontSystem::new_with_fonts(vec![plain("Prop")]);
    assert_eq!(system.query_monospace(&attrs()), None);
    load_font_data(&mut system, font_file("Mono", "Mono", 400, 5, false, true));
    assert_eq!(system.query_monospace(&attrs()), None);
    let bold = Attrs { weight: Weight::BOLD, ..attrs() };
    assert_eq!(system.query_monospace(&bold), None);
}

#[test]
fn load_font_data_adds_the_faces_and_keeps_the_others() {
    let mut system = FontSystem::new_with_fonts(vec![plain("Alpha")]);
    let alpha = system.query(&named("Alpha"), attrs()).unwrap();
    load_font_data(&mut system, plain("Beta"));
    assert_eq!(system.db().len(), 2);
    assert_eq!(system.face_name(alpha), "Alpha");
    let beta = system.query(&named("Beta"), attrs()).unwrap();
    assert_ne!(alpha, beta);
    assert_eq!(system.get_font(beta).unwrap().data(), &plain("Beta"));
}

#[test]
fn load_font_data_passes_over_what_is_no_font() {
    let mut system = FontSystem::new();
    load_font_data(&mut system, vec![0u8; 64]);
    load_font_data(&mut system, Vec::new());
    assert_eq!(system.db().len(), 0);
}

#[test]
fn load_font_file_loads_what_was_read() {
    let mut system = FontSystem::new();
    let loaded: Result<(), String> = load_font_file(&mut system, Ok(plain("Alpha")));
    assert_eq!(loaded, Ok(()));
    assert_eq!(system.db().len(), 1);
}

#[test]
fn load_font_file_hands_on_the_error() {
    let mut system = FontSystem::new_with_fonts(vec![plain("Alpha")]);
    let failed = load_font_file(&mut system, Err("not found".to_string()));
    assert_eq!(failed, Err("not found".to_string()));
    assert_eq!(system.db().len(), 1);
}

#[test]
fn load_fonts_dir_passes_over_unreadable_files() {
    let mut system = FontSystem::new();
    let files = vec![
        Ok(plain("Alpha")),
        Err("denied".to_string()),
        Ok(vec![9u8; 10]),
        Ok(plain("Beta")),
        Err("gone".to_string()),
    ];
    let skipped = load_fonts_dir(&mut system, files);
    assert_eq!(skipped, 2);
    let names: Vec<String> = system.db().faces().map(|face| face.families[0].0.clone()).collect();
    assert_eq!(names, vec!["Alpha", "Beta"]);
}

#[test]
fn load_fonts_dir_of_nothing() {
    let mut system = FontSystem::new();
    let files: Vec<Result<Vec<u8>, String>> = Vec::new();
    assert_eq!(load_fonts_dir(&mut system, files), 0);
    assert_eq!(system.db().len(), 0);
}

#[test]
fn cached_lookups_read_what_is_remembered() {
    let mut system = FontSystem::new_with_fonts(vec![font_file("Mono", "Mono", 400, 5, false, true)]);
    assert_eq!(system.cached_query(&named("Mono"), attrs()), None);
    assert_eq!(system.cached_query(&named("None"), attrs()), None);
    assert_eq!(system.cached_monospace(&attrs()), None);
    let id = system.query(&named("Mono"), attrs()).unwrap();
    assert!(system.cached_font(id).is_none());
    assert_eq!(system.query(&named("None"), attrs()), None);
    assert_eq!(system.cached_query(&named("Mono"), attrs()), Some(Some(id)));
    assert_eq!(system.cached_query(&named("None"), attrs()), Some(None));
    assert_eq!(system.query_monospace(&attrs()), Some(id));
    assert_eq!(system.cached_monospace(&attrs()), Some(Some(id)));
    let bold = Attrs { weight: Weight::BOLD, ..attrs() };
    assert_eq!(system.cached_monospace(&bold), None);
    assert_eq!(system.query_monospace(&bold), None);
    assert_eq!(system.cached_monospace(&bold), Some(None));
    let font = system.get_font(id).unwrap();
    assert!(Arc::ptr_eq(&font, &system.cached_font(id).unwrap().unwrap()));
    assert!(system.cached_font(fontdb::ID::dummy()).is_none());
    assert!(system.get_font(fontdb::ID::dummy()).is_none());
    assert!(matches!(system.cached_font(fontdb::ID::dummy()), Some(None)));
}

#[test]
fn cache_query_keeps_the_first_answer() {
    let mut system = FontSystem::new_with_fonts(vec![plain("Alpha"), plain("Beta")]);
    let alpha = first_id_of(&system, "Alpha");
    let beta = first_id_of(&system, "Beta");
    let key = || font_cache::FontAttrs::new(&named("Anything"), attrs());
    assert_eq!(system.cache_query(key(), Some(alpha)), Some(alpha));
    assert_eq!(system.cache_query(key(), Some(beta)), Some(alpha));
    assert_eq!(system.cache_query(key(), None), Some(alpha));
    assert_eq!(system.query(&named("Anything"), attrs()), Some(alpha));
}

#[test]
fn cache_font_keeps_the_first_outcome() {
    let file = plain("Alpha");
    let mut system = FontSystem::new_with_fonts(vec![file.clone()]);
    let id = first_id_of(&system, "Alpha");
    assert!(system.cache_font(id, None).is_none());
    let face = font_cache::database::Face {
        id,
        families: vec!["Alpha".to_string()],
        post_script_name: "Alpha-Regular".to_string(),
        style: Style::Normal,
        weight: Weight::NORMAL,
        stretch: Stretch::Normal,
        monospaced: false,
        index: 0,
    };
    let font = font_cache::Font::new(&face, file.clone()).unwrap();
    assert_eq!(font.offset(), 0);
    assert!(system.cache_font(id, Some(font)).is_none());
    assert!(system.get_font(id).is_none());
    assert!(font_cache::Font::new(&face, vec![0u8; 16]).is_none());
    assert!(font_cache::Font::new(&face, Vec::new()).is_none());
    let second = font_cache::database::Face { index: 1, ..face };
    assert!(font_cache::Font::new(&second, file).is_none());
}

#[test]
fn load_font_data_passes_over_a_collection_without_room() {
    let mut system = FontSystem::new_with_fonts(vec![plain("Alpha")]);
    let mut claims_many = Vec::new();
    claims_many.extend_from_slice(b"ttcf");
    put32(&mut claims_many, 0x0001_0000);
    put32(&mut claims_many, u32::MAX);
    load_font_data(&mut system, claims_many.clone());
    claims_many.extend_from_slice(&[0u8; 64]);
    load_font_data(&mut system, claims_many);
    load_font_data(&mut system, b"ttcf".to_vec());
    load_font_data(&mut system, b"ttcf\0\x01\0\0\0\0".to_vec());
    assert_eq!(system.db().len(), 1);
}

#[test]
fn check_holds_its_faces_counts_the_offsets() {
    assert!(check_holds_its_faces(&Vec::new()));
    assert!(check_holds_its_faces(&plain("Alpha")));
    assert!(check_holds_its_faces(&b"ttc".to_vec()));
    assert!(!check_holds_its_faces(&b"ttcf".to_vec()));
    assert!(!check_holds_its_faces(&b"ttcf\0\0\0\0\0\0\0".to_vec()));
    let with = |count: u32, offsets: usize| {
        let mut data = b"ttcf\0\x01\0\0".to_vec();
        put32(&mut data, count);
        data.extend_from_slice(&vec![0u8; offsets]);
        data
    };
    assert!(check_holds_its_faces(&with(0, 0)));
    assert!(!check_holds_its_faces(&with(1, 3)));
    assert!(check_holds_its_faces(&with(1, 4)));
    assert!(!check_holds_its_faces(&with(2, 7)));
    assert!(check_holds_its_faces(&with(2, 8)));
    assert!(!check_holds_its_faces(&with(0x0100_0000, 1024)));
    assert!(!check_holds_its_faces(&with(u32::MAX, 1024)));
}
