use font_cache::memo::{Memo, MemoKey};
use font_cache::{Attrs, FamilyOwned, FontAttrs, GlyphKey, SubpixelBin};
use fontdb::{Stretch, Style, Weight};

fn attrs() -> Attrs {
    Attrs { monospaced: false, stretch: Stretch::Normal, style: Style::Normal, weight: Weight::NORMAL }
}

fn request(names: &[&str], attrs: Attrs) -> FontAttrs {
    let family: Vec<FamilyOwned> = names.iter().map(|name| FamilyOwned::Name(name.to_string())).collect();
    FontAttrs::new(&family, attrs)
}

#[test]
fn memo_starts_empty() {
    let memo: Memo<fontdb::ID, u32> = Memo::new();
    assert_eq!(memo.len(), 0);
    assert!(!memo.contains(&fontdb::ID::dummy()));
    assert_eq!(memo.get(&fontdb::ID::dummy()), None);
}

#[test]
fn memo_inserts_once() {
    let mut memo: Memo<fontdb::ID, u32> = Memo::new();
    assert_eq!(*memo.insert_if_absent(fontdb::ID::dummy(), 1), 1);
    assert_eq!(*memo.insert_if_absent(fontdb::ID::dummy(), 2), 1);
    assert_eq!(memo.len(), 1);
    assert!(memo.contains(&fontdb::ID::dummy()));
    assert_eq!(memo.get(&fontdb::ID::dummy()), Some(&1));
}

#[test]
fn memo_tells_requests_apart() {
    let mut memo: Memo<FontAttrs, u8> = Memo::new();
    memo.insert_if_absent(request(&["A", "B"], attrs()), 1);
    memo.insert_if_absent(request(&["B", "A"], attrs()), 2);
    memo.insert_if_absent(request(&["A"], attrs()), 3);
    memo.insert_if_absent(request(&[], attrs()), 4);
    memo.insert_if_absent(request(&["A", "B"], Attrs { monospaced: true, ..attrs() }), 5);
    memo.insert_if_absent(request(&["A", "B"], Attrs { weight: Weight::BOLD, ..attrs() }), 6);
    memo.insert_if_absent(request(&["A", "B"], Attrs { style: Style::Oblique, ..attrs() }), 7);
    memo.insert_if_absent(request(&["A", "B"], Attrs { stretch: Stretch::Condensed, ..attrs() }), 8);
    assert_eq!(memo.len(), 8);
    assert_eq!(memo.get(&request(&["A", "B"], attrs())), Some(&1));
    assert_eq!(memo.get(&request(&["B", "A"], attrs())), Some(&2));
    assert_eq!(memo.get(&request(&["A"], attrs())), Some(&3));
    assert_eq!(memo.get(&request(&[], attrs())), Some(&4));
    assert_eq!(memo.get(&request(&["A", "B"], Attrs { weight: Weight(700), ..attrs() })), Some(&6));
    assert_eq!(memo.get(&request(&["B"], attrs())), None);
}

#[test]
fn families_are_the_same_by_class_or_name() {
    let name = |text: &str| FamilyOwned::Name(text.to_string());
    assert!(name("A").same(&name("A")));
    assert!(!name("A").same(&name("B")));
    assert!(!name("serif").same(&FamilyOwned::Serif));
    let classes = [
        FamilyOwned::Serif,
        FamilyOwned::SansSerif,
        FamilyOwned::Cursive,
        FamilyOwned::Fantasy,
        FamilyOwned::Monospace,
    ];
    for (i, one) in classes.iter().enumerate() {
        for (j, other) in classes.iter().enumerate() {
            assert_eq!(one.same(other), i == j);
        }
    }
    assert_eq!(name("A").clone(), name("A"));
    assert_eq!(FamilyOwned::Fantasy.clone(), FamilyOwned::Fantasy);
}

#[test]
fn font_attrs_copy_the_request() {
    let family = vec![FamilyOwned::Name("A".to_string()), FamilyOwned::Monospace];
    let bold = Attrs { monospaced: true, weight: Weight::BOLD, ..attrs() };
    let key = FontAttrs::new(&family, bold);
    assert_eq!(key.family, family);
    assert!(key.monospaced);
    assert_eq!(key.weight, Weight::BOLD);
    assert_eq!(key.style, Style::Normal);
    assert_eq!(key.stretch, Stretch::Normal);
    assert!(MemoKey::same(&key, &FontAttrs::new(&family, bold)));
    assert!(!MemoKey::same(&key, &FontAttrs::new(&family, attrs())));
}

#[test]
fn glyph_keys_are_the_same_when_every_part_is() {
    let key = GlyphKey {
        font_id: fontdb::ID::dummy(),
        glyph_id: 1,
        font_size: 12,
        x_bin: SubpixelBin::Zero,
        y_bin: SubpixelBin::One,
    };
    assert!(MemoKey::same(&key, &key.clone()));
    assert!(!MemoKey::same(&key, &GlyphKey { glyph_id: 2, ..key }));
    assert!(!MemoKey::same(&key, &GlyphKey { font_size: -12, ..key }));
    assert!(!MemoKey::same(&key, &GlyphKey { x_bin: SubpixelBin::One, ..key }));
    assert!(!MemoKey::same(&key, &GlyphKey { y_bin: SubpixelBin::Zero, ..key }));
}

#[test]
fn memo_first_answer_stands() {
    let mut memo: Memo<fontdb::ID, usize> = Memo::new();
    for answer in 0..10 {
        assert_eq!(*memo.insert_if_absent(fontdb::ID::dummy(), answer + 40), 40);
        assert_eq!(memo.len(), 1);
    }
}
