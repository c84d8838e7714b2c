//! What a caller asks for: families, and the style, weight and stretch of a face.

use crate::database::{same_stretch, same_style, same_weight};
use crate::memo::MemoKey;
use vstd::prelude::*;

verus! {

/// A requested family: one of the generic classes, or a family by its name.
#[derive(Debug, PartialEq, Eq, Hash)]
pub enum FamilyOwned {
    Name(String),
    Serif,
    SansSerif,
    Cursive,
    Fantasy,
    Monospace,
}

/// The model of a [`FamilyOwned`].
pub enum FamilyModel {
    Name(Seq<char>),
    Serif,
    SansSerif,
    Cursive,
    Fantasy,
    Monospace,
}

impl View for FamilyOwned {
    type V = FamilyModel;

    open spec fn view(&self) -> FamilyModel {
        match self {
            FamilyOwned::Name(name) => FamilyModel::Name(name@),
            FamilyOwned::Serif => FamilyModel::Serif,
            FamilyOwned::SansSerif => FamilyModel::SansSerif,
            FamilyOwned::Cursive => FamilyModel::Cursive,
            FamilyOwned::Fantasy => FamilyModel::Fantasy,
            FamilyOwned::Monospace => FamilyModel::Monospace,
        }
    }
}

impl FamilyOwned {
    /// Whether two families are the same class or the same name.
    pub fn same(&self, other: &FamilyOwned) -> (r: bool)
        ensures
            r == (self@ == other@),
    {
        match (self, other) {
            (FamilyOwned::Name(a), FamilyOwned::Name(b)) => {
                *a == *b
            },
            (FamilyOwned::Serif, FamilyOwned::Serif) => true,
            (FamilyOwned::SansSerif, FamilyOwned::SansSerif) => true,
            (FamilyOwned::Cursive, FamilyOwned::Cursive) => true,
            (FamilyOwned::Fantasy, FamilyOwned::Fantasy) => true,
            (FamilyOwned::Monospace, FamilyOwned::Monospace) => true,
            _ => false,
        }
    }

}

impl Clone for FamilyOwned {
    fn clone(&self) -> (r: FamilyOwned)
        ensures
            r@ == self@,
    {
        match self {
            FamilyOwned::Name(name) => FamilyOwned::Name(name.clone()),
            FamilyOwned::Serif => FamilyOwned::Serif,
            FamilyOwned::SansSerif => FamilyOwned::SansSerif,
            FamilyOwned::Cursive => FamilyOwned::Cursive,
            FamilyOwned::Fantasy => FamilyOwned::Fantasy,
            FamilyOwned::Monospace => FamilyOwned::Monospace,
        }
    }
}

/// The attributes of a request, without its families.
#[derive(Clone, Copy, Debug)]
pub struct Attrs {
    /// Whether a monospaced face is preferred.
    pub monospaced: bool,
    pub stretch: fontdb::Stretch,
    pub style: fontdb::Style,
    pub weight: fontdb::Weight,
}

/// A query for a face: the key under which its answer is remembered.
#[derive(Debug, PartialEq, Eq, Hash)]
pub struct FontAttrs {
    /// The requested families, most wanted first.
    pub family: Vec<FamilyOwned>,
    pub monospaced: bool,
    pub stretch: fontdb::Stretch,
    pub style: fontdb::Style,
    pub weight: fontdb::Weight,
}

/// The model of a [`FontAttrs`].
pub struct FontAttrsModel {
    pub family: Seq<FamilyModel>,
    pub monospaced: bool,
    pub stretch: fontdb::Stretch,
    pub style: fontdb::Style,
    pub weight: fontdb::Weight,
}

/// The models of a list of requested families.
pub open spec fn family_models(families: Seq<FamilyOwned>) -> Seq<FamilyModel> {
    families.map_values(|f: FamilyOwned| f@)
}

/// The key that stands for a list of families with attributes.
pub open spec fn font_attrs_model(family: Seq<FamilyOwned>, attrs: Attrs) -> FontAttrsModel {
    FontAttrsModel {
        family: family_models(family),
        monospaced: attrs.monospaced,
        stretch: attrs.stretch,
        style: attrs.style,
        weight: attrs.weight,
    }
}

impl View for FontAttrs {
    type V = FontAttrsModel;

    open spec fn view(&self) -> FontAttrsModel {
        FontAttrsModel {
            family: family_models(self.family@),
            monospaced: self.monospaced,
            stretch: self.stretch,
            style: self.style,
            weight: self.weight,
        }
    }
}

impl FontAttrs {
    /// The query for `family` with `attrs`.
    pub fn new(family: &[FamilyOwned], attrs: Attrs) -> (r: FontAttrs)
        ensures
            r@ == font_attrs_model(family@, attrs),
    {
        let mut copy: Vec<FamilyOwned> = Vec::new();
        let mut i: usize = 0;
        while i < family.len()
            invariant
                i <= family.len(),
                copy.len() == i,
                forall|j: int| 0 <= j < i ==> copy[j]@ == family[j]@,
            decreases family.len() - i,
        {
            copy.push(family[i].clone());
            i += 1;
        }
        assert(family_models(copy@) =~= family_models(family@));
        FontAttrs {
            family: copy,
            monospaced: attrs.monospaced,
            stretch: attrs.stretch,
            style: attrs.style,
            weight: attrs.weight,
        }
    }
}

impl MemoKey for FontAttrs {
    type Model = FontAttrsModel;

    open spec fn model(&self) -> FontAttrsModel {
        self@
    }

    fn same(&self, other: &Self) -> (r: bool) {
        if self.monospaced != other.monospaced || !same_stretch(self.stretch, other.stretch)
            || !same_style(self.style, other.style) || !same_weight(self.weight, other.weight) {
            return false;
        }
        if self.family.len() != other.family.len() {
            assert(self@.family.len() != other@.family.len());
            return false;
        }
        let mut i: usize = 0;
        while i < self.family.len()
            invariant
                i <= self.family.len(),
                self.family.len() == other.family.len(),
                forall|j: int| 0 <= j < i ==> self.family[j]@ == other.family[j]@,
            decreases self.family.len() - i,
        {
            if !self.family[i].same(&other.family[i]) {
                assert(self@.family[i as int] != other@.family[i as int]);
                return false;
            }
            i += 1;
        }
        assert(self@.family =~= other@.family);
        true
    }
}

} // verus!
