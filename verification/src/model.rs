//! The records of the upstream service, and what they are to the contracts
//! of this library.

use vstd::prelude::*;

verus! {

/// One work suitability of a Pal: the kind of work and the level.
#[derive(Default, Debug, Clone, PartialEq)]
pub struct Suitability {
    pub type_field: String,
    pub level: i64,
}

/// The partner skill of a Pal.
#[derive(Default, Debug, Clone, PartialEq)]
pub struct Aura {
    pub name: String,
    pub description: String,
}

/// The full record of one Pal.
#[derive(Default, Debug, Clone, PartialEq)]
pub struct Pal {
    pub id: i64,
    pub key: String,
    pub image: String,
    pub name: String,
    pub wiki: String,
    pub types: Vec<String>,
    pub image_wiki: String,
    pub suitability: Vec<Suitability>,
    pub drops: Vec<String>,
    pub aura: Aura,
    pub description: String,
}

/// One page of the upstream listing: the records and the paging numbers.
#[derive(Default, Debug, Clone, PartialEq)]
pub struct APIResponse {
    pub content: Vec<Pal>,
    pub page: i64,
    pub limit: i64,
    pub count: i64,
    pub total: i64,
}

/// A work suitability as text and number.
pub struct SuitabilityView {
    pub type_field: Seq<char>,
    pub level: int,
}

/// A partner skill as texts.
pub struct AuraView {
    pub name: Seq<char>,
    pub description: Seq<char>,
}

/// A Pal as texts, numbers and sequences.
pub struct PalView {
    pub id: int,
    pub key: Seq<char>,
    pub image: Seq<char>,
    pub name: Seq<char>,
    pub wiki: Seq<char>,
    pub types: Seq<Seq<char>>,
    pub image_wiki: Seq<char>,
    pub suitability: Seq<SuitabilityView>,
    pub drops: Seq<Seq<char>>,
    pub aura: AuraView,
    pub description: Seq<char>,
}

impl View for Suitability {
    type V = SuitabilityView;

    open spec fn view(&self) -> SuitabilityView {
        SuitabilityView { type_field: self.type_field@, level: self.level as int }
    }
}

impl View for Aura {
    type V = AuraView;

    open spec fn view(&self) -> AuraView {
        AuraView { name: self.name@, description: self.description@ }
    }
}

impl View for Pal {
    type V = PalView;

    open spec fn view(&self) -> PalView {
        PalView {
            id: self.id as int,
            key: self.key@,
            image: self.image@,
            name: self.name@,
            wiki: self.wiki@,
            types: self.types.deep_view(),
            image_wiki: self.image_wiki@,
            suitability: self.suitability@.map_values(|s: Suitability| s@),
            drops: self.drops.deep_view(),
            aura: self.aura@,
            description: self.description@,
        }
    }
}

impl APIResponse {
    /// The names of the records, in the order of the page.
    pub open spec fn names(&self) -> Seq<Seq<char>> {
        self.content@.map_values(|pal: Pal| pal.name@)
    }
}

} // verus!
