//! The description that a collectible carries. The contracts pass it on as
//! it is.

use vstd::prelude::*;

verus! {

/// One attribute of a collectible.
#[derive(Debug, PartialEq)]
pub struct Trait {
    pub display_type: Option<String>,
    pub trait_type: String,
    pub value: String,
}

/// The mathematical value of a `Trait`.
pub struct TraitView {
    pub display_type: Option<Seq<char>>,
    pub trait_type: Seq<char>,
    pub value: Seq<char>,
}

impl View for Trait {
    type V = TraitView;

    open spec fn view(&self) -> TraitView {
        TraitView {
            display_type: self.display_type.deep_view(),
            trait_type: self.trait_type@,
            value: self.value@,
        }
    }
}

impl DeepView for Trait {
    type V = TraitView;

    open spec fn deep_view(&self) -> TraitView {
        self@
    }
}

/// A copy of an optional text.
pub fn clone_text(text: &Option<String>) -> (copy: Option<String>)
    ensures
        copy.deep_view() == text.deep_view(),
{
    match text {
        None => None,
        Some(t) => Some(t.clone()),
    }
}

impl Clone for Trait {
    fn clone(&self) -> (copy: Self)
        ensures
            copy@ == self@,
    {
        Trait {
            display_type: clone_text(&self.display_type),
            trait_type: self.trait_type.clone(),
            value: self.value.clone(),
        }
    }
}

impl Default for Trait {
    fn default() -> (empty: Self)
        ensures
            empty@ == (TraitView {
                display_type: None,
                trait_type: Seq::empty(),
                value: Seq::empty(),
            }),
    {
        Trait { display_type: None, trait_type: String::new(), value: String::new() }
    }
}

/// The description of a collectible, in the fields that marketplaces read.
#[derive(Debug, PartialEq)]
pub struct Metadata {
    pub image: Option<String>,
    pub image_data: Option<String>,
    pub external_url: Option<String>,
    pub description: Option<String>,
    pub name: Option<String>,
    pub attributes: Option<Vec<Trait>>,
    pub background_color: Option<String>,
    pub animation_url: Option<String>,
    pub youtube_url: Option<String>,
}

/// The mathematical value of a `Metadata`.
pub struct MetadataView {
    pub image: Option<Seq<char>>,
    pub image_data: Option<Seq<char>>,
    pub external_url: Option<Seq<char>>,
    pub description: Option<Seq<char>>,
    pub name: Option<Seq<char>>,
    pub attributes: Option<Seq<TraitView>>,
    pub background_color: Option<Seq<char>>,
    pub animation_url: Option<Seq<char>>,
    pub youtube_url: Option<Seq<char>>,
}

impl View for Metadata {
    type V = MetadataView;

    open spec fn view(&self) -> MetadataView {
        MetadataView {
            image: self.image.deep_view(),
            image_data: self.image_data.deep_view(),
            external_url: self.external_url.deep_view(),
            description: self.description.deep_view(),
            name: self.name.deep_view(),
            attributes: self.attributes.deep_view(),
            background_color: self.background_color.deep_view(),
            animation_url: self.animation_url.deep_view(),
            youtube_url: self.youtube_url.deep_view(),
        }
    }
}

impl DeepView for Metadata {
    type V = MetadataView;

    open spec fn deep_view(&self) -> MetadataView {
        self@
    }
}

fn clone_traits(traits: &Option<Vec<Trait>>) -> (copy: Option<Vec<Trait>>)
    ensures
        copy.deep_view() == traits.deep_view(),
{
    match traits {
        None => None,
        Some(list) => {
            let mut copy: Vec<Trait> = Vec::new();
            let n = list.len();
            for i in 0..n
                invariant
                    n == list.len(),
                    copy.len() == i,
                    forall|j: int| 0 <= j < i ==> copy[j]@ == list[j]@,
            {
                copy.push(list[i].clone());
            }
            Some(copy)
        },
    }
}

impl Clone for Metadata {
    fn clone(&self) -> (copy: Self)
        ensures
            copy@ == self@,
    {
        Metadata {
            image: clone_text(&self.image),
            image_data: clone_text(&self.image_data),
            external_url: clone_text(&self.external_url),
            description: clone_text(&self.description),
            name: clone_text(&self.name),
            attributes: clone_traits(&self.attributes),
            background_color: clone_text(&self.background_color),
            animation_url: clone_text(&self.animation_url),
            youtube_url: clone_text(&self.youtube_url),
        }
    }
}

impl Default for Metadata {
    fn default() -> (empty: Self)
        ensures
            empty@ == (MetadataView {
                image: None,
                image_data: None,
                external_url: None,
                description: None,
                name: None,
                attributes: None,
                background_color: None,
                animation_url: None,
                youtube_url: None,
            }),
    {
        Metadata {
            image: None,
            image_data: None,
            external_url: None,
            description: None,
            name: None,
            attributes: None,
            background_color: None,
            animation_url: None,
            youtube_url: None,
        }
    }
}

} // verus!
