use vstd::prelude::*;

verus! {

/// One labelled field of a notification payload.
#[derive(Debug, PartialEq, Eq)]
pub struct EmbedField {
    pub name: String,
    pub value: String,
    pub inline: bool,
}

/// Abstract notification payload handed to the notification sink: title,
/// description, optional link, accent colour, thumbnail or full-width image,
/// and an ordered list of labelled fields.
#[derive(Debug, PartialEq, Eq)]
pub struct EmbedSpec {
    pub title: String,
    pub description: String,
    pub url: Option<String>,
    pub colour: Option<u32>,
    pub thumbnail: Option<String>,
    pub image: Option<String>,
    pub fields: Vec<EmbedField>,
}

/// Accent colour for a first-place run.
pub const COLOUR_GOLD: u32 = 0xF1C40F;

/// Accent colour for a second-place run.
pub const COLOUR_LIGHT_GREY: u32 = 0x979C9F;

/// Accent colour for a third-place run.
pub const COLOUR_DARK_ORANGE: u32 = 0xA84300;

/// Accent colour for any lower place.
pub const COLOUR_RED: u32 = 0xE74C3C;

/// The view of an optional string.
pub open spec fn opt_view(o: Option<String>) -> Option<Seq<char>> {
    match o {
        Option::Some(s) => Option::Some(s@),
        Option::None => Option::None,
    }
}

} // verus!
