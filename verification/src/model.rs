//! Data model: the closed rating and sort enumerations, with their rendered
//! names, and the post record the remote API returns.

use vstd::prelude::*;

verus! {

/// Content-maturity classes usable as a query filter.
#[derive(Clone, Copy, PartialEq, Eq, Structural, Debug)]
pub enum DanbooruRating {
    General,
    Sensitive,
    Questionable,
    Explicit,
}

impl DanbooruRating {
    /// The name this rating renders to inside a `rating:<name>` token.
    pub open spec fn name_seq(self) -> Seq<char> {
        match self {
            DanbooruRating::General => "general"@,
            DanbooruRating::Sensitive => "sensitive"@,
            DanbooruRating::Questionable => "questionable"@,
            DanbooruRating::Explicit => "explicit"@,
        }
    }

    /// The rating's name in the remote query language.
    pub fn name(self) -> (r: &'static str)
        ensures
            r@ == self.name_seq(),
    {
        match self {
            DanbooruRating::General => "general",
            DanbooruRating::Sensitive => "sensitive",
            DanbooruRating::Questionable => "questionable",
            DanbooruRating::Explicit => "explicit",
        }
    }
}

/// Result-ordering directives usable as a query filter.
#[derive(Clone, Copy, PartialEq, Eq, Structural, Debug)]
pub enum DanbooruSort {
    Id,
    Score,
    Rating,
    User,
    Comment,
    Random,
}

impl DanbooruSort {
    /// The name this sort renders to inside an `order:<name>` token.
    pub open spec fn name_seq(self) -> Seq<char> {
        match self {
            DanbooruSort::Id => "id"@,
            DanbooruSort::Score => "score"@,
            DanbooruSort::Rating => "rating"@,
            DanbooruSort::User => "user"@,
            DanbooruSort::Comment => "comment"@,
            DanbooruSort::Random => "random"@,
        }
    }

    /// The sort's name in the remote query language.
    pub fn name(self) -> (r: &'static str)
        ensures
            r@ == self.name_seq(),
    {
        match self {
            DanbooruSort::Id => "id",
            DanbooruSort::Score => "score",
            DanbooruSort::Rating => "rating",
            DanbooruSort::User => "user",
            DanbooruSort::Comment => "comment",
            DanbooruSort::Random => "random",
        }
    }
}

/// One image-board record, as decoded from the remote API's response.
/// The shape is the remote service's contract: this library only carries
/// the values through.
#[derive(Clone, Debug)]
pub struct DanbooruPost {
    pub id: u32,
    pub score: i64,
    pub rating: Option<String>,
    pub image_width: u32,
    pub image_height: u32,
    pub tag_string: String,
    pub file_url: Option<String>,
    pub large_file_url: Option<String>,
    pub preview_file_url: Option<String>,
}

} // verus!
