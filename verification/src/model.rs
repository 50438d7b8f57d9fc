//! The result-record model and the closed enumerations sent to the server:
//! the category filter and the sort key, each with its fixed wire code.

use vstd::prelude::*;

verus! {

/// One parsed search result. A record exists only if its title and detail
/// link were located; every other field degrades to a default instead of
/// failing the record.
#[derive(Debug, Clone, PartialEq, Eq)]
pub struct Torrent {
    pub title: String,
    pub link: String,
    pub magnet_url: String,
    pub date: String,
    pub seeders: u32,
    pub leechers: u32,
    pub downloads: u32,
    pub size: String,
}

/// The mathematical value of a `Torrent`: each text field as its character
/// sequence, the counts as they are.
#[verifier::ext_equal]
pub struct TorrentV {
    pub title: Seq<char>,
    pub link: Seq<char>,
    pub magnet_url: Seq<char>,
    pub date: Seq<char>,
    pub seeders: u32,
    pub leechers: u32,
    pub downloads: u32,
    pub size: Seq<char>,
}

impl View for Torrent {
    type V = TorrentV;

    open spec fn view(&self) -> TorrentV {
        TorrentV {
            title: self.title@,
            link: self.link@,
            magnet_url: self.magnet_url@,
            date: self.date@,
            seeders: self.seeders,
            leechers: self.leechers,
            downloads: self.downloads,
            size: self.size@,
        }
    }
}

impl DeepView for Torrent {
    type V = TorrentV;

    open spec fn deep_view(&self) -> TorrentV {
        self.view()
    }
}

/// The category filter, encoded on the wire as a fixed token.
#[derive(Debug, Clone, Copy, Hash, PartialEq, Eq, Structural)]
pub enum Category {
    All,
    Anime,
    AnimeMusicVideo,
    AnimeEnglishTranslated,
    AnimeNonEnglishTranslated,
    AnimeRaw,
}

impl Category {
    /// The token substituted for the `c` query parameter.
    pub open spec fn wire_code_spec(self) -> Seq<char> {
        match self {
            Category::All => "0_0"@,
            Category::Anime => "1_0"@,
            Category::AnimeMusicVideo => "1_1"@,
            Category::AnimeEnglishTranslated => "1_2"@,
            Category::AnimeNonEnglishTranslated => "1_3"@,
            Category::AnimeRaw => "1_4"@,
        }
    }

    pub fn wire_code(self) -> (r: &'static str)
        ensures
            r@ == self.wire_code_spec(),
    {
        match self {
            Category::All => "0_0",
            Category::Anime => "1_0",
            Category::AnimeMusicVideo => "1_1",
            Category::AnimeEnglishTranslated => "1_2",
            Category::AnimeNonEnglishTranslated => "1_3",
            Category::AnimeRaw => "1_4",
        }
    }
}

/// The server-side ordering requested, encoded on the wire as a fixed token.
#[derive(Debug, Clone, Copy, PartialEq, Eq, Structural)]
pub enum Sort {
    Date,
    Downloads,
    Seeders,
    Size,
}

/// The fixed cycling order of the sort keys:
/// Date, Downloads, Seeders, Size, and back to Date.
pub open spec fn sort_succ(s: Sort) -> Sort {
    match s {
        Sort::Date => Sort::Downloads,
        Sort::Downloads => Sort::Seeders,
        Sort::Seeders => Sort::Size,
        Sort::Size => Sort::Date,
    }
}

impl Sort {
    /// The token substituted for the `s` query parameter.
    pub open spec fn wire_code_spec(self) -> Seq<char> {
        match self {
            Sort::Date => "id"@,
            Sort::Downloads => "downloads"@,
            Sort::Seeders => "seeders"@,
            Sort::Size => "size"@,
        }
    }

    pub fn wire_code(self) -> (r: &'static str)
        ensures
            r@ == self.wire_code_spec(),
    {
        match self {
            Sort::Date => "id",
            Sort::Downloads => "downloads",
            Sort::Seeders => "seeders",
            Sort::Size => "size",
        }
    }

    /// Advance to the next sort key in the fixed cycling order.
    pub fn cycled(self) -> (r: Sort)
        ensures
            r == sort_succ(self),
    {
        match self {
            Sort::Date => Sort::Downloads,
            Sort::Downloads => Sort::Seeders,
            Sort::Seeders => Sort::Size,
            Sort::Size => Sort::Date,
        }
    }
}

/// Cycling the sort key exactly four times returns to the original key,
/// whatever key it started from.
pub proof fn lemma_sort_cycle_returns(s: Sort)
    ensures
        sort_succ(sort_succ(sort_succ(sort_succ(s)))) == s,
{
}

} // verus!
