//! The columns and orderings by which collections are ranked.
use vstd::prelude::*;

verus! {

/// A column of the collection statistics.
#[derive(PartialEq, Eq, Structural, Clone, Copy, Debug)]
pub enum CollectionStatSelectOption {
    Address,
    Name,
    Symbol,
    Sales,
    Volume,
    Royalty,
    Image,
    Banner,
    Description,
    Socials,
    Supply,
    HighestBid,
    Listed,
    MintedDate,
    FloorPrice,
    VolumeOf1h,
    VolumeOf24h,
    VolumeOf7d,
    VolumeOf30d,
}

/// The name of a statistics column.
pub open spec fn column_name(c: CollectionStatSelectOption) -> Seq<char> {
    match c {
        CollectionStatSelectOption::Address => "address"@,
        CollectionStatSelectOption::Name => "name"@,
        CollectionStatSelectOption::Symbol => "symbol"@,
        CollectionStatSelectOption::Sales => "sales"@,
        CollectionStatSelectOption::Volume => "volume"@,
        CollectionStatSelectOption::Royalty => "royalty"@,
        CollectionStatSelectOption::Image => "image"@,
        CollectionStatSelectOption::Banner => "banner"@,
        CollectionStatSelectOption::Description => "description"@,
        CollectionStatSelectOption::Socials => "socials"@,
        CollectionStatSelectOption::Supply => "supply"@,
        CollectionStatSelectOption::HighestBid => "highest_bid"@,
        CollectionStatSelectOption::Listed => "listed"@,
        CollectionStatSelectOption::MintedDate => "minted_date"@,
        CollectionStatSelectOption::FloorPrice => "floor_price"@,
        CollectionStatSelectOption::VolumeOf1h => "volume_of_1h"@,
        CollectionStatSelectOption::VolumeOf24h => "volume_of_24h"@,
        CollectionStatSelectOption::VolumeOf7d => "volume_of_7d"@,
        CollectionStatSelectOption::VolumeOf30d => "volume_of_30d"@,
    }
}

impl CollectionStatSelectOption {
    /// The column's name.
    pub fn scribe(&self) -> (r: &'static str)
        ensures
            r@ == column_name(*self),
    {
        match self {
            CollectionStatSelectOption::Address => "address",
            CollectionStatSelectOption::Name => "name",
            CollectionStatSelectOption::Symbol => "symbol",
            CollectionStatSelectOption::Sales => "sales",
            CollectionStatSelectOption::Volume => "volume",
            CollectionStatSelectOption::Royalty => "royalty",
            CollectionStatSelectOption::Image => "image",
            CollectionStatSelectOption::Banner => "banner",
            CollectionStatSelectOption::Description => "description",
            CollectionStatSelectOption::Socials => "socials",
            CollectionStatSelectOption::Supply => "supply",
            CollectionStatSelectOption::HighestBid => "highest_bid",
            CollectionStatSelectOption::Listed => "listed",
            CollectionStatSelectOption::MintedDate => "minted_date",
            CollectionStatSelectOption::FloorPrice => "floor_price",
            CollectionStatSelectOption::VolumeOf1h => "volume_of_1h",
            CollectionStatSelectOption::VolumeOf24h => "volume_of_24h",
            CollectionStatSelectOption::VolumeOf7d => "volume_of_7d",
            CollectionStatSelectOption::VolumeOf30d => "volume_of_30d",
        }
    }
}

/// A sort direction.
#[derive(PartialEq, Eq, Structural, Clone, Copy, Debug)]
pub enum Sort {
    Asc,
    Desc,
}

impl Sort {
    /// The direction's keyword.
    pub fn scribe(&self) -> (r: &'static str)
        ensures
            r@ == match *self {
                Sort::Asc => "ASC"@,
                Sort::Desc => "DESC"@,
            },
    {
        match self {
            Sort::Asc => "ASC",
            Sort::Desc => "DESC",
        }
    }
}

impl Default for Sort {
    /// Descending.
    fn default() -> (r: Sort)
        ensures
            r == Sort::Desc,
    {
        Sort::Desc
    }
}

/// The period over which collections are ranked by volume.
#[derive(PartialEq, Eq, Structural, Clone, Copy, Debug)]
pub enum SortBy {
    LastHour,
    LastDay,
    LastThirtyDays,
    All,
}

impl SortBy {
    /// The volume column of the period.
    pub fn to_stat_field(&self) -> (r: CollectionStatSelectOption)
        ensures
            r == match *self {
                SortBy::All => CollectionStatSelectOption::Volume,
                SortBy::LastHour => CollectionStatSelectOption::VolumeOf1h,
                SortBy::LastDay => CollectionStatSelectOption::VolumeOf24h,
                SortBy::LastThirtyDays => CollectionStatSelectOption::VolumeOf30d,
            },
    {
        match self {
            SortBy::All => CollectionStatSelectOption::Volume,
            SortBy::LastHour => CollectionStatSelectOption::VolumeOf1h,
            SortBy::LastDay => CollectionStatSelectOption::VolumeOf24h,
            SortBy::LastThirtyDays => CollectionStatSelectOption::VolumeOf30d,
        }
    }
}

impl Default for SortBy {
    /// The last day.
    fn default() -> (r: SortBy)
        ensures
            r == SortBy::LastDay,
    {
        SortBy::LastDay
    }
}

} // verus!
