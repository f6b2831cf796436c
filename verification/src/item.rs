use vstd::prelude::*;

verus! {

/// A Secret Shop item that the runner can be asked to buy.
#[derive(Clone, Copy, Debug, PartialEq, Eq, Hash, Structural)]
pub enum Item {
    Cov,
    Mys,
    Fb,
}

/// Display name of an item.
pub open spec fn item_name(item: Item) -> Seq<char> {
    match item {
        Item::Cov => "Covenant bookmark"@,
        Item::Mys => "Mystic medal"@,
        Item::Fb => "Friendship points"@,
    }
}

/// Gold price of one purchase of an item.
pub open spec fn item_gold(item: Item) -> u32 {
    match item {
        Item::Cov => 184_000,
        Item::Mys => 280_000,
        Item::Fb => 18_000,
    }
}

/// File name of the item's template image.
pub open spec fn item_asset(item: Item) -> Seq<char> {
    match item {
        Item::Cov => "cov.png"@,
        Item::Mys => "mys.png"@,
        Item::Fb => "fb.png"@,
    }
}

/// Long key of an item, as written to the purchase history.
pub open spec fn item_key(item: Item) -> Seq<char> {
    match item {
        Item::Cov => "covenant"@,
        Item::Mys => "mystic"@,
        Item::Fb => "friendship"@,
    }
}

impl Item {
    /// Every item, in the order the shop list is searched by default.
    pub const ALL: [Item; 3] = [Item::Cov, Item::Mys, Item::Fb];

    pub fn name(self) -> (r: &'static str)
        ensures
            r@ == item_name(self),
    {
        match self {
            Item::Cov => "Covenant bookmark",
            Item::Mys => "Mystic medal",
            Item::Fb => "Friendship points",
        }
    }

    pub fn gold(self) -> (r: u32)
        ensures
            r == item_gold(self),
    {
        match self {
            Item::Cov => 184_000,
            Item::Mys => 280_000,
            Item::Fb => 18_000,
        }
    }

    pub fn asset(self) -> (r: &'static str)
        ensures
            r@ == item_asset(self),
    {
        match self {
            Item::Cov => "cov.png",
            Item::Mys => "mys.png",
            Item::Fb => "fb.png",
        }
    }

    pub fn key(self) -> (r: &'static str)
        ensures
            r@ == item_key(self),
    {
        match self {
            Item::Cov => "covenant",
            Item::Mys => "mystic",
            Item::Fb => "friendship",
        }
    }
}

} // verus!
