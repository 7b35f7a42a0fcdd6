use vstd::prelude::*;

verus! {

/// An item of the Grand Exchange item mapping.
#[derive(Clone, Debug)]
pub struct GetItem {
    pub highalch: Option<i64>,
    pub members: bool,
    pub name: String,
    pub examine: String,
    pub id: i64,
    pub value: i64,
    pub icon: String,
    pub lowalch: Option<i64>,
    pub limit: Option<i64>,
}

/// The Grand Exchange item mapping.
pub type GeItemMapping = Vec<GetItem>;

/// The latest Grand Exchange prices of an item.
#[derive(Clone, Copy, Debug, PartialEq, Eq, Structural)]
pub struct GeItemPrice {
    pub high: i64,
    pub high_time: i64,
    pub low: i64,
    pub low_time: i64,
}

/// The price the price service gave for an item, or all zeros where it gave none.
pub fn price_or_zero(price: Option<GeItemPrice>) -> (r: GeItemPrice)
    ensures
        r == match price {
            Some(p) => p,
            None => GeItemPrice { high: 0, high_time: 0, low: 0, low_time: 0 },
        },
{
    match price {
        Some(p) => p,
        None => GeItemPrice { high: 0, high_time: 0, low: 0, low_time: 0 },
    }
}

} // verus!
