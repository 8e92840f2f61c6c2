//! The record that is pushed.

use vstd::prelude::*;

verus! {

/// One price observation as a mathematical value.
pub struct OracleDataView {
    pub asset_pair: Seq<char>,
    pub price: u64,
    pub decimals: u64,
    pub publisher_id: u64,
}

/// One price observation: the price of an asset pair, as an unscaled integer
/// with the number of decimals by which it is to be scaled, and the publisher
/// that observed it.
///
/// A record always has all four parts and cannot be changed once it is made.
#[derive(Debug, PartialEq, Eq)]
pub struct OracleData {
    asset_pair: String,
    price: u64,
    decimals: u64,
    publisher_id: u64,
}

impl View for OracleData {
    type V = OracleDataView;

    closed spec fn view(&self) -> OracleDataView {
        OracleDataView {
            asset_pair: self.asset_pair@,
            price: self.price,
            decimals: self.decimals,
            publisher_id: self.publisher_id,
        }
    }
}

impl Clone for OracleData {
    /// A record with the same four parts.
    fn clone(&self) -> (copy: Self)
        ensures
            copy@ == self@,
    {
        OracleData {
            asset_pair: self.asset_pair.clone(),
            price: self.price,
            decimals: self.decimals,
            publisher_id: self.publisher_id,
        }
    }
}

impl OracleData {
    /// Makes the record of the four parts, each taken as it is: no part is
    /// checked, scaled or normalised.
    pub fn new(asset_pair: String, price: u64, decimals: u64, publisher_id: u64) -> (data: Self)
        ensures
            data@ == (OracleDataView { asset_pair: asset_pair@, price, decimals, publisher_id }),
    {
        OracleData { asset_pair, price, decimals, publisher_id }
    }

    /// The asset pair that the price is of.
    pub fn asset_pair(&self) -> (pair: &String)
        ensures
            pair@ == self@.asset_pair,
    {
        &self.asset_pair
    }

    /// The price, unscaled.
    pub fn price(&self) -> (price: u64)
        ensures
            price == self@.price,
    {
        self.price
    }

    /// The number of decimals by which the price is to be scaled.
    pub fn decimals(&self) -> (decimals: u64)
        ensures
            decimals == self@.decimals,
    {
        self.decimals
    }

    /// The publisher that observed the price.
    pub fn publisher_id(&self) -> (publisher_id: u64)
        ensures
            publisher_id == self@.publisher_id,
    {
        self.publisher_id
    }
}

} // verus!
