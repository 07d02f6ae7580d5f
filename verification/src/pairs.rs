//! A registry of swap pairs: for an asset address, the pair contract
//! and the liquidity token that trade it against the stable asset.
use vstd::prelude::*;

use std::collections::HashMap;

verus! {

/// Looks pairs up by the address of the asset they trade.
#[derive(Clone, Default)]
pub struct PairInfoQuerier {
    pair_info: HashMap<String, [String; 2]>,
}

impl PairInfoQuerier {
    /// Builds the registry from `(asset address, [pair contract,
    /// liquidity token])` entries.
    pub fn new(pair_info: &[(&String, &[String; 2])]) -> Self {
        PairInfoQuerier { pair_info: pair_info_to_map(pair_info) }
    }
}

/// Collects `(asset address, [pair contract, liquidity token])` entries
/// into a map keyed by the asset address.
pub fn pair_info_to_map(pair_info: &[(&String, &[String; 2])]) -> HashMap<String, [String; 2]> {
    let mut pair_info_map: HashMap<String, [String; 2]> = HashMap::new();
    let mut i: usize = 0;
    while i < pair_info.len()
        decreases pair_info.len() - i,
    {
        let entry = &pair_info[i];
        let value: [String; 2] = [entry.1[0].clone(), entry.1[1].clone()];
        pair_info_map.insert(entry.0.clone(), value);
        i += 1;
    }
    pair_info_map
}

} // verus!
