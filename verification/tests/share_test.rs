use athena_vault::asset::{compute_tax, deduct_tax};
use athena_vault::pairs::{pair_info_to_map, PairInfoQuerier};
use athena_vault::share::{get_balance_by_share, get_updated_yield};
use athena_vault::state::{DepositInfo, State};

const TAX_RATE: u128 = 10_000_000_000_000_000;
const TAX_CAP: u128 = 1_000_000;

#[test]
fn full_share_takes_the_whole_net_pool() {
    let state = State { total_share: 100, total_subsidized: 0 };
    assert_eq!(get_balance_by_share(&state, 1_000, 100), 1_000);

    let state = State { total_share: 100, total_subsidized: 250 };
    assert_eq!(get_balance_by_share(&state, 1_000, 100), 750);

    // a share beyond the total also takes the remainder, not more
    let state = State { total_share: 100, total_subsidized: 0 };
    assert_eq!(get_balance_by_share(&state, 1_000, 170), 1_000);
}

#[test]
fn degenerate_pools_are_worth_nothing() {
    let state = State { total_share: 0, total_subsidized: 0 };
    assert_eq!(get_balance_by_share(&state, 1_000, 0), 0);

    let state = State { total_share: 100, total_subsidized: 2_000 };
    assert_eq!(get_balance_by_share(&state, 1_000, 50), 0);
}

#[test]
fn partial_share_is_truncated_toward_the_pool() {
    let state = State { total_share: 100, total_subsidized: 0 };
    assert_eq!(get_balance_by_share(&state, 1_000, 33), 330);

    let state = State { total_share: 3, total_subsidized: 0 };
    assert_eq!(get_balance_by_share(&state, 10, 1), 3);
}

#[test]
fn updated_yield_reports_gain_and_loss() {
    let state = State { total_share: 100, total_subsidized: 0 };
    let mut info = DepositInfo::absent();
    info.share = 50;

    info.principal = 400;
    assert_eq!(get_updated_yield(&state, &info, 1_000), (500, 100, false));

    info.principal = 600;
    assert_eq!(get_updated_yield(&state, &info, 1_000), (500, 100, true));

    info.principal = 500;
    assert_eq!(get_updated_yield(&state, &info, 1_000), (500, 0, false));
}

#[test]
fn transfer_tax_is_truncated_and_capped() {
    assert_eq!(compute_tax(70_000_000, TAX_RATE, TAX_CAP), 693_070);
    assert_eq!(deduct_tax(70_000_000, TAX_RATE, TAX_CAP), 69_306_930);

    // beyond the cap the tax stays fixed
    assert_eq!(compute_tax(200_000_000, TAX_RATE, TAX_CAP), 1_000_000);
    assert_eq!(deduct_tax(200_000_000, TAX_RATE, TAX_CAP), 199_000_000);

    assert_eq!(compute_tax(0, TAX_RATE, TAX_CAP), 0);
    assert_eq!(deduct_tax(20, TAX_RATE, TAX_CAP), 19);
}

#[test]
fn pair_registry_collects_entries() {
    let asset = "asset".to_string();
    let pair = ["pair".to_string(), "liquidity".to_string()];

    let map = pair_info_to_map(&[(&asset, &pair)]);
    assert_eq!(
        map.get("asset"),
        Some(&["pair".to_string(), "liquidity".to_string()])
    );

    let _querier = PairInfoQuerier::new(&[(&asset, &pair)]);
}
