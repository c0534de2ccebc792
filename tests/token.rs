use dst_lending::stable_token::{
    create_dst_token, create_governance_proposal, create_price_oracle, DIGMStableToken,
    GovernanceProposal, PriceOracle, RebalanceAction, TokenError,
};

const NOW: u64 = 1_700_000_000;

#[test]
fn test_dst_creation() {
    let dst = create_dst_token(1, "governance_address".to_string());
    assert_eq!(dst.token_id, 1);
    assert_eq!(dst.collateral_ratio, 150);
    assert_eq!(dst.target_price_xfg, 1000000);
}

#[test]
fn test_collateral_basket_initialization() {
    let dst = create_dst_token(1, "governance_address".to_string());
    assert_eq!(dst.collateral.len(), 4);

    let asset_types: Vec<String> = dst.collateral.iter().map(|c| c.asset_type.clone()).collect();
    assert!(asset_types.contains(&"XFG".to_string()));
    assert!(asset_types.contains(&"BTC".to_string()));
    assert!(asset_types.contains(&"ETH".to_string()));
    assert!(asset_types.contains(&"USDC".to_string()));
}

#[test]
fn test_price_oracle_creation() {
    let oracle = create_price_oracle();
    assert_eq!(oracle.feeds.len(), 4);
    assert_eq!(oracle.deviation_threshold, 5);
}

#[test]
fn oracle_feed_names() {
    let oracle = create_price_oracle();
    assert_eq!(oracle.feeds, vec!["coingecko", "binance", "kraken", "chainlink"]);
    assert!(oracle.prices.is_empty());
    assert_eq!(oracle.last_update, 0);
}

#[test]
fn test_governance_proposal_creation() {
    let mut parameters = Vec::new();
    parameters.push(("target_ratio".to_string(), 160));

    let proposal = create_governance_proposal(
        1,
        "proposer_address".to_string(),
        "parameter_change".to_string(),
        "Increase target ratio to 160%".to_string(),
        parameters,
    );

    assert_eq!(proposal.proposal_id, 1);
    assert_eq!(proposal.proposal_type, "parameter_change");
    assert_eq!(proposal.votes_for, 0);
    assert_eq!(proposal.votes_against, 0);
}

fn oracle_with(prices: &[(&str, u64)]) -> PriceOracle {
    let mut oracle = PriceOracle::new();
    let list: Vec<(String, u64)> = prices.iter().map(|(a, p)| (a.to_string(), *p)).collect();
    oracle.update_prices(list, NOW).unwrap();
    oracle
}

fn token() -> DIGMStableToken {
    create_dst_token(7, "gov".to_string())
}

#[test]
fn default_basket_weights() {
    let dst = token();
    let weights: Vec<(String, u64)> =
        dst.collateral.iter().map(|c| (c.asset_type.clone(), c.weight)).collect();
    assert_eq!(
        weights,
        vec![
            ("XFG".to_string(), 40),
            ("BTC".to_string(), 30),
            ("ETH".to_string(), 20),
            ("USDC".to_string(), 10)
        ]
    );
    assert!(dst.collateral.iter().all(|c| c.amount == 0 && c.value_in_xfg == 0));
}

#[test]
fn minting_credits_collateral_and_supply() {
    let mut dst = token();
    let oracle = oracle_with(&[("XFG", 10_000_000)]);
    let minted = dst.mint_udst(100_000_000, "XFG".to_string(), "user".to_string(), &oracle, NOW).unwrap();
    // value 100000000; 95% of it at 1000000 a token
    assert_eq!(minted, 95);
    assert_eq!(dst.total_supply, 95);
    assert_eq!(dst.collateral[0].amount, 100_000_000);
    assert_eq!(dst.collateral[0].value_in_xfg, 100_000_000);
    assert_eq!(dst.collateral[0].last_price_update, NOW);
    // 100000000 * 100 / (95 * 1000000)
    assert_eq!(dst.collateral_ratio, 105);
    assert_eq!(dst.collateral[1].amount, 0);
}

#[test]
fn minting_refusals() {
    let mut dst = token();
    let oracle = oracle_with(&[("XFG", 10_000_000)]);
    assert_eq!(
        dst.mint_udst(1, "DOGE".to_string(), "user".to_string(), &oracle, NOW),
        Err(TokenError::UnsupportedAsset)
    );
    assert_eq!(
        dst.mint_udst(1, "BTC".to_string(), "user".to_string(), &oracle, NOW),
        Err(TokenError::PriceUnavailable)
    );
    dst.collateral_ratio = 119;
    assert_eq!(
        dst.mint_udst(1, "XFG".to_string(), "user".to_string(), &oracle, NOW),
        Err(TokenError::InsufficientCollateralization)
    );
    dst.collateral_ratio = 150;
    dst.emergency_halt("audit".to_string());
    assert_eq!(
        dst.mint_udst(1, "XFG".to_string(), "user".to_string(), &oracle, NOW),
        Err(TokenError::EmergencyHalt)
    );
    dst.resume_operations();
    assert!(dst.mint_udst(1, "XFG".to_string(), "user".to_string(), &oracle, NOW).is_ok());
}

#[test]
fn burning_into_a_preferred_asset() {
    let mut dst = token();
    let oracle = oracle_with(&[("XFG", 10_000_000)]);
    dst.mint_udst(100_000_000, "XFG".to_string(), "user".to_string(), &oracle, NOW).unwrap();
    let mix = dst.burn_udst(10, Some("XFG".to_string()), "user".to_string(), &oracle, NOW + 1).unwrap();
    assert_eq!(mix, vec![("XFG".to_string(), 10_000_000)]);
    assert_eq!(dst.total_supply, 85);
    assert_eq!(dst.collateral[0].amount, 110_000_000);
    assert_eq!(dst.collateral[0].last_price_update, NOW + 1);
    // 110000000 * 100 / (85 * 1000000)
    assert_eq!(dst.collateral_ratio, 129);
}

#[test]
fn burning_by_weight() {
    let mut dst = token();
    let oracle = oracle_with(&[("XFG", 10_000_000)]);
    dst.mint_udst(100_000_000, "XFG".to_string(), "user".to_string(), &oracle, NOW).unwrap();
    let mix = dst.burn_udst(10, None, "user".to_string(), &oracle, NOW).unwrap();
    assert_eq!(
        mix,
        vec![
            ("XFG".to_string(), 4_000_000),
            ("BTC".to_string(), 3_000_000),
            ("ETH".to_string(), 2_000_000),
            ("USDC".to_string(), 1_000_000)
        ]
    );
    assert_eq!(dst.collateral[3].value_in_xfg, 1_000_000);
}

#[test]
fn burning_refusals() {
    let mut dst = token();
    let oracle = oracle_with(&[("XFG", 10_000_000)]);
    assert_eq!(
        dst.burn_udst(1, None, "user".to_string(), &oracle, NOW),
        Err(TokenError::InsufficientSupply)
    );
    dst.mint_udst(100_000_000, "XFG".to_string(), "user".to_string(), &oracle, NOW).unwrap();
    assert_eq!(
        dst.burn_udst(1, Some("DOGE".to_string()), "user".to_string(), &oracle, NOW),
        Err(TokenError::UnsupportedPreferredAsset)
    );
    assert_eq!(dst.total_supply, 95);
    dst.emergency_halt("audit".to_string());
    assert_eq!(
        dst.burn_udst(1, None, "user".to_string(), &oracle, NOW),
        Err(TokenError::EmergencyHalt)
    );
}

#[test]
fn rebalance_direction() {
    let mut dst = token();
    let oracle = create_price_oracle();
    assert_eq!(dst.rebalance_collateral(&oracle, NOW), RebalanceAction::Hold);
    assert_eq!(dst.last_rebalance, NOW);
    dst.collateral_ratio = 144;
    assert_eq!(dst.rebalance_collateral(&oracle, NOW), RebalanceAction::IncreaseCollateral);
    dst.collateral_ratio = 145;
    assert_eq!(dst.rebalance_collateral(&oracle, NOW), RebalanceAction::Hold);
    dst.collateral_ratio = 155;
    assert_eq!(dst.rebalance_collateral(&oracle, NOW), RebalanceAction::Hold);
    dst.collateral_ratio = 156;
    assert_eq!(dst.rebalance_collateral(&oracle, NOW), RebalanceAction::DecreaseCollateral);
    assert_eq!(dst.get_min_ratio(), 120);
    assert_eq!(dst.get_target_ratio(), 150);
}

#[test]
fn price_updates_limit_deviation() {
    let mut oracle = oracle_with(&[("XFG", 1000)]);
    assert_eq!(oracle.last_update, NOW);
    assert_eq!(
        oracle.update_prices(vec![("XFG".to_string(), 1060)], NOW + 1),
        Err(TokenError::PriceDeviationTooHigh)
    );
    assert_eq!(
        oracle.update_prices(vec![("XFG".to_string(), 940)], NOW + 1),
        Err(TokenError::PriceDeviationTooHigh)
    );
    assert_eq!(oracle.get_median_price(&"XFG".to_string()), Ok(1000));
    assert_eq!(oracle.update_prices(vec![("XFG".to_string(), 1050), ("BTC".to_string(), 7)], NOW + 2), Ok(()));
    assert_eq!(oracle.get_median_price(&"XFG".to_string()), Ok(1050));
    assert_eq!(oracle.get_median_price(&"BTC".to_string()), Ok(7));
    assert_eq!(oracle.get_median_price(&"ETH".to_string()), Err(TokenError::PriceUnavailable));
    assert_eq!(oracle.last_update, NOW + 2);
}

fn proposal(kind: &str, params: Vec<(&str, u64)>) -> GovernanceProposal {
    let params: Vec<(String, u64)> = params.into_iter().map(|(k, v)| (k.to_string(), v)).collect();
    GovernanceProposal::new(3, "p".to_string(), kind.to_string(), "d".to_string(), params)
}

#[test]
fn voting_and_execution() {
    let mut dst = token();
    let mut p = proposal("parameter_change", vec![("target_ratio", 160), ("max_ratio", 210)]);
    assert_eq!(p.execute(&mut dst), Err(TokenError::NotApproved));
    p.vote("a".to_string(), true, 10, NOW).unwrap();
    p.vote("b".to_string(), false, 4, NOW).unwrap();
    assert_eq!((p.votes_for, p.votes_against), (10, 4));
    assert_eq!(p.execute(&mut dst), Ok(()));
    assert!(p.executed);
    assert_eq!(p.execute(&mut dst), Err(TokenError::AlreadyExecuted));
    assert_eq!(p.vote("c".to_string(), true, 1, NOW), Err(TokenError::AlreadyExecuted));
    assert_eq!(dst.collateral.len(), 4);
}

#[test]
fn voting_deadline() {
    let mut p = proposal("fee_adjustment", vec![]);
    p.voting_deadline = NOW;
    assert_eq!(p.vote("a".to_string(), true, 1, NOW), Ok(()));
    assert_eq!(p.vote("a".to_string(), true, 1, NOW + 1), Err(TokenError::VotingDeadlinePassed));
    assert_eq!(p.votes_for, 1);
}

#[test]
fn collateral_addition_appends_assets() {
    let mut dst = token();
    let mut p = proposal("collateral_addition", vec![("SOL", 5)]);
    p.vote("a".to_string(), true, 1, NOW).unwrap();
    assert_eq!(p.execute(&mut dst), Ok(()));
    assert_eq!(dst.collateral.len(), 5);
    assert_eq!(dst.collateral[4].asset_type, "SOL");
    assert_eq!(dst.collateral[4].weight, 5);
    assert!(dst.is_supported_asset(&"SOL".to_string()));
}

#[test]
fn execution_refusals() {
    let mut dst = token();
    let cases = [
        ("parameter_change", "fee", TokenError::UnknownParameter),
        ("fee_adjustment", "target_ratio", TokenError::UnknownFeeType),
        ("treasury_grant", "x", TokenError::UnknownProposalType),
    ];
    for (kind, name, err) in cases {
        let mut p = proposal(kind, vec![(name, 1)]);
        p.vote("a".to_string(), true, 1, NOW).unwrap();
        assert_eq!(p.execute(&mut dst), Err(err));
        assert!(!p.executed);
    }
    let mut fees = proposal("fee_adjustment", vec![("minting_fee", 3), ("burning_fee", 2)]);
    fees.vote("a".to_string(), true, 1, NOW).unwrap();
    assert_eq!(fees.execute(&mut dst), Ok(()));
    assert_eq!(TokenError::NotApproved.message(), "Proposal not approved");
}
