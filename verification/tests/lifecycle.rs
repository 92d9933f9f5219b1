use arena::error::ArenaError;
use arena::events::{MarketCreated, MarketResolved};
use arena::identity::Pubkey;
use arena::lifecycle::{create_market, resolve_market, CreateMarket, ResolveMarket};
use arena::state::{ArenaState, Market, MAX_CATEGORY_LEN, MAX_DESCRIPTION_LEN};

fn pk(tag: u8) -> Pubkey {
    Pubkey::new([tag; 32])
}

fn arena_with(total_markets: u64) -> ArenaState {
    ArenaState {
        authority: pk(1),
        treasury: pk(2),
        swtch_mint: pk(3),
        total_volume: 12,
        total_markets,
        protocol_fee_bps: 500,
        bump: 250,
    }
}

fn blank_market() -> Market {
    Market {
        id: 0,
        oracle_feed: pk(0),
        description: String::new(),
        category: String::new(),
        start_value: 0,
        resolution_time: 0,
        total_up_pool: 0,
        total_down_pool: 0,
        resolved: false,
        outcome: None,
        bump: 0,
    }
}

fn creation(total_markets: u64) -> CreateMarket {
    CreateMarket {
        arena_state: arena_with(total_markets),
        market: blank_market(),
        oracle_feed: pk(5),
        authority: pk(1),
        market_bump: 249,
    }
}

fn open_market(start_value: i128) -> Market {
    Market {
        id: 3,
        oracle_feed: pk(5),
        description: String::from("SOL above the open"),
        category: String::from("crypto"),
        start_value,
        resolution_time: 2_000,
        total_up_pool: 600_000_000,
        total_down_pool: 400_000_000,
        resolved: false,
        outcome: None,
        bump: 249,
    }
}

fn resolution(start_value: i128) -> ResolveMarket {
    ResolveMarket { market: open_market(start_value), market_key: pk(6), oracle_feed: pk(5) }
}

#[test]
fn create_market_opens_the_next_market() {
    let mut ctx = creation(3);
    let event = create_market(
        &mut ctx,
        pk(5),
        String::from("SOL above the open"),
        String::from("crypto"),
        2_000,
        1_000,
        -17,
    )
    .unwrap();
    assert_eq!(
        event,
        MarketCreated {
            market_id: 3,
            oracle_feed: pk(5),
            description: String::from("SOL above the open"),
            category: String::from("crypto"),
            start_value: -17,
            resolution_time: 2_000,
        }
    );
    assert_eq!(
        ctx.market,
        Market { total_up_pool: 0, total_down_pool: 0, ..open_market(-17) }
    );
    assert_eq!(ctx.arena_state, arena_with(4));
}

#[test]
fn market_ids_run_in_sequence() {
    let mut ctx = creation(0);
    let first = create_market(&mut ctx, pk(5), String::new(), String::new(), 10, 9, 1).unwrap();
    let mut next = CreateMarket { market: blank_market(), ..ctx };
    let second = create_market(&mut next, pk(5), String::new(), String::new(), 10, 9, 1).unwrap();
    assert_eq!(first.market_id, 0);
    assert_eq!(second.market_id, 1);
    assert_eq!(next.market.id, 1);
    assert_eq!(next.arena_state.total_markets, 2);
}

#[test]
fn create_market_is_for_the_authority_only() {
    let mut ctx = CreateMarket { authority: pk(9), ..creation(3) };
    let before = ctx.clone();
    let r = create_market(&mut ctx, pk(5), String::from("d"), String::from("c"), 2_000, 1_000, 5);
    assert_eq!(r, Err(ArenaError::Unauthorized));
    assert_eq!(ctx, before);
}

#[test]
fn create_market_wants_the_feed_it_was_given() {
    let mut ctx = creation(3);
    let before = ctx.clone();
    let r = create_market(&mut ctx, pk(4), String::from("d"), String::from("c"), 2_000, 1_000, 5);
    assert_eq!(r, Err(ArenaError::InvalidOracle));
    assert_eq!(ctx, before);
}

#[test]
fn description_may_take_two_hundred_bytes() {
    assert_eq!(MAX_DESCRIPTION_LEN, 200);
    let mut ctx = creation(3);
    let r = create_market(&mut ctx, pk(5), "d".repeat(200), String::from("c"), 2_000, 1_000, 5);
    assert_eq!(r.unwrap().description.len(), 200);
    let mut ctx = creation(3);
    let before = ctx.clone();
    let r = create_market(&mut ctx, pk(5), "d".repeat(201), String::from("c"), 2_000, 1_000, 5);
    assert_eq!(r, Err(ArenaError::DescriptionTooLong));
    assert_eq!(ctx, before);
}

#[test]
fn description_is_measured_in_bytes() {
    // 67 characters of three bytes each: 201 bytes.
    let mut ctx = creation(3);
    let r = create_market(&mut ctx, pk(5), "\u{20ac}".repeat(67), String::new(), 2_000, 1_000, 5);
    assert_eq!(r, Err(ArenaError::DescriptionTooLong));
    let mut ctx = creation(3);
    let r = create_market(&mut ctx, pk(5), "\u{20ac}".repeat(66), String::new(), 2_000, 1_000, 5);
    assert!(r.is_ok());
}

#[test]
fn category_may_take_fifty_bytes() {
    assert_eq!(MAX_CATEGORY_LEN, 50);
    let mut ctx = creation(3);
    let r = create_market(&mut ctx, pk(5), String::from("d"), "c".repeat(50), 2_000, 1_000, 5);
    assert_eq!(r.unwrap().category.len(), 50);
    let mut ctx = creation(3);
    let before = ctx.clone();
    let r = create_market(&mut ctx, pk(5), String::from("d"), "c".repeat(51), 2_000, 1_000, 5);
    assert_eq!(r, Err(ArenaError::CategoryTooLong));
    assert_eq!(ctx, before);
}

#[test]
fn description_is_checked_before_category() {
    let mut ctx = creation(3);
    let r = create_market(&mut ctx, pk(5), "d".repeat(201), "c".repeat(51), 1, 1_000, 5);
    assert_eq!(r, Err(ArenaError::DescriptionTooLong));
    let mut ctx = creation(3);
    let r = create_market(&mut ctx, pk(5), "d".repeat(200), "c".repeat(51), 1, 1_000, 5);
    assert_eq!(r, Err(ArenaError::CategoryTooLong));
}

#[test]
fn resolution_time_must_lie_ahead() {
    let mut ctx = creation(3);
    let before = ctx.clone();
    let r = create_market(&mut ctx, pk(5), String::new(), String::new(), 1_000, 1_000, 5);
    assert_eq!(r, Err(ArenaError::InvalidResolutionTime));
    let r = create_market(&mut ctx, pk(5), String::new(), String::new(), 999, 1_000, 5);
    assert_eq!(r, Err(ArenaError::InvalidResolutionTime));
    assert_eq!(ctx, before);
    let r = create_market(&mut ctx, pk(5), String::new(), String::new(), 1_001, 1_000, 5);
    assert_eq!(r.unwrap().resolution_time, 1_001);
}

#[test]
fn market_count_does_not_wrap() {
    let mut ctx = creation(u64::MAX);
    let before = ctx.clone();
    let r = create_market(&mut ctx, pk(5), String::new(), String::new(), 2_000, 1_000, 5);
    assert_eq!(r, Err(ArenaError::Overflow));
    assert_eq!(ctx, before);
}

#[test]
fn resolve_up_when_the_value_rose() {
    let mut ctx = resolution(100);
    let event = resolve_market(&mut ctx, 2_500, 101).unwrap();
    assert_eq!(
        event,
        MarketResolved {
            market: pk(6),
            start_value: 100,
            end_value: 101,
            outcome: true,
            total_pool: 1_000_000_000,
        }
    );
    assert_eq!(
        ctx.market,
        Market { resolved: true, outcome: Some(true), ..open_market(100) }
    );
}

#[test]
fn resolve_down_when_the_value_fell() {
    let mut ctx = resolution(-5);
    let event = resolve_market(&mut ctx, 2_500, -6).unwrap();
    assert!(!event.outcome);
    assert_eq!(ctx.market.outcome, Some(false));
    assert!(ctx.market.resolved);
}

#[test]
fn tie_resolves_down() {
    let mut ctx = resolution(100);
    let event = resolve_market(&mut ctx, 2_000, 100).unwrap();
    assert!(!event.outcome);
    assert_eq!(ctx.market.outcome, Some(false));
    let mut wide = resolution(i128::MAX);
    assert_eq!(resolve_market(&mut wide, 2_000, i128::MAX).unwrap().outcome, false);
    assert_eq!(wide.market.outcome, Some(false));
    let mut low = resolution(i128::MIN);
    assert_eq!(resolve_market(&mut low, 2_000, i128::MIN).unwrap().outcome, false);
}

#[test]
fn resolve_at_the_resolution_time_succeeds() {
    let mut ctx = resolution(100);
    assert!(resolve_market(&mut ctx, 2_000, 150).is_ok());
    assert!(ctx.market.resolved);
}

#[test]
fn resolve_one_second_early_is_refused() {
    let mut ctx = resolution(100);
    let before = ctx.clone();
    assert_eq!(resolve_market(&mut ctx, 1_999, 150), Err(ArenaError::ResolutionTimeNotReached));
    assert_eq!(ctx, before);
    assert_eq!(ctx.market.outcome, None);
}

#[test]
fn resolve_twice_is_refused_and_keeps_the_outcome() {
    let mut ctx = resolution(100);
    resolve_market(&mut ctx, 2_000, 150).unwrap();
    let settled = ctx.clone();
    assert_eq!(resolve_market(&mut ctx, 2_001, 50), Err(ArenaError::MarketAlreadyResolved));
    assert_eq!(resolve_market(&mut ctx, 0, 50), Err(ArenaError::MarketAlreadyResolved));
    assert_eq!(ctx, settled);
    assert_eq!(ctx.market.outcome, Some(true));
}

#[test]
fn resolve_wants_the_feed_of_the_market() {
    let mut ctx = ResolveMarket { oracle_feed: pk(4), ..resolution(100) };
    let before = ctx.clone();
    assert_eq!(resolve_market(&mut ctx, 2_000, 150), Err(ArenaError::InvalidOracle));
    assert_eq!(ctx, before);
}

#[test]
fn resolve_leaves_the_pools_alone() {
    let mut ctx = resolution(100);
    resolve_market(&mut ctx, 2_000, 150).unwrap();
    assert_eq!(ctx.market.total_up_pool, 600_000_000);
    assert_eq!(ctx.market.total_down_pool, 400_000_000);
}

#[test]
fn resolve_refuses_pools_that_do_not_add_up() {
    let mut ctx = resolution(100);
    ctx.market.total_up_pool = u64::MAX;
    ctx.market.total_down_pool = 1;
    let before = ctx.clone();
    assert_eq!(resolve_market(&mut ctx, 2_000, 150), Err(ArenaError::Overflow));
    assert_eq!(ctx, before);
}

#[test]
fn creation_is_judged_before_the_feed_is_read() {
    let ctx = creation(3);
    assert_eq!(ctx.admits(&pk(5), "SOL above the open", "crypto", 2_000, 1_000), Ok(()));
    assert_eq!(ctx.admits(&pk(4), "d", "c", 2_000, 1_000), Err(ArenaError::InvalidOracle));
    assert_eq!(
        ctx.admits(&pk(5), &"d".repeat(201), "c", 2_000, 1_000),
        Err(ArenaError::DescriptionTooLong)
    );
    assert_eq!(
        ctx.admits(&pk(5), "d", &"c".repeat(51), 2_000, 1_000),
        Err(ArenaError::CategoryTooLong)
    );
    assert_eq!(ctx.admits(&pk(5), "d", "c", 1_000, 1_000), Err(ArenaError::InvalidResolutionTime));
    assert_eq!(ctx.admits(&pk(5), "d", "c", i64::MIN, i64::MAX), Err(ArenaError::InvalidResolutionTime));
    let stranger = CreateMarket { authority: pk(9), ..creation(3) };
    assert_eq!(stranger.admits(&pk(4), "d", "c", 0, 1_000), Err(ArenaError::Unauthorized));
    // Running out of market numbers is found only when the market is opened.
    let full = creation(u64::MAX);
    assert_eq!(full.admits(&pk(5), "d", "c", 2_000, 1_000), Ok(()));
}

#[test]
fn resolution_is_judged_before_the_feed_is_read() {
    let ctx = resolution(100);
    assert_eq!(ctx.admits(2_000), Ok(()));
    assert_eq!(ctx.admits(i64::MAX), Ok(()));
    assert_eq!(ctx.admits(1_999), Err(ArenaError::ResolutionTimeNotReached));
    let mut done = resolution(100);
    done.market.resolved = true;
    done.market.outcome = Some(false);
    assert_eq!(done.admits(2_000), Err(ArenaError::MarketAlreadyResolved));
    assert_eq!(done.admits(1_999), Err(ArenaError::MarketAlreadyResolved));
    let other = ResolveMarket { oracle_feed: pk(4), ..done };
    assert_eq!(other.admits(2_000), Err(ArenaError::InvalidOracle));
}
