use king_of_the_hill::{
    claim_jackpot, extend_deadline, initialize, split_bid, usurp_throne, BidSplit, ClaimJackpot,
    GameError, GameState, Identity, Initialize, NewKingEvent, UsurpThrone, Usurpation,
};

fn id(tag: u8) -> Identity {
    let mut bytes = [0u8; 32];
    bytes[0] = tag;
    bytes[31] = tag;
    Identity::new(bytes)
}

fn genesis(creator: Identity, start_price: u64, now: i64) -> GameState {
    let mut ctx = Initialize { game: None, creator };
    assert_eq!(initialize(&mut ctx, start_price, now), Ok(()));
    ctx.game.unwrap()
}

fn bid(game: GameState, bidder: Identity, now: i64) -> (GameState, Usurpation) {
    let mut ctx = UsurpThrone {
        game,
        new_king: bidder,
        previous_king: game.king,
        creator: game.fee_owner,
    };
    let outcome = usurp_throne(&mut ctx, now).unwrap();
    (ctx.game, outcome)
}

#[test]
fn split_of_one_hundred() {
    assert_eq!(
        split_bid(100),
        Some(BidSplit {
            raise: 30,
            new_price: 130,
            refund: 100,
            profit: 15,
            creator_fee: 5,
            jackpot_share: 10,
        })
    );
}

#[test]
fn split_truncates_each_part_on_its_own() {
    assert_eq!(
        split_bid(130),
        Some(BidSplit {
            raise: 39,
            new_price: 169,
            refund: 130,
            profit: 19,
            creator_fee: 6,
            jackpot_share: 14,
        })
    );
}

#[test]
fn split_of_zero_is_all_zero() {
    assert_eq!(
        split_bid(0),
        Some(BidSplit {
            raise: 0,
            new_price: 0,
            refund: 0,
            profit: 0,
            creator_fee: 0,
            jackpot_share: 0,
        })
    );
}

#[test]
fn split_of_small_prices() {
    let one = split_bid(1).unwrap();
    assert_eq!((one.raise, one.new_price, one.profit, one.creator_fee, one.jackpot_share), (0, 1, 0, 0, 0));
    let seven = split_bid(7).unwrap();
    assert_eq!((seven.raise, seven.new_price, seven.profit, seven.creator_fee, seven.jackpot_share), (2, 9, 1, 0, 1));
    let reset = split_bid(100_000_000).unwrap();
    assert_eq!(reset.raise, 30_000_000);
    assert_eq!(reset.new_price, 130_000_000);
    assert_eq!(reset.profit, 15_000_000);
    assert_eq!(reset.creator_fee, 5_000_000);
    assert_eq!(reset.jackpot_share, 10_000_000);
}

#[test]
fn split_conserves_value() {
    let prices: [u64; 9] = [0, 1, 3, 19, 99, 130, 169, 1_000_003, 614_891_469_123_651_720];
    for price in prices {
        let s = split_bid(price).unwrap();
        assert_eq!(s.refund, price);
        assert_eq!(
            s.new_price as u128,
            s.refund as u128 + s.profit as u128 + s.creator_fee as u128 + s.jackpot_share as u128
        );
        assert_eq!(s.new_price, price + s.raise);
    }
}

#[test]
fn split_overflows_past_a_thirtieth_of_the_range() {
    let last = u64::MAX / 30;
    assert_eq!(last, 614_891_469_123_651_720);
    assert!(split_bid(last).is_some());
    assert_eq!(split_bid(last + 1), None);
    assert_eq!(split_bid(u64::MAX), None);
}

#[test]
fn worked_trace() {
    let creator = id(1);
    let a = id(2);
    let b = id(3);
    let game = genesis(creator, 100, 1_000);
    assert_eq!(game.king, creator);
    assert_eq!(game.fee_owner, creator);
    assert_eq!(game.price, 100);
    assert_eq!(game.jackpot, 0);
    assert_eq!(game.end_timestamp, 87_400);

    let (game, first) = bid(game, a, 2_000);
    assert_eq!(first.king_payout, 115);
    assert_eq!(first.creator_fee, 5);
    assert_eq!(first.to_jackpot, 10);
    assert_eq!(game.king, a);
    assert_eq!(game.price, 130);
    assert_eq!(game.jackpot, 10);
    assert_eq!(game.fee_owner, creator);
    assert_eq!(game.end_timestamp, 87_400);

    let (game, second) = bid(game, b, 3_000);
    assert_eq!(second.king_payout, 149);
    assert_eq!(second.creator_fee, 6);
    assert_eq!(second.to_jackpot, 14);
    assert_eq!(game.king, b);
    assert_eq!(game.price, 169);
    assert_eq!(game.jackpot, 24);
    assert_eq!(game.fee_owner, creator);
}

#[test]
fn bid_reports_the_event() {
    let creator = id(1);
    let a = id(2);
    let game = genesis(creator, 100, 1_000);
    let (_, outcome) = bid(game, a, 2_000);
    assert_eq!(
        outcome.event,
        NewKingEvent { new_king: a, previous_king: creator, price: 130, timestamp: 2_000 }
    );
    assert_eq!(
        outcome.king_payout + outcome.creator_fee + outcome.to_jackpot,
        outcome.event.price
    );
}

#[test]
fn bid_after_the_deadline_is_rejected() {
    let creator = id(1);
    let game = genesis(creator, 100, 1_000);
    let mut ctx = UsurpThrone { game, new_king: id(2), previous_king: creator, creator };
    assert_eq!(usurp_throne(&mut ctx, 87_401), Err(GameError::GameEnded));
    assert_eq!(ctx.game, game);
}

#[test]
fn bid_exactly_at_the_deadline_is_accepted() {
    let creator = id(1);
    let game = genesis(creator, 100, 1_000);
    let (after, _) = bid(game, id(2), 87_400);
    assert_eq!(after.end_timestamp, 87_700);
    assert_eq!(after.king, id(2));
}

#[test]
fn bid_with_wrong_fee_owner_changes_nothing() {
    let creator = id(1);
    let thief = id(9);
    let game = genesis(creator, 100, 1_000);
    let mut ctx = UsurpThrone { game, new_king: id(2), previous_king: creator, creator: thief };
    let before = ctx;
    assert_eq!(usurp_throne(&mut ctx, 2_000), Err(GameError::WrongFeeOwner));
    assert_eq!(ctx, before);
    assert_eq!(ctx.game.fee_owner, creator);
}

#[test]
fn bidder_cannot_name_itself_fee_owner() {
    let creator = id(1);
    let a = id(2);
    let game = genesis(creator, 100, 1_000);
    let mut ctx = UsurpThrone { game, new_king: a, previous_king: creator, creator: a };
    assert_eq!(usurp_throne(&mut ctx, 2_000), Err(GameError::WrongFeeOwner));
    assert_eq!(ctx.game, game);
}

#[test]
fn bid_with_wrong_previous_king_changes_nothing() {
    let creator = id(1);
    let a = id(2);
    let game = genesis(creator, 100, 1_000);
    let (game, _) = bid(game, a, 2_000);
    let mut ctx = UsurpThrone { game, new_king: id(3), previous_king: id(3), creator };
    assert_eq!(usurp_throne(&mut ctx, 3_000), Err(GameError::WrongPreviousKing));
    assert_eq!(ctx.game, game);
}

#[test]
fn bid_checks_run_in_order() {
    let creator = id(1);
    let game = genesis(creator, u64::MAX, 1_000);
    let mut late = UsurpThrone { game, new_king: id(2), previous_king: id(7), creator: id(8) };
    assert_eq!(usurp_throne(&mut late, 90_000), Err(GameError::GameEnded));
    let mut wrong_both = UsurpThrone { game, new_king: id(2), previous_king: id(7), creator: id(8) };
    assert_eq!(usurp_throne(&mut wrong_both, 2_000), Err(GameError::WrongFeeOwner));
    let mut wrong_king = UsurpThrone { game, new_king: id(2), previous_king: id(7), creator };
    assert_eq!(usurp_throne(&mut wrong_king, 2_000), Err(GameError::WrongPreviousKing));
    let mut too_dear = UsurpThrone { game, new_king: id(2), previous_king: creator, creator };
    assert_eq!(usurp_throne(&mut too_dear, 2_000), Err(GameError::ArithmeticOverflow));
    assert_eq!(too_dear.game, game);
}

#[test]
fn bid_overflowing_the_jackpot_is_rejected() {
    let creator = id(1);
    let game = GameState {
        king: creator,
        price: 100,
        end_timestamp: 10_000,
        jackpot: u64::MAX - 9,
        fee_owner: creator,
    };
    let mut ctx = UsurpThrone { game, new_king: id(2), previous_king: creator, creator };
    assert_eq!(usurp_throne(&mut ctx, 2_000), Err(GameError::ArithmeticOverflow));
    assert_eq!(ctx.game, game);
    let mut room = game;
    room.jackpot = u64::MAX - 10;
    let (after, _) = bid(room, id(2), 2_000);
    assert_eq!(after.jackpot, u64::MAX);
}

#[test]
fn bid_overflowing_the_clock_is_rejected() {
    let creator = id(1);
    let game = GameState {
        king: creator,
        price: 100,
        end_timestamp: i64::MAX,
        jackpot: 0,
        fee_owner: creator,
    };
    let mut near_end = UsurpThrone { game, new_king: id(2), previous_king: creator, creator };
    assert_eq!(usurp_throne(&mut near_end, i64::MAX - 10), Err(GameError::ArithmeticOverflow));
    assert_eq!(near_end.game, game);
    let mut long_ago = UsurpThrone { game, new_king: id(2), previous_king: creator, creator };
    assert_eq!(usurp_throne(&mut long_ago, -1), Err(GameError::ArithmeticOverflow));
    assert_eq!(long_ago.game, game);
    let (after, _) = bid(game, id(2), 0);
    assert_eq!(after.end_timestamp, i64::MAX);
}

#[test]
fn anti_snipe_extends_a_near_deadline() {
    let creator = id(1);
    let game = genesis(creator, 100, 0);
    assert_eq!(game.end_timestamp, 86_400);
    let (after, _) = bid(game, id(2), 86_400 - 299);
    assert_eq!(after.end_timestamp, 86_400 - 299 + 300);
    let (after, _) = bid(game, id(2), 86_400 - 1);
    assert_eq!(after.end_timestamp, 86_699);
}

#[test]
fn anti_snipe_leaves_a_far_deadline() {
    let creator = id(1);
    let game = genesis(creator, 100, 0);
    let (after, _) = bid(game, id(2), 86_400 - 300);
    assert_eq!(after.end_timestamp, 86_400);
    let (after, _) = bid(game, id(2), 5);
    assert_eq!(after.end_timestamp, 86_400);
}

#[test]
fn extend_deadline_values() {
    assert_eq!(extend_deadline(1_000, 700), Some(1_000));
    assert_eq!(extend_deadline(1_000, 701), Some(1_001));
    assert_eq!(extend_deadline(1_000, 1_000), Some(1_300));
    assert_eq!(extend_deadline(i64::MAX, i64::MAX - 299), None);
    assert_eq!(extend_deadline(i64::MAX, i64::MAX - 300), Some(i64::MAX));
    assert_eq!(extend_deadline(i64::MAX, -1), None);
    assert_eq!(extend_deadline(i64::MAX, 0), Some(i64::MAX));
}

#[test]
fn self_outbid_is_allowed() {
    let creator = id(1);
    let a = id(2);
    let game = genesis(creator, 100, 1_000);
    let (game, _) = bid(game, a, 2_000);
    let (game, outcome) = bid(game, a, 3_000);
    assert_eq!(game.king, a);
    assert_eq!(outcome.event.previous_king, a);
    assert_eq!(game.price, 169);
}

#[test]
fn zero_start_price_never_rises() {
    let creator = id(1);
    let game = genesis(creator, 0, 1_000);
    let (game, outcome) = bid(game, id(2), 2_000);
    assert_eq!(game.price, 0);
    assert_eq!(game.jackpot, 0);
    assert_eq!((outcome.king_payout, outcome.creator_fee, outcome.to_jackpot), (0, 0, 0));
    assert_eq!(game.king, id(2));
}

#[test]
fn fee_owner_survives_a_history() {
    let creator = id(1);
    let mut game = genesis(creator, 100, 0);
    let mut now: i64 = 10;
    for round in 0u8..3 {
        for step in 0u8..4 {
            let (next, _) = bid(game, id(10 + round * 4 + step), now);
            game = next;
            assert_eq!(game.fee_owner, creator);
            now += 1_000;
        }
        now = game.end_timestamp + 1;
        let mut claim = ClaimJackpot { game, king: game.king };
        assert!(claim_jackpot(&mut claim, now).is_ok());
        game = claim.game;
        assert_eq!(game.fee_owner, creator);
        assert_eq!(game.king, creator);
        let mut again = Initialize { game: Some(game), creator: id(99) };
        assert_eq!(initialize(&mut again, 5, now), Err(GameError::StorageCollision));
        assert_eq!(again.game, Some(game));
    }
}
