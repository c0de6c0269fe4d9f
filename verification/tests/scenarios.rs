use real_digital::burn_real_digital;
use real_digital::initialize;
use real_digital::mint_real_digital;
use real_digital::pause;
use real_digital::transfer_authority;
use real_digital::unpause;
use real_digital::AccountId;
use real_digital::ErrorCode;

#[test]
fn mint_burn_pause_unpause_lifecycle() {
    let owner = AccountId { id: 1 };
    let mut r = initialize(owner, 255);

    mint_real_digital(&mut r, owner, 1000, "ref1".to_string()).unwrap();
    assert_eq!(r.total_supply, 1000);
    assert_eq!(r.brl_reserve, 1000);
    assert_eq!(r.total_minted, 1000);

    burn_real_digital(&mut r, 400, "ref2".to_string()).unwrap();
    assert_eq!(r.total_supply, 600);
    assert_eq!(r.total_burned, 400);

    pause(&mut r, owner).unwrap();
    let paused_mint = mint_real_digital(&mut r, owner, 1, "ref3".to_string());
    assert_eq!(paused_mint, Err(ErrorCode::ContractPaused));
    assert_eq!(r.total_supply, 600);

    unpause(&mut r, owner).unwrap();
    mint_real_digital(&mut r, owner, 1, "ref3".to_string()).unwrap();
    assert_eq!(r.total_supply, 601);
    assert_eq!(r.brl_reserve, 601);
    assert_eq!(r.total_minted, 1001);
    assert_eq!(r.total_burned, 400);
}

#[test]
fn authority_handoff_moves_the_mint_right() {
    let first = AccountId { id: 1 };
    let second = AccountId { id: 2 };
    let mut r = initialize(first, 255);

    assert_eq!(transfer_authority(&mut r, first, second), Ok(()));
    assert_eq!(r.authority, second);

    let by_first = mint_real_digital(&mut r, first, 10, "ref".to_string());
    assert_eq!(by_first, Err(ErrorCode::Unauthorized));
    assert_eq!(r.total_supply, 0);

    let by_second = mint_real_digital(&mut r, second, 10, "ref".to_string());
    assert_eq!(by_second, Ok(()));
    assert_eq!(r.total_supply, 10);
}
