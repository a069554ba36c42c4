use sf_final::custody::{SigningCapability, TransferAuthority, TransferRequest};
use sf_final::error::ErrorCode;
use sf_final::identity::Identity;
use sf_final::state::escrow::EscrowAccount;
use sf_final::state::user::UserAccount;

fn id(tag: u8) -> Identity {
    Identity::new([tag; 32])
}

fn open_escrow(stake: u64) -> EscrowAccount {
    let mut escrow = EscrowAccount::default();
    escrow.init(id(1), id(2), id(3), stake, 6, 254).unwrap();
    escrow
}

fn open_user(owner: Identity) -> UserAccount {
    let mut user = UserAccount::default();
    user.init(owner, 253).unwrap();
    user
}

#[test]
fn identity_keeps_its_bytes() {
    let mut bytes = [0u8; 32];
    for (i, b) in bytes.iter_mut().enumerate() {
        *b = i as u8;
    }
    let key = Identity::new(bytes);
    assert_eq!(key.to_bytes(), bytes);
    assert_eq!(key.bytes, bytes);
}

#[test]
fn identity_equality_is_bytewise() {
    assert_eq!(id(7), id(7));
    assert_ne!(id(7), id(8));
    let mut first = [9u8; 32];
    let mut last = [9u8; 32];
    first[0] = 1;
    last[31] = 1;
    assert_ne!(Identity::new(first), id(9));
    assert_ne!(Identity::new(last), id(9));
    assert_ne!(Identity::new(first), Identity::new(last));
}

#[test]
fn default_identity_is_all_zero() {
    assert_eq!(Identity::default().to_bytes(), [0u8; 32]);
    assert_eq!(Identity::default(), id(0));
}

#[test]
fn vacant_escrow_is_not_initialized() {
    let escrow = EscrowAccount::default();
    assert!(!escrow.is_initialized());
    assert_eq!(escrow.pot, 0);
    assert_eq!(escrow.usdc_balance, 0);
    assert_eq!(escrow.min_bet_amount, 0);
    assert_eq!(escrow.authority, Identity::default());
}

#[test]
fn escrow_init_sets_every_field() {
    let mut escrow = EscrowAccount::default();
    escrow.pot = 5;
    escrow.usdc_balance = 9;
    assert_eq!(escrow.init(id(1), id(2), id(3), 100, 6, 254), Ok(()));
    assert_eq!(
        escrow,
        EscrowAccount {
            authority: id(1),
            usdc_mint: id(2),
            usdc_token_account: id(3),
            min_bet_amount: 100,
            pot: 0,
            usdc_balance: 0,
            decimals: 6,
            bump: 254,
            initialized: true,
        }
    );
    assert!(escrow.is_initialized());
}

#[test]
fn escrow_init_twice_is_refused_and_keeps_first_values() {
    let mut escrow = open_escrow(100);
    let first = escrow;
    assert_eq!(
        escrow.init(id(11), id(12), id(13), 7, 9, 1),
        Err(ErrorCode::AlreadyInitialized)
    );
    assert_eq!(escrow, first);
}

#[test]
fn escrow_is_owner_compares_with_authority() {
    let escrow = open_escrow(100);
    assert!(escrow.is_owner(id(1)));
    assert!(!escrow.is_owner(id(2)));
    assert!(!escrow.is_owner(Identity::default()));
}

#[test]
fn reset_empties_pot_and_keeps_balance() {
    let mut escrow = open_escrow(100);
    escrow.pot = 700;
    escrow.usdc_balance = 1_900;
    let before = escrow;
    assert_eq!(escrow.reset_gameweek(), Ok(()));
    assert_eq!(escrow, EscrowAccount { pot: 0, ..before });
    assert_eq!(escrow.usdc_balance, 1_900);
}

#[test]
fn reset_twice_is_the_same_as_once() {
    let mut escrow = open_escrow(100);
    escrow.pot = u128::MAX;
    escrow.usdc_balance = u128::MAX;
    escrow.reset_gameweek().unwrap();
    let once = escrow;
    escrow.reset_gameweek().unwrap();
    assert_eq!(escrow, once);
    assert_eq!(escrow.pot, 0);
    assert_eq!(escrow.usdc_balance, u128::MAX);
}

#[test]
fn signing_capability_carries_the_escrow_bump() {
    let escrow = open_escrow(100);
    let cap: SigningCapability = escrow.signing_capability();
    assert_eq!(cap.bump_seed(), 254);
    assert_eq!(cap.seeds(), vec![b"escrow".to_vec(), vec![254u8]]);
    let mut other = open_escrow(100);
    other.bump = 3;
    assert_eq!(other.signing_capability().seeds(), vec![b"escrow".to_vec(), vec![3u8]]);
    assert_ne!(other.signing_capability(), cap);
}

#[test]
fn vacant_user_is_not_initialized() {
    let user = UserAccount::default();
    assert!(!user.is_initialized());
    assert!(!user.is_eligible);
    assert_eq!(user.payout_amount, 0);
    assert_eq!(user.owner, Identity::default());
}

#[test]
fn user_init_sets_every_field() {
    let mut user = UserAccount::default();
    user.is_eligible = true;
    user.payout_amount = 44;
    assert_eq!(user.init(id(20), 253), Ok(()));
    assert_eq!(
        user,
        UserAccount {
            owner: id(20),
            is_eligible: false,
            payout_amount: 0,
            bump: 253,
            initialized: true,
        }
    );
}

#[test]
fn user_init_twice_is_refused_and_keeps_first_values() {
    let mut user = open_user(id(20));
    user.add_payout(5).unwrap();
    let first = user;
    assert_eq!(user.init(id(21), 1), Err(ErrorCode::AlreadyInitialized));
    assert_eq!(user, first);
}

#[test]
fn add_payout_on_vacant_record_is_refused() {
    let mut user = UserAccount::default();
    let before = user;
    assert_eq!(user.add_payout(10), Err(ErrorCode::NotInitialized));
    assert_eq!(user, before);
}

#[test]
fn add_payout_accumulates() {
    let mut user = open_user(id(20));
    assert_eq!(user.add_payout(30), Ok(()));
    assert!(user.is_eligible);
    assert_eq!(user.payout_amount, 30);
    assert_eq!(user.add_payout(12), Ok(()));
    assert!(user.is_eligible);
    assert_eq!(user.payout_amount, 42);
    assert_eq!(user.owner, id(20));
    assert_eq!(user.bump, 253);
}

#[test]
fn add_payout_order_does_not_matter() {
    let mut ab = open_user(id(20));
    ab.add_payout(7).unwrap();
    ab.add_payout(1_000).unwrap();
    let mut ba = open_user(id(20));
    ba.add_payout(1_000).unwrap();
    ba.add_payout(7).unwrap();
    let mut once = open_user(id(20));
    once.add_payout(1_007).unwrap();
    assert_eq!(ab, ba);
    assert_eq!(ab, once);
}

#[test]
fn add_payout_of_zero_still_marks_eligible() {
    let mut user = open_user(id(20));
    assert_eq!(user.add_payout(0), Ok(()));
    assert!(user.is_eligible);
    assert_eq!(user.payout_amount, 0);
}

#[test]
fn add_payout_up_to_the_limit() {
    let mut user = open_user(id(20));
    user.add_payout(u64::MAX - 1).unwrap();
    user.add_payout(1).unwrap();
    assert_eq!(user.payout_amount, u64::MAX);
}

#[test]
fn bet_adds_one_stake_to_both_counters() {
    let mut escrow = open_escrow(100);
    let mut user = open_user(id(20));
    let user_before = user;
    let request = user.bet(&mut escrow, id(20), id(3), id(30));
    assert_eq!(
        request,
        Ok(TransferRequest {
            from: id(30),
            to: id(3),
            amount: 100,
            authority: TransferAuthority::Owner(id(20)),
        })
    );
    assert_eq!(escrow.pot, 100);
    assert_eq!(escrow.usdc_balance, 100);
    assert_eq!(user, user_before);
    assert_eq!(escrow, EscrowAccount { pot: 100, usdc_balance: 100, ..open_escrow(100) });
}

#[test]
fn bet_with_wrong_vault_is_refused() {
    let mut escrow = open_escrow(100);
    escrow.pot = 300;
    escrow.usdc_balance = 400;
    let before = escrow;
    let mut user = open_user(id(20));
    let user_before = user;
    assert_eq!(
        user.bet(&mut escrow, id(20), id(4), id(30)),
        Err(ErrorCode::NotEligible)
    );
    assert_eq!(escrow, before);
    assert_eq!(user, user_before);
}

#[test]
fn bets_accumulate_across_resets() {
    let mut escrow = open_escrow(25);
    let mut user = open_user(id(20));
    for _ in 0..3 {
        user.bet(&mut escrow, id(20), id(3), id(30)).unwrap();
        assert!(escrow.pot <= escrow.usdc_balance);
    }
    assert_eq!(escrow.pot, 75);
    assert_eq!(escrow.usdc_balance, 75);
    escrow.reset_gameweek().unwrap();
    assert_eq!(escrow.pot, 0);
    assert_eq!(escrow.usdc_balance, 75);
    for _ in 0..2 {
        user.bet(&mut escrow, id(20), id(3), id(30)).unwrap();
        assert!(escrow.pot <= escrow.usdc_balance);
    }
    assert_eq!(escrow.pot, 50);
    assert_eq!(escrow.usdc_balance, 125);
}

#[test]
fn bet_with_largest_stake() {
    let mut escrow = open_escrow(u64::MAX);
    let mut user = open_user(id(20));
    user.bet(&mut escrow, id(20), id(3), id(30)).unwrap();
    user.bet(&mut escrow, id(20), id(3), id(30)).unwrap();
    assert_eq!(escrow.pot, 2 * (u64::MAX as u128));
    assert_eq!(escrow.usdc_balance, 2 * (u64::MAX as u128));
}

#[test]
fn withdraw_pays_out_everything_owed() {
    let mut escrow = open_escrow(100);
    escrow.pot = 200;
    escrow.usdc_balance = 200;
    let mut user = open_user(id(20));
    user.add_payout(150).unwrap();
    let request = user.withdraw(&mut escrow, id(3), id(30));
    assert_eq!(
        request,
        Ok(TransferRequest {
            from: id(3),
            to: id(30),
            amount: 150,
            authority: TransferAuthority::Escrow(escrow.signing_capability()),
        })
    );
    assert_eq!(user.payout_amount, 0);
    assert!(!user.is_eligible);
    assert_eq!(escrow.usdc_balance, 50);
    assert_eq!(escrow.pot, 200);
    assert_eq!(user, open_user(id(20)));
}

#[test]
fn withdraw_of_the_whole_balance() {
    let mut escrow = open_escrow(100);
    escrow.usdc_balance = 150;
    let mut user = open_user(id(20));
    user.add_payout(150).unwrap();
    assert!(user.withdraw(&mut escrow, id(3), id(30)).is_ok());
    assert_eq!(escrow.usdc_balance, 0);
}

#[test]
fn withdraw_without_eligibility_is_refused() {
    let mut escrow = open_escrow(100);
    escrow.usdc_balance = 500;
    let before = escrow;
    let mut user = open_user(id(20));
    user.payout_amount = 40;
    let user_before = user;
    assert_eq!(
        user.withdraw(&mut escrow, id(3), id(30)),
        Err(ErrorCode::NotEligible)
    );
    assert_eq!(user, user_before);
    assert_eq!(escrow, before);
}

#[test]
fn withdraw_with_nothing_owed_is_refused() {
    let mut escrow = open_escrow(100);
    escrow.usdc_balance = 500;
    let before = escrow;
    let mut user = open_user(id(20));
    user.is_eligible = true;
    assert_eq!(
        user.withdraw(&mut escrow, id(3), id(30)),
        Err(ErrorCode::NoAmountToWithdraw)
    );
    assert_eq!(escrow, before);
    assert_eq!(user.payout_amount, 0);
    assert!(!user.is_eligible);
}

#[test]
fn withdraw_beyond_the_balance_is_refused_and_keeps_the_balance() {
    let mut escrow = open_escrow(100);
    escrow.pot = 100;
    escrow.usdc_balance = 100;
    let before = escrow;
    let mut user = open_user(id(20));
    user.add_payout(101).unwrap();
    assert_eq!(
        user.withdraw(&mut escrow, id(3), id(30)),
        Err(ErrorCode::Underflow)
    );
    assert_eq!(escrow, before);
    assert_eq!(escrow.usdc_balance, 100);
    assert_eq!(user.payout_amount, 0);
    assert!(!user.is_eligible);
}

#[test]
fn withdraw_twice_is_refused_the_second_time() {
    let mut escrow = open_escrow(100);
    escrow.usdc_balance = 1_000;
    let mut user = open_user(id(20));
    user.add_payout(10).unwrap();
    user.withdraw(&mut escrow, id(3), id(30)).unwrap();
    assert_eq!(
        user.withdraw(&mut escrow, id(3), id(30)),
        Err(ErrorCode::NotEligible)
    );
    assert_eq!(escrow.usdc_balance, 990);
}
