use synora::escrow::{deposit_handler, Deposit, EscrowState};
use synora::{House, Init, InitBumps, Pubkey, WithdrawTreasury};

fn key(b: u8) -> Pubkey {
    Pubkey::new_from_array([b; 32])
}

#[test]
fn init_records_admin_fee_and_bumps() {
    let mut ctx = Init {
        admin: key(1),
        house: House { admin: key(0), protocl_fees: 0, bump: 0, treasury_bump: 0 },
        treasury: key(2),
    };
    assert!(ctx.init(-25, &InitBumps { house: 254, treasury: 253 }).is_ok());
    assert_eq!(ctx.house.admin, key(1));
    assert_eq!(ctx.house.protocl_fees, -25);
    assert_eq!(ctx.house.bump, 254);
    assert_eq!(ctx.house.treasury_bump, 253);
}

#[test]
fn withdraw_treasury_empties_it_to_the_admin() {
    let mut ctx = WithdrawTreasury {
        admin: key(1),
        house: House { admin: key(1), protocl_fees: 5, bump: 254, treasury_bump: 253 },
        house_key: key(6),
        treasury: key(2),
        treasury_lamports: 9_999,
    };
    let t = ctx.withdraw_treasury();
    assert_eq!(t.from, key(2));
    assert_eq!(t.to, key(1));
    assert_eq!(t.lamports, 9_999);
    assert_eq!(t.signer_seeds, vec![b"treasury".to_vec(), vec![6u8; 32], vec![253u8]]);
}

#[test]
fn deposit_records_the_escrow_and_moves_the_amount() {
    let mut ctx = Deposit {
        user: key(1),
        escrow_account: EscrowState { unlock_price: 0, escrow_amount: 0 },
        escrow_key: key(3),
    };
    let t = deposit_handler(&mut ctx, 5_000, 21);
    assert_eq!(ctx.escrow_account, EscrowState { unlock_price: 21, escrow_amount: 5_000 });
    assert_eq!(t.from, key(1));
    assert_eq!(t.to, key(3));
    assert_eq!(t.lamports, 5_000);
    assert!(t.signer_seeds.is_empty());
}

#[test]
fn keys_compare_byte_for_byte() {
    let mut a = [7u8; 32];
    let b = Pubkey::new_from_array(a);
    assert!(b == key(7));
    a[31] = 8;
    let c = Pubkey::new_from_array(a);
    assert!(c != b);
    assert!(!c.same_as(&b));
    assert_eq!(c.to_bytes(), a);
    assert_eq!(c.to_vec(), a.to_vec());
}
