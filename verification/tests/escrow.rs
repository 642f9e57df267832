use solana_programs::escrow::{EscrowError, EscrowState, Make, MakeBumps, Refund, Take, TakePlan};
use solana_programs::key::Key;

const MAKER: Key = Key(1, 2, 3, 4);

#[test]
fn make_take_refund() {
    let state = Make { maker: MAKER }.make(5_000, &MakeBumps { escrow_state: 254, vault: 253 });
    assert_eq!(state, EscrowState { maker: MAKER, amount: 5_000, vault_bump: 253, escrow_bump: 254 });
    assert_eq!(Take { maker: MAKER, escrow_state: state }.take(), Ok(TakePlan { to_maker: 5_000, to_taker: 5_000 }));
    assert_eq!(Take { maker: Key(0, 0, 0, 1), escrow_state: state }.take(), Err(EscrowError::ConstraintHasOne));
    assert_eq!(Refund { maker: MAKER, escrow_state: state, vault_lamports: 5_890_880 }.refund(), Ok(5_890_880));
    assert_eq!(
        Refund { maker: Key(9, 9, 9, 9), escrow_state: state, vault_lamports: 1 }.refund(),
        Err(EscrowError::ConstraintHasOne)
    );
    assert_eq!(EscrowState::INIT_SPACE, 50);
}
