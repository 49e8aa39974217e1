use foresta::support::{ensure_root, ensure_signed, DispatchError, Origin};
use foresta::utilities::{simulate_execution, with_transaction_result};

#[test]
fn transaction_commits_only_on_success() {
    let (kept, res) = with_transaction_result(1u32, 2u32, Ok::<u8, DispatchError>(9));
    assert_eq!((kept, res), (2, Ok(9)));
    let (kept, res) = with_transaction_result(1u32, 2u32, Err::<u8, DispatchError>(DispatchError::Other));
    assert_eq!((kept, res), (1, Err(DispatchError::Other)));
}

#[test]
fn simulation_always_rolls_back() {
    let (kept, res) = simulate_execution(1u32, 2u32, Ok::<u8, DispatchError>(9));
    assert_eq!((kept, res), (1, Ok(9)));
    let (kept, res) = simulate_execution(1u32, 2u32, Err::<u8, DispatchError>(DispatchError::BadOrigin));
    assert_eq!((kept, res), (1, Err(DispatchError::BadOrigin)));
}

#[test]
fn origins() {
    assert_eq!(ensure_signed(Origin::Signed(3)), Ok(3));
    assert_eq!(ensure_signed(Origin::Root), Err(DispatchError::BadOrigin));
    assert_eq!(ensure_signed(Origin::Unsigned), Err(DispatchError::BadOrigin));
    assert_eq!(ensure_root(Origin::Root), Ok(()));
    assert_eq!(ensure_root(Origin::Signed(3)), Err(DispatchError::BadOrigin));
}
