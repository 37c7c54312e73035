use clearing_house::paused_operations::PausedOperations;

#[test]
fn operation_pause_bits() {
    let current: u8 = 0b0000_0101;
    assert!(PausedOperations::is_operation_paused(current, PausedOperations::Funding));
    assert!(!PausedOperations::is_operation_paused(current, PausedOperations::AmmFills));
    assert!(PausedOperations::is_operation_paused(current, PausedOperations::Fill));
    assert!(!PausedOperations::is_operation_paused(current, PausedOperations::Withdraw));
}

#[test]
fn no_operation_paused_when_clear() {
    assert!(!PausedOperations::is_operation_paused(0, PausedOperations::Funding));
    assert!(!PausedOperations::is_operation_paused(0, PausedOperations::AmmFills));
    assert!(!PausedOperations::is_operation_paused(0, PausedOperations::Fill));
    assert!(!PausedOperations::is_operation_paused(0, PausedOperations::Withdraw));
}
