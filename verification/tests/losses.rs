use hal::error::HALError;
use hal::loss::{get_loss_kind, LossKind};

#[test]
fn l2_is_a_loss() {
    assert_eq!(get_loss_kind("l2"), Ok(LossKind::L2));
}

#[test]
fn mse_is_a_loss() {
    assert_eq!(get_loss_kind("mse"), Ok(LossKind::MSE));
}

#[test]
fn cross_entropy_is_a_loss() {
    assert_eq!(get_loss_kind("cross_entropy"), Ok(LossKind::CrossEntropy));
}

#[test]
fn an_unknown_name_is_an_error() {
    assert_eq!(get_loss_kind("bogus"), Err(HALError::UNKNOWN));
}

#[test]
fn the_empty_name_is_an_error() {
    assert_eq!(get_loss_kind(""), Err(HALError::UNKNOWN));
}

#[test]
fn names_are_matched_letter_for_letter() {
    assert_eq!(get_loss_kind("L2"), Err(HALError::UNKNOWN));
    assert_eq!(get_loss_kind("mse "), Err(HALError::UNKNOWN));
    assert_eq!(get_loss_kind("ms"), Err(HALError::UNKNOWN));
    assert_eq!(get_loss_kind("cross-entropy"), Err(HALError::UNKNOWN));
    assert_eq!(get_loss_kind("cross_entropy2"), Err(HALError::UNKNOWN));
    assert_eq!(get_loss_kind("ms\u{e9}"), Err(HALError::UNKNOWN));
}
