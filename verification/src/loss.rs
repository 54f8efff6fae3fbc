//! The losses that a caller can ask for by name.

use vstd::prelude::*;
use crate::error::HALError;

verus! {

/// A loss between a prediction and a target.
#[derive(PartialEq, Eq, Structural, Clone, Copy, Debug)]
pub enum LossKind {
    /// The squared difference.
    L2,
    /// Half the squared difference.
    MSE,
    /// The cross entropy.
    CrossEntropy,
}

/// The loss that goes by `name`: `l2`, `mse` and `cross_entropy` are the
/// names of the three losses, and no other text names one.
pub open spec fn loss_named(name: Seq<char>) -> Result<LossKind, HALError> {
    if name == "l2"@ {
        Ok(LossKind::L2)
    } else if name == "mse"@ {
        Ok(LossKind::MSE)
    } else if name == "cross_entropy"@ {
        Ok(LossKind::CrossEntropy)
    } else {
        Err(HALError::UNKNOWN)
    }
}

/// Whether two texts hold the same characters.
fn same_text(left: &str, right: &str) -> (same: bool)
    ensures
        same == (left@ == right@),
{
    let length = left.unicode_len();
    if length != right.unicode_len() {
        return false;
    }
    let mut at: usize = 0;
    while at < length
        invariant
            at <= length,
            length == left@.len(),
            length == right@.len(),
            forall|k: int| 0 <= k < at ==> left@[k] == right@[k],
        decreases length - at,
    {
        if left.get_char(at) != right.get_char(at) {
            return false;
        }
        at += 1;
    }
    assert(left@ =~= right@);
    true
}

/// Looks a loss up by its name.
pub fn get_loss_kind(name: &str) -> (kind: Result<LossKind, HALError>)
    ensures
        kind == loss_named(name@),
{
    if same_text(name, "l2") {
        Ok(LossKind::L2)
    } else if same_text(name, "mse") {
        Ok(LossKind::MSE)
    } else if same_text(name, "cross_entropy") {
        Ok(LossKind::CrossEntropy)
    } else {
        Err(HALError::UNKNOWN)
    }
}

} // verus!
