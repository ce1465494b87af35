//! How one value per servo is laid out.
//!
//! Arrays of seven values follow `ALL_IDS`: left arm pitch and yaw, right arm
//! pitch and yaw, nose top, left and right. The bus reads and writes the arm
//! servos and the nose servos in two separate sync transfers, and the torso
//! record groups the values by body part.
use vstd::prelude::*;

verus! {

/// One value per servo, grouped by body part.
#[derive(Debug, Clone, Copy)]
pub struct TorsoValues<T> {
    /// Pitch, yaw.
    pub left_arm: [T; 2],
    /// Pitch, yaw.
    pub right_arm: [T; 2],
    /// Top, left, right.
    pub nose: [T; 3],
}

/// The seven values of a torso record, in `ALL_IDS` order.
pub open spec fn torso_seq<T>(t: TorsoValues<T>) -> Seq<T> {
    t.left_arm@ + t.right_arm@ + t.nose@
}

impl<T: Copy> TorsoValues<T> {
    /// Group seven values, given in `ALL_IDS` order, by body part.
    pub fn from_all(values: [T; 7]) -> (t: TorsoValues<T>)
        ensures
            torso_seq(t) == values@,
    {
        let t = TorsoValues {
            left_arm: [values[0], values[1]],
            right_arm: [values[2], values[3]],
            nose: [values[4], values[5], values[6]],
        };
        assert(torso_seq(t) =~= values@);
        t
    }

    /// The seven values in `ALL_IDS` order.
    pub fn to_all(&self) -> (values: [T; 7])
        ensures
            values@ == torso_seq(*self),
    {
        let values = [
            self.left_arm[0],
            self.left_arm[1],
            self.right_arm[0],
            self.right_arm[1],
            self.nose[0],
            self.nose[1],
            self.nose[2],
        ];
        assert(values@ =~= torso_seq(*self));
        values
    }

    /// A torso record from per-part lists; `None` unless each arm has two
    /// values and the nose three.
    pub fn from_parts(left_arm: &[T], right_arm: &[T], nose: &[T]) -> (t: Option<TorsoValues<T>>)
        ensures
            t is Some <==> (left_arm@.len() == 2 && right_arm@.len() == 2 && nose@.len() == 3),
            t matches Some(t) ==> (t.left_arm@ == left_arm@ && t.right_arm@ == right_arm@
                && t.nose@ == nose@),
    {
        if left_arm.len() != 2 || right_arm.len() != 2 || nose.len() != 3 {
            return None;
        }
        let t = TorsoValues {
            left_arm: [left_arm[0], left_arm[1]],
            right_arm: [right_arm[0], right_arm[1]],
            nose: [nose[0], nose[1], nose[2]],
        };
        assert(t.left_arm@ =~= left_arm@);
        assert(t.right_arm@ =~= right_arm@);
        assert(t.nose@ =~= nose@);
        Some(t)
    }
}

/// Seven values from the two sync reads: the first four values read from the
/// arm servos, then the first three read from the nose servos.
pub fn join_family_readings<T: Copy>(arm: &[T], nose: &[T]) -> (values: [T; 7])
    requires
        arm@.len() >= 4,
        nose@.len() >= 3,
    ensures
        values@ == arm@.take(4) + nose@.take(3),
{
    let values = [arm[0], arm[1], arm[2], arm[3], nose[0], nose[1], nose[2]];
    assert(values@ =~= arm@.take(4) + nose@.take(3));
    values
}

/// Seven values, in `ALL_IDS` order, split for the two sync writes: the arm
/// servos' values, then the nose servos'.
pub fn split_for_families<T: Copy>(values: [T; 7]) -> (parts: ([T; 4], [T; 3]))
    ensures
        parts.0@ == values@.take(4),
        parts.1@ == values@.skip(4),
{
    let arm = [values[0], values[1], values[2], values[3]];
    let nose = [values[4], values[5], values[6]];
    assert(arm@ =~= values@.take(4));
    assert(nose@ =~= values@.skip(4));
    (arm, nose)
}

/// Splitting seven values for the two transfers and joining the two parts
/// again gives the values back.
pub proof fn lemma_split_join_round_trip<T>(values: Seq<T>)
    requires
        values.len() == 7,
    ensures
        values.take(4).take(4) + values.skip(4).take(3) == values,
{
    assert(values.take(4).take(4) + values.skip(4).take(3) =~= values);
}

/// A torso record is determined by its seven values: grouping the flattened
/// values gives the same record back.
pub proof fn lemma_torso_grouping_round_trip<T>(a: TorsoValues<T>, b: TorsoValues<T>)
    requires
        torso_seq(a) == torso_seq(b),
    ensures
        a.left_arm@ == b.left_arm@,
        a.right_arm@ == b.right_arm@,
        a.nose@ == b.nose@,
{
    assert(a.left_arm@ =~= torso_seq(a).take(2));
    assert(b.left_arm@ =~= torso_seq(b).take(2));
    assert(a.right_arm@ =~= torso_seq(a).subrange(2, 4));
    assert(b.right_arm@ =~= torso_seq(b).subrange(2, 4));
    assert(a.nose@ =~= torso_seq(a).skip(4));
    assert(b.nose@ =~= torso_seq(b).skip(4));
}

} // verus!
