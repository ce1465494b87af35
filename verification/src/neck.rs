//! The three neck joints, each driven by a Damiao motor on the CAN bus.
use vstd::prelude::*;
use crate::error::texts;

verus! {

/// A neck joint. Arrays about the neck hold one entry per joint in the order
/// yaw, pitch, roll.
#[derive(Debug, Clone, Copy, PartialEq, Eq, Structural)]
pub enum NeckJoint {
    Yaw,
    Pitch,
    Roll,
}

/// Position of the joint in arrays about the neck.
pub open spec fn joint_index(joint: NeckJoint) -> nat {
    match joint {
        NeckJoint::Yaw => 0,
        NeckJoint::Pitch => 1,
        NeckJoint::Roll => 2,
    }
}

/// The joint at a position of arrays about the neck.
pub open spec fn joint_at(index: int) -> Option<NeckJoint> {
    if index == 0 {
        Some(NeckJoint::Yaw)
    } else if index == 1 {
        Some(NeckJoint::Pitch)
    } else if index == 2 {
        Some(NeckJoint::Roll)
    } else {
        None
    }
}

/// Name of the joint.
pub open spec fn joint_name(joint: NeckJoint) -> Seq<char> {
    match joint {
        NeckJoint::Yaw => "neck_yaw"@,
        NeckJoint::Pitch => "neck_pitch"@,
        NeckJoint::Roll => "neck_roll"@,
    }
}

/// CAN id the joint's motor listens on (a DM-J4310-2EC for the yaw, a
/// DM-J4340P-2EC for the pitch and the roll).
pub open spec fn joint_motor_id(joint: NeckJoint) -> u16 {
    match joint {
        NeckJoint::Yaw => 1,
        NeckJoint::Pitch => 2,
        NeckJoint::Roll => 3,
    }
}

/// CAN id the joint's motor replies on.
pub open spec fn joint_master_id(joint: NeckJoint) -> u16 {
    joint_motor_id(joint)
}

impl NeckJoint {
    /// The joint at `index`; `None` past the three joints.
    pub fn from_index(index: usize) -> (joint: Option<NeckJoint>)
        ensures
            joint == joint_at(index as int),
            joint is Some <==> index < 3,
    {
        if index == 0 {
            Some(NeckJoint::Yaw)
        } else if index == 1 {
            Some(NeckJoint::Pitch)
        } else if index == 2 {
            Some(NeckJoint::Roll)
        } else {
            None
        }
    }

    pub fn index(&self) -> (index: usize)
        ensures
            index == joint_index(*self),
    {
        match self {
            NeckJoint::Yaw => 0,
            NeckJoint::Pitch => 1,
            NeckJoint::Roll => 2,
        }
    }

    pub fn name(&self) -> (name: String)
        ensures
            name@ == joint_name(*self),
    {
        proof {
            reveal_strlit("neck_yaw");
            reveal_strlit("neck_pitch");
            reveal_strlit("neck_roll");
        }
        match self {
            NeckJoint::Yaw => "neck_yaw".to_owned(),
            NeckJoint::Pitch => "neck_pitch".to_owned(),
            NeckJoint::Roll => "neck_roll".to_owned(),
        }
    }

    pub fn motor_id(&self) -> (id: u16)
        ensures
            id == joint_motor_id(*self),
    {
        match self {
            NeckJoint::Yaw => 1,
            NeckJoint::Pitch => 2,
            NeckJoint::Roll => 3,
        }
    }

    pub fn master_id(&self) -> (id: u16)
        ensures
            id == joint_master_id(*self),
    {
        self.motor_id()
    }
}

/// The three joints in array order.
pub fn neck_joints() -> (joints: [NeckJoint; 3])
    ensures
        forall|k: int| 0 <= k < 3 ==> joint_at(k) == Some(#[trigger] joints@[k]),
{
    [NeckJoint::Yaw, NeckJoint::Pitch, NeckJoint::Roll]
}

/// The pair holds the name and the motor CAN id of the joint at `index`.
pub open spec fn names_joint_motor(pair: (String, u16), index: int) -> bool {
    let joint = joint_at(index).unwrap();
    pair.0@ == joint_name(joint) && pair.1 == joint_motor_id(joint)
}

/// The (joint name, motor CAN id) pairs of the neck, in array order.
pub fn neck_motor_name_ids() -> (pairs: Vec<(String, u16)>)
    ensures
        pairs@.len() == 3,
        forall|k: int| 0 <= k < 3 ==> names_joint_motor(#[trigger] pairs@[k], k),
{
    let joints = neck_joints();
    let mut pairs: Vec<(String, u16)> = Vec::new();
    let mut i: usize = 0;
    while i < 3
        invariant
            i <= 3,
            forall|k: int| 0 <= k < 3 ==> joint_at(k) == Some(#[trigger] joints@[k]),
            pairs@.len() == i,
            forall|k: int| 0 <= k < i ==> names_joint_motor(#[trigger] pairs@[k], k),
        decreases 3 - i,
    {
        let joint = joints[i];
        assert(joint_at(i as int) == Some(joint));
        pairs.push((joint.name(), joint.motor_id()));
        i = i + 1;
    }
    pairs
}

/// Names of the joints whose motor did not answer a feedback request, in
/// array order: `responded[k]` tells whether joint `k` answered.
pub open spec fn silent_joints(responded: Seq<bool>) -> Seq<Seq<char>>
    decreases responded.len(),
{
    if responded.len() == 0 {
        Seq::empty()
    } else {
        let rest = silent_joints(responded.drop_last());
        let k = responded.len() - 1;
        if responded[k] {
            rest
        } else {
            rest.push(joint_name(joint_at(k).unwrap()))
        }
    }
}

/// The name of the joint at `index` if its motor stayed silent, else
/// nothing.
pub open spec fn name_if_silent(index: int, answered: bool) -> Seq<Seq<char>> {
    if answered {
        Seq::empty()
    } else {
        seq![joint_name(joint_at(index).unwrap())]
    }
}

/// A joint is reported silent exactly when its own motor did not answer:
/// the report lists `neck_yaw` when `responded[0]` is false, then
/// `neck_pitch` when `responded[1]` is false, then `neck_roll` when
/// `responded[2]` is false.
pub proof fn lemma_silent_joints_by_index(responded: Seq<bool>)
    requires
        responded.len() == 3,
    ensures
        silent_joints(responded) == (if responded[0] { Seq::empty() } else { seq!["neck_yaw"@] })
            + (if responded[1] { Seq::empty() } else { seq!["neck_pitch"@] }) + (if responded[2] {
            Seq::empty()
        } else {
            seq!["neck_roll"@]
        }),
{
    let r1 = responded.drop_last().drop_last();
    let r2 = responded.drop_last();
    assert(r1.drop_last().len() == 0);
    assert(silent_joints(r1.drop_last()) =~= Seq::<Seq<char>>::empty());
    assert(r1[0] == responded[0]);
    assert(r2[1] == responded[1]);
    assert(r2.drop_last() =~= r1);
    assert(silent_joints(r1) =~= name_if_silent(0, responded[0]));
    assert(silent_joints(r2) =~= name_if_silent(0, responded[0]) + name_if_silent(1, responded[1]));
    assert(silent_joints(responded) =~= name_if_silent(0, responded[0]) + name_if_silent(
        1,
        responded[1],
    ) + name_if_silent(2, responded[2]));
}

/// Names of the joints whose motor did not answer a feedback request; empty
/// when all three are reachable.
pub fn missing_neck_motors(responded: &[bool; 3]) -> (missing: Vec<String>)
    ensures
        texts(missing@) == silent_joints(responded@),
        texts(missing@) == (if responded[0] { Seq::empty() } else { seq!["neck_yaw"@] }) + (
        if responded[1] {
            Seq::empty()
        } else {
            seq!["neck_pitch"@]
        }) + (if responded[2] { Seq::empty() } else { seq!["neck_roll"@] }),
{
    let joints = neck_joints();
    let mut missing: Vec<String> = Vec::new();
    let mut i: usize = 0;
    while i < 3
        invariant
            i <= 3,
            responded@.len() == 3,
            forall|k: int| 0 <= k < 3 ==> joint_at(k) == Some(#[trigger] joints@[k]),
            missing@.len() == silent_joints(responded@.take(i as int)).len(),
            texts(missing@) == silent_joints(responded@.take(i as int)),
        decreases 3 - i,
    {
        assert(responded@.take(i + 1).drop_last() =~= responded@.take(i as int));
        if !responded[i] {
            let joint = joints[i];
            assert(joint_at(i as int) == Some(joint));
            let name = joint.name();
            let ghost before = missing@;
            missing.push(name);
            assert(texts(missing@) =~= texts(before).push(name@));
        }
        i = i + 1;
    }
    assert(responded@.take(3) =~= responded@);
    proof {
        lemma_silent_joints_by_index(responded@);
    }
    missing
}

/// Positions and joints correspond one to one.
pub proof fn lemma_joint_index_round_trip(joint: NeckJoint, index: int)
    ensures
        joint_at(joint_index(joint) as int) == Some(joint),
        joint_at(index) matches Some(j) ==> joint_index(j) == index,
{
}

/// Each joint has a motor of its own on the CAN bus.
pub proof fn lemma_joint_motor_ids_distinct(a: NeckJoint, b: NeckJoint)
    ensures
        joint_motor_id(a) == joint_motor_id(b) ==> a == b,
{
}

} // verus!
