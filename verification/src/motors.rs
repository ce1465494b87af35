//! Servo identifiers of the Feetech bus and the names of the joints they drive.
use vstd::prelude::*;

verus! {

/// Baud rate of the Feetech servo bus.
pub const SERVO_BAUD: u32 = 1_000_000;

/// SocketCAN interface that carries the neck motors unless another is named.
pub const DEFAULT_CAN_BUS: &'static str = "can0";

/// Left arm servos: pitch, yaw.
pub const LEFT_ARM_IDS: [u8; 2] = [1, 2];

/// Right arm servos: pitch, yaw.
pub const RIGHT_ARM_IDS: [u8; 2] = [3, 4];

/// All arm servos (SM40BL family).
pub const ARM_IDS: [u8; 4] = [1, 2, 3, 4];

/// All nose servos (STS3025BL family).
pub const NOSE_IDS: [u8; 3] = [5, 6, 7];

/// Every servo of the bus, in the order used by the 7-element position,
/// voltage and torque arrays: left arm pitch and yaw, right arm pitch and yaw,
/// nose top, left and right.
pub const ALL_IDS: [u8; 7] = [1, 2, 3, 4, 5, 6, 7];

pub open spec fn left_arm_ids() -> Seq<u8> {
    seq![1u8, 2u8]
}

pub open spec fn right_arm_ids() -> Seq<u8> {
    seq![3u8, 4u8]
}

pub open spec fn arm_ids() -> Seq<u8> {
    seq![1u8, 2u8, 3u8, 4u8]
}

pub open spec fn nose_ids() -> Seq<u8> {
    seq![5u8, 6u8, 7u8]
}

pub open spec fn all_ids() -> Seq<u8> {
    arm_ids() + nose_ids()
}

/// The id belongs to an arm servo.
pub open spec fn is_arm_id(id: u8) -> bool {
    arm_ids().contains(id)
}

/// The id belongs to a nose servo.
pub open spec fn is_nose_id(id: u8) -> bool {
    nose_ids().contains(id)
}

/// Selects the arm servos among ids.
pub open spec fn arm_family() -> spec_fn(u8) -> bool {
    |id: u8| is_arm_id(id)
}

/// Selects the nose servos among ids.
pub open spec fn nose_family() -> spec_fn(u8) -> bool {
    |id: u8| is_nose_id(id)
}

/// Name of the joint driven by servo `id`, if the id is one of the bus.
pub open spec fn motor_name_spec(id: u8) -> Option<Seq<char>> {
    if id == 1 {
        Some("left_arm_pitch"@)
    } else if id == 2 {
        Some("left_arm_yaw"@)
    } else if id == 3 {
        Some("right_arm_pitch"@)
    } else if id == 4 {
        Some("right_arm_yaw"@)
    } else if id == 5 {
        Some("nose_top"@)
    } else if id == 6 {
        Some("nose_left"@)
    } else if id == 7 {
        Some("nose_right"@)
    } else {
        None
    }
}

pub proof fn lemma_id_tables()
    ensures
        ARM_IDS@ == arm_ids(),
        NOSE_IDS@ == nose_ids(),
        ALL_IDS@ == all_ids(),
        LEFT_ARM_IDS@ == left_arm_ids(),
        RIGHT_ARM_IDS@ == right_arm_ids(),
        forall|id: u8| #[trigger] is_arm_id(id) <==> 1 <= id <= 4,
        forall|id: u8| #[trigger] is_nose_id(id) <==> 5 <= id <= 7,
{
    assert(ALL_IDS@ =~= all_ids());
    assert forall|id: u8| #[trigger] is_arm_id(id) <==> 1 <= id <= 4 by {
        if 1 <= id <= 4 {
            assert(arm_ids()[id - 1] == id);
        }
    }
    assert forall|id: u8| #[trigger] is_nose_id(id) <==> 5 <= id <= 7 by {
        if 5 <= id <= 7 {
            assert(nose_ids()[id - 5] == id);
        }
    }
}

/// Whether `id` occurs in `ids`.
pub fn contains_id(ids: &[u8], id: u8) -> (found: bool)
    ensures
        found == ids@.contains(id),
{
    let mut i: usize = 0;
    while i < ids.len()
        invariant
            i <= ids@.len(),
            forall|j: int| 0 <= j < i ==> ids@[j] != id,
        decreases ids@.len() - i,
    {
        if ids[i] == id {
            return true;
        }
        i = i + 1;
    }
    false
}

/// An owned copy of a list of ids.
pub fn copy_ids(ids: &[u8]) -> (copy: Vec<u8>)
    ensures
        copy@ == ids@,
{
    let mut copy: Vec<u8> = Vec::new();
    let mut i: usize = 0;
    while i < ids.len()
        invariant
            i <= ids@.len(),
            copy@ == ids@.take(i as int),
        decreases ids@.len() - i,
    {
        copy.push(ids[i]);
        i = i + 1;
        assert(copy@ =~= ids@.take(i as int));
    }
    assert(ids@.take(ids@.len() as int) =~= ids@);
    copy
}

/// Sort servo ids into the two servo families: the arm servos (first) and the
/// nose servos (second), each in the order given. Ids of neither family are
/// dropped.
pub fn split_ids_by_family(ids: &[u8]) -> (res: (Vec<u8>, Vec<u8>))
    ensures
        res.0@ == ids@.filter(arm_family()),
        res.1@ == ids@.filter(nose_family()),
{
    proof {
        lemma_id_tables();
    }
    let arm_table = ARM_IDS;
    let nose_table = NOSE_IDS;
    let mut arms: Vec<u8> = Vec::new();
    let mut nose: Vec<u8> = Vec::new();
    let mut i: usize = 0;
    assert(ids@.take(0) =~= Seq::<u8>::empty());
    while i < ids.len()
        invariant
            i <= ids@.len(),
            arm_table@ == arm_ids(),
            nose_table@ == nose_ids(),
            arms@ == ids@.take(i as int).filter(arm_family()),
            nose@ == ids@.take(i as int).filter(nose_family()),
        decreases ids@.len() - i,
    {
        let id = ids[i];
        assert(ids@.take(i + 1) =~= ids@.take(i as int).push(id));
        proof {
            ids@.take(i as int).lemma_filter_push(id, arm_family());
            ids@.take(i as int).lemma_filter_push(id, nose_family());
        }
        if contains_id(&arm_table, id) {
            arms.push(id);
            assert(!is_nose_id(id)) by {
                lemma_id_tables();
            }
        } else if contains_id(&nose_table, id) {
            nose.push(id);
        }
        i = i + 1;
    }
    assert(ids@.take(ids@.len() as int) =~= ids@);
    (arms, nose)
}

/// The literal's text as an owned string.
fn owned(s: &str) -> (res: String)
    ensures
        res@ == s@,
{
    s.to_owned()
}

/// Name of the joint driven by servo `id`; `None` for an id that is not on
/// the bus.
pub fn motor_name(id: u8) -> (name: Option<String>)
    ensures
        match name {
            Some(n) => motor_name_spec(id) == Some(n@),
            None => motor_name_spec(id) is None,
        },
{
    proof {
        reveal_strlit("left_arm_pitch");
        reveal_strlit("left_arm_yaw");
        reveal_strlit("right_arm_pitch");
        reveal_strlit("right_arm_yaw");
        reveal_strlit("nose_top");
        reveal_strlit("nose_left");
        reveal_strlit("nose_right");
    }
    if id == 1 {
        Some(owned("left_arm_pitch"))
    } else if id == 2 {
        Some(owned("left_arm_yaw"))
    } else if id == 3 {
        Some(owned("right_arm_pitch"))
    } else if id == 4 {
        Some(owned("right_arm_yaw"))
    } else if id == 5 {
        Some(owned("nose_top"))
    } else if id == 6 {
        Some(owned("nose_left"))
    } else if id == 7 {
        Some(owned("nose_right"))
    } else {
        None
    }
}

/// The (joint name, servo id) pairs of the bus, in the order of `ALL_IDS`.
pub fn motor_name_ids() -> (pairs: Vec<(String, u8)>)
    ensures
        pairs@.len() == 7,
        forall|k: int|
            0 <= k < 7 ==> #[trigger] pairs@[k].1 == all_ids()[k] && motor_name_spec(pairs@[k].1)
                == Some(pairs@[k].0@),
{
    proof {
        lemma_id_tables();
    }
    let ids = ALL_IDS;
    let mut pairs: Vec<(String, u8)> = Vec::new();
    let mut i: usize = 0;
    while i < 7
        invariant
            i <= 7,
            ids@ == all_ids(),
            pairs@.len() == i,
            forall|k: int|
                0 <= k < i ==> #[trigger] pairs@[k].1 == all_ids()[k] && motor_name_spec(
                    pairs@[k].1,
                ) == Some(pairs@[k].0@),
        decreases 7 - i,
    {
        let id = ids[i];
        match motor_name(id) {
            Some(name) => {
                pairs.push((name, id));
            },
            None => {
                assert(false);
            },
        }
        i = i + 1;
    }
    pairs
}

/// Every servo of the bus has a name, and no two servos share one.
pub proof fn lemma_motor_names_distinct()
    ensures
        forall|k: int| 0 <= k < 7 ==> #[trigger] motor_name_spec(all_ids()[k]) is Some,
        forall|a: u8, b: u8|
            #![trigger motor_name_spec(a), motor_name_spec(b)]
            motor_name_spec(a) is Some && motor_name_spec(a) == motor_name_spec(b) ==> a == b,
{
    reveal_strlit("left_arm_pitch");
    reveal_strlit("left_arm_yaw");
    reveal_strlit("right_arm_pitch");
    reveal_strlit("right_arm_yaw");
    reveal_strlit("nose_top");
    reveal_strlit("nose_left");
    reveal_strlit("nose_right");
    assert forall|a: u8, b: u8|
        #![trigger motor_name_spec(a), motor_name_spec(b)]
        motor_name_spec(a) is Some && motor_name_spec(a) == motor_name_spec(b) implies a == b by {
        if a != b {
            let na = motor_name_spec(a).unwrap();
            let nb = motor_name_spec(b).unwrap();
            assert(na.len() != nb.len() || na[0] != nb[0] || na[na.len() - 1] != nb[nb.len() - 1]
                || na[5] != nb[5]);
        }
    }
}

} // verus!
