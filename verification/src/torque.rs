//! Torque enabling on the servo bus: which sync writes a request becomes, and
//! what the control loop reports afterwards.
use vstd::prelude::*;
use crate::motors::{arm_family, arm_ids, nose_family, nose_ids, all_ids, lemma_id_tables, split_ids_by_family, copy_ids, ARM_IDS, NOSE_IDS};

verus! {

/// The two servo families of the bus, each written with its own register map.
#[derive(Debug, Clone, Copy, PartialEq, Eq, Structural)]
pub enum ServoFamily {
    /// SM40BL servos of the arms.
    Sm40bl,
    /// STS3025BL servos of the nose.
    Sts3025bl,
}

/// One sync write of the torque-enable register: `enables[k]` goes to servo
/// `ids[k]` of the given family.
pub struct TorqueWrite {
    pub family: ServoFamily,
    pub ids: Vec<u8>,
    pub enables: Vec<bool>,
}

impl View for TorqueWrite {
    type V = (ServoFamily, Seq<u8>, Seq<bool>);

    open spec fn view(&self) -> (ServoFamily, Seq<u8>, Seq<bool>) {
        (self.family, self.ids@, self.enables@)
    }
}

/// `n` copies of the same flag.
pub open spec fn uniform(flag: bool, n: nat) -> Seq<bool> {
    Seq::new(n, |_k: int| flag)
}

/// The writes of a plan, by value.
pub open spec fn plan_view(writes: Seq<TorqueWrite>) -> Seq<(ServoFamily, Seq<u8>, Seq<bool>)> {
    writes.map_values(|w: TorqueWrite| w@)
}

/// The write that sets one flag on a group of servos of a family; none when
/// the group is empty.
pub open spec fn group_write(family: ServoFamily, ids: Seq<u8>, flag: bool) -> Seq<
    (ServoFamily, Seq<u8>, Seq<bool>),
> {
    if ids.len() == 0 {
        Seq::empty()
    } else {
        seq![(family, ids, uniform(flag, ids.len()))]
    }
}

/// Torque writes for a request on chosen servos: one write for the arm
/// servos among them, then one for the nose servos, each only when there is
/// such a servo.
pub open spec fn plan_for_ids(ids: Seq<u8>, enable: bool) -> Seq<(ServoFamily, Seq<u8>, Seq<bool>)> {
    group_write(ServoFamily::Sm40bl, ids.filter(arm_family()), enable) + group_write(
        ServoFamily::Sts3025bl,
        ids.filter(nose_family()),
        enable,
    )
}

/// Torque writes for a request on every servo of the bus.
pub open spec fn plan_for_all(enable: bool) -> Seq<(ServoFamily, Seq<u8>, Seq<bool>)> {
    seq![
        (ServoFamily::Sm40bl, arm_ids(), uniform(enable, 4)),
        (ServoFamily::Sts3025bl, nose_ids(), uniform(enable, 3)),
    ]
}

fn uniform_flags(flag: bool, n: usize) -> (flags: Vec<bool>)
    ensures
        flags@ == uniform(flag, n as nat),
{
    let mut flags: Vec<bool> = Vec::new();
    let mut i: usize = 0;
    while i < n
        invariant
            i <= n,
            flags@ == uniform(flag, i as nat),
        decreases n - i,
    {
        flags.push(flag);
        i = i + 1;
        assert(flags@ =~= uniform(flag, i as nat));
    }
    flags
}

/// The single write that sets `enable` on every arm servo.
pub fn arm_torque_write(enable: bool) -> (w: TorqueWrite)
    ensures
        w@ == (ServoFamily::Sm40bl, arm_ids(), uniform(enable, 4)),
{
    proof {
        lemma_id_tables();
    }
    let ids = ARM_IDS;
    TorqueWrite { family: ServoFamily::Sm40bl, ids: copy_ids(&ids), enables: uniform_flags(enable, 4) }
}

/// The single write that sets `enable` on every nose servo.
pub fn nose_torque_write(enable: bool) -> (w: TorqueWrite)
    ensures
        w@ == (ServoFamily::Sts3025bl, nose_ids(), uniform(enable, 3)),
{
    proof {
        lemma_id_tables();
    }
    let ids = NOSE_IDS;
    TorqueWrite {
        family: ServoFamily::Sts3025bl,
        ids: copy_ids(&ids),
        enables: uniform_flags(enable, 3),
    }
}

/// Torque writes that set `enable` on every servo: the arms, then the nose.
pub fn torque_writes_all(enable: bool) -> (writes: Vec<TorqueWrite>)
    ensures
        plan_view(writes@) == plan_for_all(enable),
        writes@.len() == 2,
        writes@[0].family == ServoFamily::Sm40bl,
        writes@[1].family == ServoFamily::Sts3025bl,
        writes@[0].ids@ + writes@[1].ids@ == seq![1u8, 2u8, 3u8, 4u8, 5u8, 6u8, 7u8],
        forall|i: int| 0 <= i < 2 ==> #[trigger] writes@[i].enables@.len() == writes@[i].ids@.len(),
        forall|i: int, k: int|
            0 <= i < 2 && 0 <= k < writes@[i].enables@.len() ==> #[trigger] writes@[i].enables@[k]
                == enable,
{
    let mut writes: Vec<TorqueWrite> = Vec::new();
    writes.push(arm_torque_write(enable));
    writes.push(nose_torque_write(enable));
    assert(plan_view(writes@) =~= plan_for_all(enable));
    proof {
        lemma_full_plan_writes_every_servo(enable);
        assert(plan_view(writes@)[0] == writes@[0]@);
        assert(plan_view(writes@)[1] == writes@[1]@);
    }
    writes
}

fn push_group(writes: &mut Vec<TorqueWrite>, family: ServoFamily, ids: Vec<u8>, enable: bool)
    ensures
        plan_view(final(writes)@) == plan_view(old(writes)@) + group_write(family, ids@, enable),
{
    if ids.len() == 0 {
        assert(plan_view(writes@) + group_write(family, ids@, enable) =~= plan_view(writes@));
    } else {
        let n = ids.len();
        let enables = uniform_flags(enable, n);
        let ghost before = writes@;
        writes.push(TorqueWrite { family, ids, enables });
        assert(plan_view(writes@) =~= plan_view(before) + group_write(family, ids@, enable));
    }
}

/// Torque writes that set `enable` on the servos among `ids`: the arm servos
/// among them, in the order given, then the nose servos. Ids of neither
/// family are ignored; when none remains there is nothing to write, and the
/// bus need not be open.
pub fn torque_writes_for_ids(ids: &[u8], enable: bool) -> (writes: Vec<TorqueWrite>)
    ensures
        plan_view(writes@) == plan_for_ids(ids@, enable),
        forall|i: int, k: int|
            0 <= i < writes@.len() && 0 <= k < writes@[i].enables@.len()
                ==> #[trigger] writes@[i].enables@[k] == enable,
        forall|i: int|
            0 <= i < writes@.len() ==> #[trigger] writes@[i].enables@.len()
                == writes@[i].ids@.len(),
{
    let (arms, nose) = split_ids_by_family(ids);
    let mut writes: Vec<TorqueWrite> = Vec::new();
    assert(plan_view(writes@) =~= Seq::empty());
    push_group(&mut writes, ServoFamily::Sm40bl, arms, enable);
    push_group(&mut writes, ServoFamily::Sts3025bl, nose, enable);
    assert(plan_view(writes@) =~= plan_for_ids(ids@, enable));
    proof {
        lemma_plan_for_ids_writes_what_was_asked(ids@, enable);
        assert forall|i: int| 0 <= i < writes@.len() implies plan_view(writes@)[i]
            == #[trigger] writes@[i]@ by {}
    }
    writes
}

/// Every flag read back from the arm and nose servos is set.
pub fn all_torque_enabled(arm: &[bool], nose: &[bool]) -> (enabled: bool)
    ensures
        enabled == forall|k: int| 0 <= k < (arm@ + nose@).len() ==> #[trigger] (arm@ + nose@)[k],
{
    let mut i: usize = 0;
    while i < arm.len()
        invariant
            i <= arm@.len(),
            forall|k: int| 0 <= k < i ==> #[trigger] arm@[k],
        decreases arm@.len() - i,
    {
        if !arm[i] {
            assert(!(arm@ + nose@)[i as int]);
            return false;
        }
        i = i + 1;
    }
    let mut j: usize = 0;
    while j < nose.len()
        invariant
            j <= nose@.len(),
            forall|k: int| 0 <= k < arm@.len() ==> #[trigger] arm@[k],
            forall|k: int| 0 <= k < j ==> #[trigger] nose@[k],
        decreases nose@.len() - j,
    {
        if !nose[j] {
            assert(!(arm@ + nose@)[arm@.len() + j]);
            return false;
        }
        j = j + 1;
    }
    assert forall|k: int| 0 <= k < (arm@ + nose@).len() implies #[trigger] (arm@ + nose@)[k] by {
        if k < arm@.len() {
            assert(arm@[k]);
        } else {
            assert(nose@[k - arm@.len()]);
        }
    }
    true
}

/// A request that changes torque on the servo bus.
#[derive(Debug, Clone, Copy, PartialEq, Eq, Structural)]
pub enum TorqueCommand {
    Enable,
    EnableOnIds,
    Disable,
    DisableOnIds,
}

/// The flag a torque request sets.
pub open spec fn commanded_torque(command: TorqueCommand) -> bool {
    command is Enable || command is EnableOnIds
}

/// The torque state the control loop reports after handling a request: the
/// commanded flag after a torque request that succeeded, no change after a
/// failed one or after any other request.
pub fn torque_report_after(command: Option<TorqueCommand>, succeeded: bool) -> (report: Option<bool>)
    ensures
        report == (match command {
            Some(c) => if succeeded {
                Some(commanded_torque(c))
            } else {
                None
            },
            None => None,
        }),
{
    match command {
        Some(c) => {
            if succeeded {
                match c {
                    TorqueCommand::Enable => Some(true),
                    TorqueCommand::EnableOnIds => Some(true),
                    TorqueCommand::Disable => Some(false),
                    TorqueCommand::DisableOnIds => Some(false),
                }
            } else {
                None
            }
        },
        None => None,
    }
}

/// The family that drives servo `id`, by id range: 1 to 4 are the SM40BL
/// arm servos, 5 to 7 the STS3025BL nose servos.
pub open spec fn family_of_id(id: u8) -> Option<ServoFamily> {
    if 1 <= id <= 4 {
        Some(ServoFamily::Sm40bl)
    } else if 5 <= id <= 7 {
        Some(ServoFamily::Sts3025bl)
    } else {
        None
    }
}

/// What a torque request on chosen servos writes:
/// - every flag written is the commanded one, one flag per id;
/// - every id written was asked for, and is written with its own family;
/// - every id asked for that is a servo of the bus is written;
/// - each family gets at most one write, arms before nose.
pub proof fn lemma_plan_for_ids_writes_what_was_asked(ids: Seq<u8>, enable: bool)
    ensures
        ({
            let plan = plan_for_ids(ids, enable);
            &&& forall|i: int, k: int|
                0 <= i < plan.len() && 0 <= k < plan[i].2.len() ==> #[trigger] plan[i].2[k]
                    == enable
            &&& forall|i: int| 0 <= i < plan.len() ==> #[trigger] plan[i].2.len() == plan[i].1.len()
            &&& forall|i: int, k: int|
                0 <= i < plan.len() && 0 <= k < plan[i].1.len() ==> ids.contains(
                    #[trigger] plan[i].1[k],
                ) && family_of_id(plan[i].1[k]) == Some(plan[i].0)
            &&& forall|j: int|
                0 <= j < ids.len() && family_of_id(#[trigger] ids[j]) is Some ==> exists|i: int, k: int|
                    0 <= i < plan.len() && 0 <= k < plan[i].1.len() && plan[i].1[k] == ids[j]
            &&& plan.len() <= 2
            &&& plan.len() == 2 ==> plan[0].0 == ServoFamily::Sm40bl && plan[1].0
                == ServoFamily::Sts3025bl
        }),
{
    broadcast use vstd::seq_lib::group_filter_ensures;
    lemma_id_tables();
    let arms = ids.filter(arm_family());
    let nose = ids.filter(nose_family());
    let plan = plan_for_ids(ids, enable);
    let ga = group_write(ServoFamily::Sm40bl, arms, enable);
    let gn = group_write(ServoFamily::Sts3025bl, nose, enable);
    assert(plan == ga + gn);
    assert forall|i: int, k: int|
        0 <= i < plan.len() && 0 <= k < plan[i].1.len() implies ids.contains(
        #[trigger] plan[i].1[k],
    ) && family_of_id(plan[i].1[k]) == Some(plan[i].0) by {
        if i < ga.len() {
            assert(plan[i] == ga[i]);
            assert(arm_family()(arms[k]));
            assert(arms.contains(arms[k]));
            ids.lemma_filter_contains_rev(arm_family(), arms[k]);
        } else {
            assert(plan[i] == gn[i - ga.len()]);
            assert(nose_family()(nose[k]));
            assert(nose.contains(nose[k]));
            ids.lemma_filter_contains_rev(nose_family(), nose[k]);
        }
    }
    assert forall|j: int|
        0 <= j < ids.len() && family_of_id(#[trigger] ids[j]) is Some implies exists|i: int, k: int|
        0 <= i < plan.len() && 0 <= k < plan[i].1.len() && plan[i].1[k] == ids[j] by {
        if 1 <= ids[j] <= 4 {
            assert(arm_family()(ids[j]));
            assert(arms.contains(ids[j]));
            let k = choose|k: int| 0 <= k < arms.len() && arms[k] == ids[j];
            assert(plan[0] == ga[0]);
            assert(plan[0].1[k] == ids[j]);
        } else {
            assert(nose_family()(ids[j]));
            assert(nose.contains(ids[j]));
            let k = choose|k: int| 0 <= k < nose.len() && nose[k] == ids[j];
            assert(plan[ga.len() as int] == gn[0]);
            assert(plan[ga.len() as int].1[k] == ids[j]);
        }
    }
}

/// A request on the whole bus writes every servo exactly once, with the
/// commanded flag: the arm servos 1 to 4 in one SM40BL write, then the nose
/// servos 5 to 7 in one STS3025BL write.
pub proof fn lemma_full_plan_writes_every_servo(enable: bool)
    ensures
        plan_for_all(enable).len() == 2,
        plan_for_all(enable)[0].0 == ServoFamily::Sm40bl,
        plan_for_all(enable)[1].0 == ServoFamily::Sts3025bl,
        plan_for_all(enable)[0].1 + plan_for_all(enable)[1].1 == seq![1u8, 2u8, 3u8, 4u8, 5u8, 6u8, 7u8],
        plan_for_all(enable)[0].2 == seq![enable, enable, enable, enable],
        plan_for_all(enable)[1].2 == seq![enable, enable, enable],
{
    assert(plan_for_all(enable)[0].1 + plan_for_all(enable)[1].1 =~= seq![1u8, 2u8, 3u8, 4u8, 5u8, 6u8, 7u8]);
    assert(plan_for_all(enable)[0].2 =~= seq![enable, enable, enable, enable]);
    assert(plan_for_all(enable)[1].2 =~= seq![enable, enable, enable]);
}

/// Enabling torque on every id of the bus writes exactly what enabling torque
/// on the whole bus writes.
pub proof fn lemma_all_ids_plan_is_full_plan(enable: bool)
    ensures
        plan_for_ids(all_ids(), enable) == plan_for_all(enable),
{
    reveal_with_fuel(Seq::filter, 8);
    lemma_id_tables();
    let all = all_ids();
    assert(all =~= seq![1u8, 2u8, 3u8, 4u8, 5u8, 6u8, 7u8]);
    assert(all.filter(arm_family()) =~= arm_ids());
    assert(all.filter(nose_family()) =~= nose_ids());
    assert(plan_for_ids(all, enable) =~= plan_for_all(enable));
}

} // verus!
