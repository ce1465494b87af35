//! Which servos answered a ping round, and what the answers mean.
use vstd::prelude::*;
use crate::error::{texts, MotorError};
use crate::labels::{motor_label, motor_label_spec};
use crate::motors::motor_name_spec;

verus! {

/// The ids, in order, whose ping got no positive answer.
pub open spec fn unanswered(ids: Seq<u8>, responded: Seq<bool>) -> Seq<u8>
    decreases ids.len(),
{
    if ids.len() == 0 {
        Seq::empty()
    } else {
        let rest = unanswered(ids.drop_last(), responded.take(ids.len() - 1));
        if responded[ids.len() - 1] {
            rest
        } else {
            rest.push(ids.last())
        }
    }
}

/// A ping round never adds servos: every id it reports missing was among the
/// ids pinged, and it reports no more ids than were pinged.
pub proof fn lemma_ping_round_never_adds(ids: Seq<u8>, responded: Seq<bool>)
    requires
        ids.len() == responded.len(),
    ensures
        unanswered(ids, responded).len() <= ids.len(),
        forall|x: u8| unanswered(ids, responded).contains(x) ==> ids.contains(x),
    decreases ids.len(),
{
    if ids.len() > 0 {
        let n = ids.len() - 1;
        lemma_ping_round_never_adds(ids.drop_last(), responded.take(n));
        assert forall|x: u8| unanswered(ids, responded).contains(x) implies ids.contains(x) by {
            let rest = unanswered(ids.drop_last(), responded.take(n));
            if rest.contains(x) {
                let j = choose|j: int| 0 <= j < rest.len() && rest[j] == x;
                assert(ids.drop_last().contains(x));
                let m = choose|m: int| 0 <= m < ids.drop_last().len() && ids.drop_last()[m] == x;
                assert(ids[m] == x);
            } else {
                assert(ids[n] == x);
            }
        }
    }
}

/// A ping round reports no servo missing exactly when every servo answered.
pub proof fn lemma_ping_round_all_answered(ids: Seq<u8>, responded: Seq<bool>)
    requires
        ids.len() == responded.len(),
    ensures
        unanswered(ids, responded).len() == 0 <==> forall|k: int|
            0 <= k < ids.len() ==> #[trigger] responded[k],
    decreases ids.len(),
{
    if ids.len() > 0 {
        let n = ids.len() - 1;
        lemma_ping_round_all_answered(ids.drop_last(), responded.take(n));
        if unanswered(ids, responded).len() == 0 {
            assert forall|k: int| 0 <= k < ids.len() implies #[trigger] responded[k] by {
                if k < n {
                    assert(responded.take(n)[k] == responded[k]);
                }
            }
        }
        if forall|k: int| 0 <= k < ids.len() ==> #[trigger] responded[k] {
            assert forall|k: int| 0 <= k < n implies #[trigger] responded.take(n)[k] by {
                assert(responded[k]);
            }
            assert(responded[n]);
        }
    }
}

/// Selects the pings that got no positive answer.
pub open spec fn silent_ping() -> spec_fn((u8, bool)) -> bool {
    |p: (u8, bool)| !p.1
}

/// The id of a ping.
pub open spec fn pinged_id() -> spec_fn((u8, bool)) -> u8 {
    |p: (u8, bool)| p.0
}

/// A servo is reported missing exactly when its own ping got no positive
/// answer: the ids reported are those `ids[k]` with `responded[k]` false,
/// in the order pinged, and no other.
pub proof fn lemma_missing_are_exactly_the_silent(ids: Seq<u8>, responded: Seq<bool>)
    requires
        ids.len() == responded.len(),
    ensures
        unanswered(ids, responded) == ids.zip_with(responded).filter(silent_ping()).map_values(
            pinged_id(),
        ),
    decreases ids.len(),
{
    let z = ids.zip_with(responded);
    if ids.len() == 0 {
        assert(z =~= Seq::<(u8, bool)>::empty());
        reveal(Seq::filter);
        assert(z.filter(silent_ping()) =~= Seq::<(u8, bool)>::empty());
        assert(z.filter(silent_ping()).map_values(pinged_id()) =~= Seq::<u8>::empty());
    } else {
        let n = ids.len() - 1;
        let front = ids.drop_last().zip_with(responded.take(n));
        lemma_missing_are_exactly_the_silent(ids.drop_last(), responded.take(n));
        assert(z =~= front.push((ids[n], responded[n])));
        front.lemma_filter_push((ids[n], responded[n]), silent_ping());
        let kept = front.filter(silent_ping());
        if !responded[n] {
            assert(kept.push((ids[n], responded[n])).map_values(pinged_id()) =~= kept.map_values(
                pinged_id(),
            ).push(ids[n]));
        }
    }
}

/// The labels of servo ids, in order.
pub open spec fn labels(ids: Seq<u8>) -> Seq<Seq<char>> {
    ids.map_values(|id: u8| motor_label_spec(id))
}

/// The servos among `ids` that did not answer: `responded[k]` says whether
/// the ping of `ids[k]` came back positive.
pub fn missing_after_ping(ids: &[u8], responded: &[bool]) -> (missing: Vec<u8>)
    requires
        ids@.len() == responded@.len(),
    ensures
        missing@ == unanswered(ids@, responded@),
        missing@ == ids@.zip_with(responded@).filter(silent_ping()).map_values(pinged_id()),
{
    let mut missing: Vec<u8> = Vec::new();
    let mut i: usize = 0;
    while i < ids.len()
        invariant
            i <= ids@.len(),
            ids@.len() == responded@.len(),
            missing@ == unanswered(ids@.take(i as int), responded@.take(i as int)),
        decreases ids@.len() - i,
    {
        assert(ids@.take(i + 1).drop_last() =~= ids@.take(i as int));
        assert(responded@.take(i + 1).take(i as int) =~= responded@.take(i as int));
        if !responded[i] {
            missing.push(ids[i]);
        }
        i = i + 1;
    }
    assert(ids@.take(ids@.len() as int) =~= ids@);
    assert(responded@.take(ids@.len() as int) =~= responded@);
    proof {
        lemma_missing_are_exactly_the_silent(ids@, responded@);
    }
    missing
}

/// The labels of `ids`, in order.
pub fn motor_labels(ids: &[u8]) -> (names: Vec<String>)
    ensures
        texts(names@) == labels(ids@),
{
    let mut names: Vec<String> = Vec::new();
    let mut i: usize = 0;
    while i < ids.len()
        invariant
            i <= ids@.len(),
            names@.len() == i,
            texts(names@) == labels(ids@.take(i as int)),
        decreases ids@.len() - i,
    {
        let label = motor_label(ids[i]);
        let ghost before = names@;
        names.push(label);
        assert(names@ == before.push(label));
        assert forall|k: int| 0 <= k < i implies #[trigger] texts(names@)[k] == labels(
            ids@.take(i + 1),
        )[k] by {
            assert(texts(names@)[k] == names@[k]@);
            assert(names@[k] == before[k]);
            assert(texts(before)[k] == labels(ids@.take(i as int))[k]);
        }
        assert(texts(names@) =~= labels(ids@.take(i + 1)));
        i = i + 1;
    }
    assert(ids@.take(ids@.len() as int) =~= ids@);
    names
}

/// What the control loop makes of the servos that did not answer at start:
/// none missing is fine; all seven missing means the supply is off; any
/// other number names the missing servos.
pub fn classify_missing_motors(missing: &[u8]) -> (res: Result<(), MotorError>)
    ensures
        missing@.len() == 0 ==> res is Ok,
        missing@.len() == 7 ==> res matches Err(MotorError::NoPowerError()),
        missing@.len() != 0 && missing@.len() != 7 ==> (res matches Err(
            MotorError::MissingMotors(names),
        ) && texts(names@) == labels(missing@)),
        res matches Err(e) ==> (e is NoPowerError || e is MissingMotors),
{
    if missing.len() == 7 {
        Err(MotorError::NoPowerError())
    } else if missing.len() != 0 {
        Err(MotorError::MissingMotors(motor_labels(missing)))
    } else {
        Ok(())
    }
}

/// The servos that stayed silent after a reboot.
pub struct RebootFailure {
    pub names: Vec<String>,
    pub ids: Vec<u8>,
}

/// Outcome of the wait that follows a reboot: success when every servo
/// answered, else the silent servos by name and id.
pub fn reboot_outcome(missing: Vec<u8>) -> (res: Result<(), RebootFailure>)
    requires
        forall|k: int| 0 <= k < missing@.len() ==> #[trigger] motor_name_spec(missing@[k]) is Some,
    ensures
        res is Ok <==> missing@.len() == 0,
        res matches Err(f) ==> (f.ids@ == missing@ && texts(f.names@) == missing@.map_values(
            |id: u8| motor_name_spec(id).unwrap(),
        )),
{
    if missing.len() == 0 {
        Ok(())
    } else {
        let names = motor_labels(&missing);
        assert(labels(missing@) =~= missing@.map_values(|id: u8| motor_name_spec(id).unwrap()));
        Err(RebootFailure { names, ids: missing })
    }
}

/// Pause between two ping rounds while rebooted servos come back, in
/// milliseconds.
pub const REBOOT_POLL_MS: u64 = 100;

/// What to do while waiting for rebooted servos.
pub enum RebootStep {
    /// Wait `REBOOT_POLL_MS`, then ping these servos, still silent, again.
    PingAgain(Vec<u8>),
    /// Stop waiting, with this outcome.
    Finished(Result<(), RebootFailure>),
}

/// After a reboot: keep pinging the silent servos until all have answered or
/// the time allowed has run out.
pub fn reboot_wait_next(missing: Vec<u8>, timed_out: bool) -> (step: RebootStep)
    requires
        forall|k: int| 0 <= k < missing@.len() ==> #[trigger] motor_name_spec(missing@[k]) is Some,
    ensures
        missing@.len() != 0 && !timed_out ==> (step matches RebootStep::PingAgain(ids) && ids@
            == missing@),
        missing@.len() == 0 ==> step matches RebootStep::Finished(Ok(())),
        missing@.len() != 0 && timed_out ==> (step matches RebootStep::Finished(Err(f)) && f.ids@
            == missing@ && texts(f.names@) == missing@.map_values(
            |id: u8| motor_name_spec(id).unwrap(),
        )),
{
    if missing.len() != 0 && !timed_out {
        RebootStep::PingAgain(missing)
    } else {
        RebootStep::Finished(reboot_outcome(missing))
    }
}

} // verus!
