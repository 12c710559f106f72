//! What holds of whole job runs: the executor's guarantees over any sequence of
//! outcomes that the caller reports.

use vstd::prelude::*;
use crate::device::{opt_view, verification};
use crate::executor::{
    command_of, completed_text, next, start, AdapterReport, CommandView, EventView, ExecView,
    ImageStatus, Operation, Outcome, Stage, WriteStatus,
};
use crate::job::{Action, JobView};
use crate::session::{begin_spec, is_terminal, serve, submit_spec, SessionView};
use crate::text::is_blank;

verus! {

/// Feeds `os` to the machine from `v`: the final state and every event emitted.
pub open spec fn run_outcomes(v: ExecView, os: Seq<Outcome>) -> (ExecView, Seq<EventView>)
    decreases os.len(),
{
    if os.len() == 0 {
        (v, seq![])
    } else {
        let (v1, e1) = next(v, os[0]);
        let (v2, e2) = run_outcomes(v1, os.drop_first());
        (v2, e1 + e2)
    }
}

/// `k` samples of a write that is still running.
pub open spec fn running(k: nat) -> Seq<Outcome> {
    Seq::new(k, |i: int| Outcome::Write(WriteStatus::Running))
}

/// The outcomes of a job whose device exists, is inspected with `report` and
/// formats without trouble.
pub open spec fn verified_and_formatted(report: Option<String>) -> Seq<Outcome> {
    seq![
        Outcome::DeviceChecked(true),
        Outcome::Inspected { exists: true, report },
        Outcome::Formatted(AdapterReport::Success),
    ]
}

/// Whether the progress values of `evs` never decrease.
pub open spec fn non_decreasing(evs: Seq<EventView>) -> bool {
    forall|i: int, j: int| 0 <= i <= j < evs.len() ==> evs[i].progress <= evs[j].progress
}

/// Whether the progress values of `evs` strictly increase.
pub open spec fn increasing(evs: Seq<EventView>) -> bool {
    forall|i: int, j: int| 0 <= i < j < evs.len() ==> evs[i].progress < evs[j].progress
}

/// Running a finished-by-failure job changes nothing and emits nothing.
pub proof fn lemma_failed_is_final(v: ExecView, os: Seq<Outcome>)
    requires
        v.stage == Stage::Failed,
    ensures
        run_outcomes(v, os) == (v, Seq::<EventView>::empty()),
    decreases os.len(),
{
    if os.len() > 0 {
        lemma_failed_is_final(v, os.drop_first());
        assert(Seq::<EventView>::empty() + Seq::<EventView>::empty() =~= Seq::<EventView>::empty());
    }
}

/// Running `a` then `b` is running their concatenation.
pub proof fn lemma_run_concat(v: ExecView, a: Seq<Outcome>, b: Seq<Outcome>)
    ensures
        run_outcomes(v, a + b) == (run_outcomes(run_outcomes(v, a).0, b).0, run_outcomes(v, a).1 + run_outcomes(run_outcomes(v, a).0, b).1),
    decreases a.len(),
{
    if a.len() == 0 {
        assert(a + b =~= b);
        assert(Seq::<EventView>::empty() + run_outcomes(v, b).1 =~= run_outcomes(v, b).1);
    } else {
        lemma_run_concat(next(v, a[0]).0, a.drop_first(), b);
        assert((a + b).drop_first() =~= a.drop_first() + b);
        let e1 = next(v, a[0]).1;
        let r = run_outcomes(next(v, a[0]).0, a.drop_first());
        assert(e1 + (r.1 + run_outcomes(r.0, b).1) =~= (e1 + r.1) + run_outcomes(r.0, b).1);
    }
}

/// Every transition keeps the state invariant.
pub proof fn lemma_next_inv(v: ExecView, o: Outcome)
    requires
        v.inv(),
    ensures
        next(v, o).0.inv(),
{
}

/// A job with no device is rejected with exactly one failure event, and no
/// command other than `Finish` is ever issued for it, whatever is reported back.
pub proof fn empty_device_rejected(j: JobView, os: Seq<Outcome>)
    requires
        j.device.len() == 0,
    ensures
        start(j).1.len() == 1,
        start(j).1[0].progress == 0,
        command_of(start(j).0) == CommandView::Finish,
        run_outcomes(start(j).0, os) == (start(j).0, Seq::<EventView>::empty()),
{
    lemma_failed_is_final(start(j).0, os);
}

/// A `Create` job without an image is rejected with exactly one failure event
/// before the device is looked at, and no command other than `Finish` follows.
pub proof fn missing_image_rejected(j: JobView, os: Seq<Outcome>)
    requires
        j.action == Action::Create,
        j.image is None,
    ensures
        start(j).1.len() == 1,
        start(j).1[0].progress == 0,
        command_of(start(j).0) == CommandView::Finish,
        run_outcomes(start(j).0, os) == (start(j).0, Seq::<EventView>::empty()),
{
    lemma_failed_is_final(start(j).0, os);
}

/// A device whose inspection shows a mount point ends the job with a failure
/// event, and the device is never formatted afterwards.
pub proof fn mounted_device_never_formatted(
    v: ExecView,
    exists: bool,
    report: Option<String>,
    os: Seq<Outcome>,
)
    requires
        v.inv(),
        v.stage == Stage::Inspecting,
        verification(v.job.device, exists, opt_view(report)) matches Ok(d) && d.mount_points.len()
            > 0,
    ensures
        ({
            let (w, evs) = next(v, Outcome::Inspected { exists, report });
            &&& evs.len() == 1
            &&& evs[0].progress == 0
            &&& w.stage == Stage::Failed
            &&& command_of(w) == CommandView::Finish
            &&& run_outcomes(w, os) == (w, Seq::<EventView>::empty())
        }),
{
    let w = next(v, Outcome::Inspected { exists, report }).0;
    lemma_failed_is_final(w, os);
}

/// When a job that got past formatting fails while preparing or writing the
/// image, its last event is a failure, and the inspection made before the
/// format (which the failed state keeps) found the device unmounted.
pub proof fn write_failure_follows_unmounted_check(v: ExecView, o: Outcome)
    requires
        v.inv(),
        v.stage == Stage::Formatted || v.stage == Stage::ImageReady || v.stage == Stage::Writing,
        next(v, o).0.stage == Stage::Failed,
    ensures
        next(v, o).1.len() == 1,
        next(v, o).1.last().progress == 0,
        next(v, o).0.inspection == v.inspection,
        v.inspection matches Some(d) && !d.is_mounted && d.mount_points.len() == 0,
{
}

/// A `Format` job on an existing, unmounted device that formats without
/// trouble reports 5, 10 and 100, the last one as completion.
pub proof fn format_job_succeeds(j: JobView, report: Option<String>)
    requires
        j.action == Action::Format,
        !is_blank(j.device),
        verification(j.device, true, opt_view(report)) matches Ok(d) && !d.is_mounted,
    ensures
        start(j).1.len() == 0,
        ({
            let (w, evs) = run_outcomes(start(j).0, verified_and_formatted(report));
            &&& evs.len() == 3
            &&& evs[0].progress == 5
            &&& evs[1].progress == 10
            &&& evs[2].progress == 100
            &&& increasing(evs)
            &&& evs[2].status == completed_text()
            &&& evs[2].operation == Operation::Complete
            &&& w.stage == Stage::Complete
            &&& command_of(w) == CommandView::Finish
        }),
{
    let os = verified_and_formatted(report);
    let v0 = start(j).0;
    let (v1, e1) = next(v0, os[0]);
    let (v2, e2) = next(v1, os[1]);
    let (v3, e3) = next(v2, os[2]);
    assert(os.drop_first().drop_first().drop_first() =~= Seq::<Outcome>::empty());
    assert(os.drop_first().drop_first()[0] == os[2]);
    assert(os.drop_first()[0] == os[1]);
    reveal_with_fuel(run_outcomes, 4);
    let evs = run_outcomes(v0, os).1;
    assert(evs =~= e1 + (e2 + (e3 + Seq::<EventView>::empty())));
}

/// Samples of a running write each report progress between the last one and 95,
/// never going back.
pub proof fn lemma_write_ticks(v: ExecView, k: nat)
    requires
        v.inv(),
        v.stage == Stage::ImageReady || v.stage == Stage::Writing,
    ensures
        ({
            let (w, evs) = run_outcomes(v, running(k));
            &&& evs.len() == k
            &&& w.inv()
            &&& (w.stage == Stage::ImageReady || w.stage == Stage::Writing)
            &&& w.job == v.job
            &&& v.progress <= w.progress <= 95
            &&& non_decreasing(evs)
            &&& forall|i: int|
                0 <= i < k ==> v.progress <= (#[trigger] evs[i]).progress <= w.progress
                    && evs[i].operation == Operation::IsoWriting
        }),
    decreases k,
{
    if k > 0 {
        let v1 = next(v, Outcome::Write(WriteStatus::Running)).0;
        let e1 = next(v, Outcome::Write(WriteStatus::Running)).1;
        assert(running(k)[0] == Outcome::Write(WriteStatus::Running));
        assert(running(k).drop_first() =~= running((k - 1) as nat));
        lemma_write_ticks(v1, (k - 1) as nat);
        let r = run_outcomes(v1, running((k - 1) as nat));
        assert(run_outcomes(v, running(k)).1 == e1 + r.1);
        assert forall|i: int| 0 <= i < k implies v.progress <= (#[trigger] run_outcomes(v, running(k)).1[i]).progress
            <= run_outcomes(v, running(k)).0.progress && run_outcomes(v, running(k)).1[i].operation == Operation::IsoWriting by {
            if i > 0 {
                assert(run_outcomes(v, running(k)).1[i] == r.1[i - 1]);
            }
        }
        assert forall|i: int, j: int| 0 <= i <= j < k implies run_outcomes(v, running(k)).1[i].progress <= run_outcomes(
            v,
            running(k),
        ).1[j].progress by {
            if i > 0 {
                assert(run_outcomes(v, running(k)).1[i] == r.1[i - 1]);
                assert(run_outcomes(v, running(k)).1[j] == r.1[j - 1]);
            } else if j > 0 {
                assert(run_outcomes(v, running(k)).1[j] == r.1[j - 1]);
            }
        }
    } else {
        assert(running(k) =~= Seq::<Outcome>::empty());
    }
}

/// The outcomes of a successful `Create` job whose write is sampled `k` times
/// while it runs.
pub open spec fn create_outcomes(report: Option<String>, k: nat) -> Seq<Outcome> {
    verified_and_formatted(report) + seq![Outcome::ImageChecked(ImageStatus::Ready)] + running(k)
        + seq![Outcome::Write(WriteStatus::Finished(AdapterReport::Success)), Outcome::Settled]
}

/// A `Create` job on an existing, unmounted device whose format and write both
/// succeed reports 5 (verifying), 10 (formatting), 50 (writing), then one event
/// per write sample, each within 50..=95, then 95 (verifying the write) and 100
/// (complete); progress never goes back.
#[verifier::rlimit(60)]
pub proof fn create_job_succeeds(j: JobView, report: Option<String>, k: nat)
    requires
        j.action == Action::Create,
        j.image is Some,
        !is_blank(j.device),
        verification(j.device, true, opt_view(report)) matches Ok(d) && !d.is_mounted,
    ensures
        start(j).1.len() == 0,
        ({
            let (w, evs) = run_outcomes(start(j).0, create_outcomes(report, k));
            &&& evs.len() == k + 5
            &&& evs[0].progress == 5 && evs[0].operation == Operation::DeviceVerification
            &&& evs[1].progress == 10 && evs[1].operation == Operation::Formatting
            &&& evs[2].progress == 50 && evs[2].operation == Operation::IsoWriting
            &&& (forall|i: int|
                3 <= i < k + 3 ==> 50 <= (#[trigger] evs[i]).progress <= 95 && evs[i].operation
                    == Operation::IsoWriting)
            &&& evs[k + 3int].progress == 95 && evs[k + 3int].operation == Operation::Verification
            &&& evs[k + 4int].progress == 100 && evs[k + 4int].operation == Operation::Complete
            &&& evs[k + 4int].status == completed_text()
            &&& non_decreasing(evs)
            &&& w.stage == Stage::Complete
            &&& command_of(w) == CommandView::Finish
        }),
{
    let v0 = start(j).0;
    let a = verified_and_formatted(report) + seq![Outcome::ImageChecked(ImageStatus::Ready)];
    let t = running(k);
    let z = seq![Outcome::Write(WriteStatus::Finished(AdapterReport::Success)), Outcome::Settled];
    assert(create_outcomes(report, k) == a + t + z);
    lemma_run_concat(v0, a + t, z);
    lemma_run_concat(v0, a, t);
    // the fixed prefix
    let (v1, e1) = next(v0, a[0]);
    let (v2, e2) = next(v1, a[1]);
    let (v3, e3) = next(v2, a[2]);
    let (v4, e4) = next(v3, a[3]);
    assert(a.drop_first()[0] == a[1]);
    assert(a.drop_first().drop_first()[0] == a[2]);
    assert(a.drop_first().drop_first().drop_first()[0] == a[3]);
    assert(a.drop_first().drop_first().drop_first().drop_first() =~= Seq::<Outcome>::empty());
    reveal_with_fuel(run_outcomes, 5);
    let ra = run_outcomes(v0, a);
    assert(ra.1 =~= e1 + (e2 + (e3 + (e4 + Seq::<EventView>::empty()))));
    assert(ra.0 == v4);
    assert(v4.stage == Stage::ImageReady);
    // the samples
    lemma_write_ticks(v4, k);
    let rt = run_outcomes(v4, t);
    // the end
    let (v5, e5) = next(rt.0, z[0]);
    let (v6, e6) = next(v5, z[1]);
    assert(z.drop_first()[0] == z[1]);
    assert(z.drop_first().drop_first() =~= Seq::<Outcome>::empty());
    let rz = run_outcomes(rt.0, z);
    assert(rz.1 =~= e5 + (e6 + Seq::<EventView>::empty()));
    let evs = ra.1 + rt.1 + rz.1;
    assert(run_outcomes(v0, create_outcomes(report, k)).1 == evs);
    assert forall|i: int| 3 <= i < k + 3 implies evs[i] == rt.1[i - 3] by {}
    assert(evs[k + 3int] == e5[0]);
    assert(evs[k + 4int] == e6[0]);
    assert forall|i: int, m: int| 0 <= i <= m < evs.len() implies evs[i].progress <= evs[m].progress by {
        if 3 <= i < k + 3 && 3 <= m < k + 3 {
            assert(rt.1[i - 3].progress <= rt.1[m - 3].progress);
        } else if 3 <= i < k + 3 {
            assert(rt.1[i - 3].progress <= 95);
        } else if 3 <= m < k + 3 {
            assert(50 <= rt.1[m - 3].progress);
        }
    }
}

/// Whether `evs` is in progress order from `p`: every progress within 0..=100,
/// a failure event (progress 0) only as the last one, and the others never
/// below `p` nor going back.
pub open spec fn ordered_from(p: u8, evs: Seq<EventView>) -> bool {
    &&& forall|i: int| 0 <= i < evs.len() && (#[trigger] evs[i]).progress == 0 ==> i == evs.len() - 1
    &&& forall|i: int| 0 <= i < evs.len() ==> (#[trigger] evs[i]).progress <= 100
    &&& forall|i: int| 0 <= i < evs.len() && (#[trigger] evs[i]).progress != 0 ==> p <= evs[i].progress
    &&& forall|i: int, j: int|
        0 <= i <= j < evs.len() && (#[trigger] evs[j]).progress != 0 ==> (#[trigger] evs[i]).progress
            <= evs[j].progress
}

proof fn lemma_step_shape(v: ExecView, o: Outcome)
    requires
        v.inv(),
    ensures
        ({
            let (w, e) = next(v, o);
            &&& e.len() <= 1
            &&& (e.len() == 1 ==> e[0].progress <= 100)
            &&& (e.len() == 0 ==> w.progress == v.progress && (w.stage == Stage::Failed ==> w == v))
            &&& (e.len() == 1 && e[0].progress == 0 ==> w.stage == Stage::Failed)
            &&& (e.len() == 1 && e[0].progress != 0 ==> e[0].progress == w.progress && v.progress
                <= w.progress)
        }),
{
}

/// The events of any run of a job come in progress order: never going back,
/// and a failure event (progress 0) only as the very last one.
pub proof fn events_ordered(v: ExecView, os: Seq<Outcome>)
    requires
        v.inv(),
    ensures
        ordered_from(v.progress, run_outcomes(v, os).1),
    decreases os.len(),
{
    if os.len() > 0 {
        let (w, e) = next(v, os[0]);
        lemma_step_shape(v, os[0]);
        lemma_next_inv(v, os[0]);
        let rest = run_outcomes(w, os.drop_first()).1;
        let evs = run_outcomes(v, os).1;
        assert(evs == e + rest);
        if w.stage == Stage::Failed {
            lemma_failed_is_final(w, os.drop_first());
            assert(evs =~= e);
        } else {
            events_ordered(w, os.drop_first());
            if e.len() == 1 {
                assert forall|i: int| 1 <= i < evs.len() implies evs[i] == rest[i - 1] by {}
                assert(evs[0] == e[0]);
            } else {
                assert(evs =~= rest);
            }
        }
    }
}

/// Whether the outcomes `a` bring the job at `v` to its end exactly with the
/// last of them.
pub open spec fn ends_with_last(v: ExecView, a: Seq<Outcome>) -> bool
    decreases a.len(),
{
    a.len() > 0 && {
        let w = next(v, a[0]).0;
        if a.len() == 1 {
            is_terminal(w.stage)
        } else {
            !is_terminal(w.stage) && ends_with_last(w, a.drop_first())
        }
    }
}

/// While the job in flight runs to its end, the connection emits its events
/// and nothing else; only then do waiting jobs get their turn.
pub proof fn lemma_serve_current_first(sv: SessionView, a: Seq<Outcome>, b: Seq<Outcome>)
    requires
        sv.wf(),
        sv.current is Some,
        ends_with_last(sv.current->Some_0, a),
    ensures
        ({
            let idle = SessionView { current: None, pending: sv.pending };
            serve(sv, a + b) == (serve(idle, b).0, run_outcomes(sv.current->Some_0, a).1 + serve(idle, b).1)
        }),
    decreases a.len(),
{
    let v = sv.current->Some_0;
    let idle = SessionView { current: None, pending: sv.pending };
    let (w, e1) = next(v, a[0]);
    lemma_next_inv(v, a[0]);
    assert((a + b)[0] == a[0]);
    assert((a + b).drop_first() =~= a.drop_first() + b);
    if a.len() == 1 {
        assert(a.drop_first() =~= Seq::<Outcome>::empty());
        assert(a.drop_first() + b =~= b);
        assert(run_outcomes(v, a).1 =~= e1);
    } else {
        let s1 = SessionView { current: Some(w), pending: sv.pending };
        lemma_serve_current_first(s1, a.drop_first(), b);
        let r = run_outcomes(w, a.drop_first()).1;
        assert(e1 + (r + serve(idle, b).1) =~= (e1 + r) + serve(idle, b).1);
    }
}

/// Two jobs on one connection run one after the other: a job submitted while
/// another is in flight emits nothing and waits; every event of the first job
/// comes before any event of the second, which then starts exactly once, with
/// the events of its submission.
pub proof fn jobs_run_one_after_another(v1: ExecView, j2: JobView, a: Seq<Outcome>, b: Seq<Outcome>)
    requires
        v1.inv(),
        !is_terminal(v1.stage),
        ends_with_last(v1, a),
    ensures
        ({
            let sv = SessionView { current: Some(v1), pending: seq![] };
            let waiting = SessionView { current: None, pending: seq![j2] };
            let idle = SessionView { current: None, pending: seq![] };
            &&& submit_spec(sv, j2).1 == Seq::<EventView>::empty()
            &&& submit_spec(sv, j2).0 == SessionView { current: Some(v1), pending: seq![j2] }
            &&& serve(submit_spec(sv, j2).0, a + b).1 == run_outcomes(v1, a).1 + serve(waiting, b).1
            &&& serve(waiting, b).1 == begin_spec(idle, j2).1 + serve(begin_spec(idle, j2).0, b).1
            &&& begin_spec(idle, j2).0.pending.len() == 0
        }),
{
    let sv = SessionView { current: Some(v1), pending: seq![] };
    let s1 = submit_spec(sv, j2).0;
    assert(s1.pending =~= seq![j2]);
    lemma_serve_current_first(s1, a, b);
    let waiting = SessionView { current: None, pending: seq![j2] };
    let idle = SessionView { current: None, pending: seq![] };
    assert(waiting.pending.drop_first() =~= Seq::<JobView>::empty());
    assert(SessionView { pending: waiting.pending.drop_first(), ..waiting } == idle);
}

} // verus!
