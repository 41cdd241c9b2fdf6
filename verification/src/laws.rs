//! What holds of the plans whatever the host looks like.
use crate::decimal::{decimal, lemma_decimal_round_trip, lemma_decimal_shape};
use crate::effect::{leaves_files_alone, EffectView};
use crate::host::{FileReadView, HostView};
use crate::shell::{launch, NextView, StageView};
use crate::systemd::{
    associate_plan, greet_plan, inside, live_pid, pipe_closed, readiness, record_pid, record_text,
    role_plan, runs_systemd, running, start_plan, stop_plan, ReadinessView, Role, SeenView,
    StartView, SystemdError, HANDSHAKE_NANOS, PID_FILE, SYSTEM_CONF, USER_CONF,
};
use crate::text::{is_space, trim, trim_end, trim_start};
use vstd::prelude::*;
use vstd::utf8::encode_utf8;

verus! {

/// The host as it would look with no record at all.
pub open spec fn without_record(h: HostView) -> HostView {
    HostView { record: FileReadView::Missing, ..h }
}

/// Whether the record is stale: it holds a process id, and that process is
/// not the service manager.
pub open spec fn stale(h: HostView) -> bool {
    h.record matches FileReadView::Data(bytes) && record_pid(bytes) matches Ok(pid)
        && !runs_systemd(h, pid)
}

/// Starting twice starts once. Where the starter saw the instance run, so
/// that the start succeeded, a second start on what it saw plans nothing.
pub proof fn lemma_start_is_idempotent(elapsed: u128, h: HostView)
    requires
        readiness(elapsed, SeenView::Host(h)) is Ready,
    ensures
        running(h),
        start_plan(h) == Ok::<StartView, SystemdError>(StartView::AlreadyRunning),
{
}

/// A start never launches beside an instance that runs.
pub proof fn lemma_start_leaves_running_alone(h: HostView)
    ensures
        running(h) <==> start_plan(h) == Ok::<StartView, SystemdError>(StartView::AlreadyRunning),
{
}

/// A stale record counts as no record: every question and every plan comes
/// out as it would with the record gone. From outside, stopping does nothing
/// and succeeds, and joining is refused to root because nothing runs.
pub proof fn lemma_stale_record_is_no_record(h: HostView, elapsed: u128)
    requires
        stale(h),
    ensures
        live_pid(h) == Ok::<Option<i32>, SystemdError>(None),
        live_pid(h) == live_pid(without_record(h)),
        inside(h) == inside(without_record(h)),
        stop_plan(h) == stop_plan(without_record(h)),
        associate_plan(h) == associate_plan(without_record(h)),
        start_plan(h) == start_plan(without_record(h)),
        readiness(elapsed, SeenView::Host(h)) == readiness(
            elapsed,
            SeenView::Host(without_record(h)),
        ),
        !inside(h) ==> stop_plan(h) == Ok::<Seq<EffectView>, SystemdError>(Seq::empty()),
        h.euid == 0 ==> associate_plan(h) == Err::<Seq<EffectView>, SystemdError>(
            SystemdError::SystemdNotRunning,
        ),
{
}

/// Stopping where nothing runs and no record exists succeeds and asks for
/// nothing, so no file is touched.
pub proof fn lemma_stop_without_instance(h: HostView)
    requires
        !inside(h),
        h.record is Missing,
    ensures
        stop_plan(h) == Ok::<Seq<EffectView>, SystemdError>(Seq::empty()),
        leaves_files_alone(stop_plan(h)->Ok_0),
{
}

/// Root cannot join where nothing runs: the answer is that no instance runs,
/// and no plan comes with it.
pub proof fn lemma_associate_without_instance(h: HostView)
    requires
        h.euid == 0,
        live_pid(h) == Ok::<Option<i32>, SystemdError>(None),
    ensures
        associate_plan(h) == Err::<Seq<EffectView>, SystemdError>(SystemdError::SystemdNotRunning),
{
}

/// A plan to join is only ever made for the instance that runs.
pub proof fn lemma_associate_needs_instance(h: HostView)
    ensures
        associate_plan(h) is Ok ==> h.euid == 0 && live_pid(h) matches Ok(Some(_)),
        !(live_pid(h) matches Ok(Some(_))) ==> associate_plan(h) is Err,
{
}

/// The wait for readiness is bounded. While the pipe is not seen closed, the
/// starter never polls past the ten seconds, and once they are over it fails
/// with the answer that no instance runs.
pub proof fn lemma_handshake_is_bounded(elapsed: u128, seen: SeenView)
    requires
        !(seen is Host),
        !(seen is PollFailed),
        !pipe_closed(seen),
    ensures
        elapsed >= HANDSHAKE_NANOS ==> readiness(elapsed, seen) == ReadinessView::Failed(
            SystemdError::SystemdNotRunning,
        ),
        elapsed < HANDSHAKE_NANOS ==> (readiness(elapsed, seen) matches ReadinessView::Poll {
            timeout_ms,
        } && 0 <= timeout_ms <= 10_000 && elapsed + timeout_ms * 1_000_000 <= HANDSHAKE_NANOS),
{
}

/// Whatever was seen, no poll is asked for once the ten seconds are over.
pub proof fn lemma_no_poll_after_deadline(elapsed: u128, seen: SeenView)
    requires
        elapsed >= HANDSHAKE_NANOS,
    ensures
        !(readiness(elapsed, seen) is Poll),
{
}

/// A number in decimal with a line end behind it trims to the number.
pub proof fn lemma_trim_record_text(pid: i32)
    ensures
        trim(record_text(pid)) == decimal(pid as int),
{
    reveal_strlit("\n");
    let number = decimal(pid as int);
    let text = record_text(pid);
    lemma_decimal_shape(pid as int);
    assert(text =~= number.push('\n'));
    assert(text[0] == number[0]);
    assert(!is_space(text[0]));
    assert(trim_start(text) == text);
    assert(is_space(text.last()));
    assert(text.drop_last() =~= number);
    assert(!is_space(number.last()));
    assert(trim_end(number) == number);
    assert(trim_end(text) == trim_end(number));
}

/// The record reads back. What is written for a process id, read as bytes,
/// gives that process id.
pub proof fn lemma_record_round_trip(pid: i32)
    ensures
        record_pid(encode_utf8(record_text(pid))) == Ok::<i32, SystemdError>(pid),
{
    let text = record_text(pid);
    vstd::utf8::encode_utf8_valid_utf8(text);
    vstd::utf8::encode_utf8_decode_utf8(text);
    lemma_trim_record_text(pid);
    lemma_decimal_round_trip(pid as int);
}

/// The process id that the starter greets is the one of the record. Where
/// the record holds what was written for `pid` and that process is the
/// service manager, it is `pid` that is found to run and `pid` that is
/// greeted.
pub proof fn lemma_recorded_pid_is_verified_pid(h: HostView, pid: i32, elapsed: u128)
    requires
        h.record == FileReadView::Data(encode_utf8(record_text(pid))),
        runs_systemd(h, pid),
    ensures
        live_pid(h) == Ok::<Option<i32>, SystemdError>(Some(pid)),
        readiness(elapsed, SeenView::Host(h)) == ReadinessView::Ready(greet_plan(pid)),
{
    lemma_record_round_trip(pid);
}

/// Whether a plan writes the record.
pub open spec fn writes_record(plan: Seq<EffectView>) -> bool {
    exists|k: int|
        0 <= k < plan.len() && (#[trigger] plan[k] matches EffectView::WriteFile { path, .. }
            && path == PID_FILE@)
}

/// The record is written by one process of a launch only: the first child
/// once it has forked again, and what it writes is the process id of its
/// child.
pub proof fn lemma_record_is_written_for_the_second_child(
    role: Role,
    bin: Seq<char>,
    vars: Seq<(Seq<char>, Seq<char>)>,
)
    ensures
        writes_record(role_plan(role, bin, vars)) <==> role is Middle,
        role matches Role::Middle { child } ==> role_plan(role, bin, vars)[2]
            == (EffectView::WriteFile { path: PID_FILE@, content: record_text(child) }),
{
    reveal_strlit("/run/bottled-shell/systemd.pid");
    reveal_strlit("/run/systemd/system.conf.d/10-bottled-shell-env.conf");
    reveal_strlit("/run/systemd/user.conf.d/10-bottled-shell-env.conf");
    let plan = role_plan(role, bin, vars);
    match role {
        Role::Middle { .. } => {
            assert(plan[2] matches EffectView::WriteFile { path, .. } && path == PID_FILE@);
        },
        Role::Starter => {
            assert(plan.len() == 5);
            assert(PID_FILE@.len() != SYSTEM_CONF@.len());
            assert(PID_FILE@.len() != USER_CONF@.len());
        },
        _ => {},
    }
}

/// The plan that comes with a step of a launch.
pub open spec fn plan_of(next: NextView) -> Seq<EffectView> {
    match next {
        NextView::Release(plan) => plan,
        NextView::Start => Seq::empty(),
        NextView::Join(plan) => plan,
        NextView::Run(plan) => plan,
    }
}

/// A launch never ends the instance: none of its plans sends a signal or
/// removes the record.
pub proof fn lemma_launch_leaves_instance_running(
    entry_point: Seq<char>,
    shell: Seq<char>,
    args: Seq<Seq<char>>,
    stage: StageView,
)
    ensures
        launch(entry_point, shell, args, stage) matches Ok(next) ==> forall|k: int|
            0 <= k < plan_of(next).len() ==> !(#[trigger] plan_of(next)[k] is Signal) && !(plan_of(
                next,
            )[k] is RemoveIfPresent),
{
}

} // verus!
