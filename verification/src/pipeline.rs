//! The run-level decisions of the ingestion pipeline.
//!
//! The worker threads, the bounded queue and the clock live in the
//! host; everything the pipeline decides — progress arithmetic in
//! ten-thousandths, the transaction checkpoint cadence, the run's
//! phase transitions under cancellation, input validation — is a pure
//! function verified here.

use vstd::prelude::*;
use crate::actions::SinkAction;
use crate::errors::StdfHelperError;

verus! {

/// How many records are processed between transaction checkpoints: a
/// durability/throughput tradeoff, never a correctness boundary.
pub const CHECKPOINT_INTERVAL: u64 = 1000000;

/// Whether the writer must commit and open a new transaction after
/// this many records since the last checkpoint.
pub fn checkpoint_due(count: u64) -> (r: bool)
    ensures
        r == (count > CHECKPOINT_INTERVAL),
{
    count > CHECKPOINT_INTERVAL
}

/// A producer's progress through its file group, in ten-thousandths:
/// the fraction of the current file, advanced by the files already
/// finished, over the number of files in the group.
pub open spec fn spec_group_progress(
    offset: int,
    file_size: int,
    sub_idx: int,
    num_files: int,
) -> int {
    ((offset * 10000 / file_size) + sub_idx * 10000) / num_files
}

/// Computes a producer's progress in ten-thousandths; at most 10000.
pub fn group_progress(offset: u64, file_size: u64, sub_idx: u64, num_files: u64) -> (r: u64)
    requires
        file_size > 0,
        offset <= file_size,
        sub_idx < num_files,
    ensures
        r == spec_group_progress(offset as int, file_size as int, sub_idx as int, num_files as int),
        r <= 10000,
{
    let ghost o = offset as int;
    let ghost fs = file_size as int;
    let ghost si = sub_idx as int;
    let ghost nf = num_files as int;
    proof {
        assert(o * 10000 <= fs * 10000) by (nonlinear_arith)
            requires
                o <= fs,
        ;
        assert(o * 10000 / fs <= 10000) by (nonlinear_arith)
            requires
                fs > 0,
                o * 10000 <= fs * 10000,
        ;
        assert((offset as u128) * 10000 < u128::MAX && (sub_idx as u128) * 10000 < u128::MAX / 2)
            by (nonlinear_arith)
            requires
                offset <= u64::MAX,
                sub_idx <= u64::MAX,
        ;
    }
    let file_part = (offset as u128) * 10000 / (file_size as u128);
    let total = file_part + (sub_idx as u128) * 10000;
    let r128 = total / (num_files as u128);
    proof {
        assert(file_part as int == o * 10000 / fs);
        assert(total as int <= nf * 10000) by (nonlinear_arith)
            requires
                file_part as int <= 10000,
                si < nf,
                total as int == file_part as int + si * 10000,
        ;
        assert(r128 as int <= 10000) by (nonlinear_arith)
            requires
                nf > 0,
                total as int <= nf * 10000,
                0 <= total as int,
                r128 as int == total as int / nf,
        ;
        assert(r128 as int == spec_group_progress(o, fs, si, nf));
    }
    r128 as u64
}

/// The sum of a sequence of progress values.
pub open spec fn seq_sum(s: Seq<u64>) -> int
    decreases s.len(),
{
    if s.len() == 0 {
        0
    } else {
        seq_sum(s.drop_last()) + s.last()
    }
}

proof fn lemma_seq_sum_bounded(s: Seq<u64>, bound: int)
    requires
        forall|i: int| 0 <= i < s.len() ==> s[i] <= bound,
        bound >= 0,
    ensures
        0 <= seq_sum(s) <= s.len() * bound,
    decreases s.len(),
{
    if s.len() > 0 {
        assert(forall|i: int| 0 <= i < s.len() - 1 ==> s.drop_last()[i] == s[i]);
        lemma_seq_sum_bounded(s.drop_last(), bound);
        assert((s.len() - 1) * bound + bound == s.len() * bound) by (nonlinear_arith);
    }
}

/// The overall percentage (in ten-thousandths) the poller reports: the
/// mean of the groups' last-reported fractions.
pub open spec fn spec_aggregate_progress(fractions: Seq<u64>) -> int {
    if fractions.len() == 0 {
        0
    } else {
        seq_sum(fractions) / fractions.len() as int
    }
}

/// Aggregates per-group progress fractions into one overall value; at
/// most 10000 when every fraction is.
pub fn aggregate_progress(fractions: &Vec<u64>) -> (r: u64)
    requires
        forall|i: int| 0 <= i < fractions@.len() ==> fractions@[i] <= 10000,
    ensures
        r == spec_aggregate_progress(fractions@),
        r <= 10000,
{
    if fractions.len() == 0 {
        return 0;
    }
    proof {
        lemma_seq_sum_bounded(fractions@, 10000);
    }
    let mut sum: u128 = 0;
    let mut i: usize = 0;
    while i < fractions.len()
        invariant
            i <= fractions@.len(),
            sum == seq_sum(fractions@.take(i as int)),
            forall|j: int| 0 <= j < fractions@.len() ==> fractions@[j] <= 10000,
            sum <= i * 10000,
        decreases fractions@.len() - i,
    {
        proof {
            assert(fractions@.take(i as int + 1).drop_last() =~= fractions@.take(i as int));
            assert(fractions@.take(i as int + 1).last() == fractions@[i as int]);
            assert(i * 10000 + 10000 == (i + 1) * 10000) by (nonlinear_arith);
            assert(i + 1 <= u64::MAX && (i as u128) * 10000 + 10000 < u128::MAX);
        }
        sum = sum + fractions[i] as u128;
        i = i + 1;
    }
    proof {
        assert(fractions@.take(fractions@.len() as int) =~= fractions@);
        assert(seq_sum(fractions@) / (fractions@.len() as int) <= 10000) by (nonlinear_arith)
            requires
                fractions@.len() > 0,
                0 <= seq_sum(fractions@) <= fractions@.len() * 10000,
        ;
    }
    let r = sum / (fractions.len() as u128);
    r as u64
}

/// The phase of one ingestion run.
#[derive(Clone, Copy, PartialEq, Eq, Structural, Debug)]
pub enum RunPhase {
    /// Configured but not started.
    Idle,
    /// Producers and writer are running.
    Streaming,
    /// The cancellation token was observed; terminal.
    Cancelled,
    /// The stream was drained and the store finalized; terminal.
    Completed,
    /// A fatal error aborted the run; terminal.
    Failed,
}

/// An event the run reacts to.
#[derive(Clone, Copy, PartialEq, Eq, Structural, Debug)]
pub enum RunEvent {
    /// The workers were started.
    Started,
    /// The cancellation predicate was observed true.
    CancelRequested,
    /// A fatal error was raised.
    FatalError,
    /// Every producer finished and the queue drained.
    StreamEnded,
}

/// Whether a phase is terminal: the run never leaves it.
pub open spec fn spec_is_terminal(p: RunPhase) -> bool {
    p is Cancelled || p is Completed || p is Failed
}

/// The run's phase transition.
pub open spec fn spec_next_phase(p: RunPhase, e: RunEvent) -> RunPhase {
    if spec_is_terminal(p) {
        p
    } else {
        match (p, e) {
            (RunPhase::Idle, RunEvent::Started) => RunPhase::Streaming,
            (RunPhase::Streaming, RunEvent::CancelRequested) => RunPhase::Cancelled,
            (RunPhase::Streaming, RunEvent::FatalError) => RunPhase::Failed,
            (RunPhase::Streaming, RunEvent::StreamEnded) => RunPhase::Completed,
            _ => p,
        }
    }
}

/// Tests whether a phase is terminal.
pub fn is_terminal(p: RunPhase) -> (r: bool)
    ensures
        r == spec_is_terminal(p),
{
    matches!(p, RunPhase::Cancelled | RunPhase::Completed | RunPhase::Failed)
}

/// Advances the run's phase on an event.  A terminal phase absorbs
/// every event, and an observed cancellation during streaming always
/// reaches the terminal `Cancelled` phase: the run cannot continue
/// indefinitely once the token is true.
pub fn next_phase(p: RunPhase, e: RunEvent) -> (r: RunPhase)
    ensures
        r == spec_next_phase(p, e),
        spec_is_terminal(p) ==> r == p,
        p is Streaming && e is CancelRequested ==> r is Cancelled,
        p is Streaming && e is StreamEnded ==> r is Completed,
        p is Streaming && e is FatalError ==> r is Failed,
{
    if is_terminal(p) {
        p
    } else {
        match (p, e) {
            (RunPhase::Idle, RunEvent::Started) => RunPhase::Streaming,
            (RunPhase::Streaming, RunEvent::CancelRequested) => RunPhase::Cancelled,
            (RunPhase::Streaming, RunEvent::FatalError) => RunPhase::Failed,
            (RunPhase::Streaming, RunEvent::StreamEnded) => RunPhase::Completed,
            _ => p,
        }
    }
}

/// Once cancellation is observed during streaming, a single transition
/// reaches a terminal phase, and terminal phases never move again.
pub proof fn lemma_cancellation_terminates(p: RunPhase, e: RunEvent)
    ensures
        p is Streaming ==> spec_is_terminal(spec_next_phase(p, RunEvent::CancelRequested)),
        spec_is_terminal(p) ==> spec_next_phase(p, e) == p,
{
}

/// Rejects a run configuration with an empty file group.
pub fn check_file_groups(groups: &Vec<Vec<String>>) -> (r: Result<(), StdfHelperError>)
    ensures
        match r {
            Ok(_) => forall|i: int| 0 <= i < groups@.len() ==> groups@[i]@.len() > 0,
            Err(e) => (exists|i: int| 0 <= i < groups@.len() && groups@[i]@.len() == 0) && e
                matches StdfHelperError::Io { .. },
        },
{
    let mut i: usize = 0;
    while i < groups.len()
        invariant
            i <= groups@.len(),
            forall|j: int| 0 <= j < i ==> groups@[j]@.len() > 0,
        decreases groups@.len() - i,
    {
        if groups[i].len() == 0 {
            return Err(
                StdfHelperError::Io { msg: String::from_str("Empty STDF file group detected") },
            );
        }
        i = i + 1;
    }
    Ok(())
}

/// The file-name rows of one group, in file order.
pub open spec fn group_file_actions(fid: u64, paths: Seq<String>) -> Seq<SinkAction> {
    Seq::new(
        paths.len(),
        |i: int| SinkAction::InsertFileName { group: fid, sub: i as u64, path: paths[i] },
    )
}

/// The file-name rows of all groups, group by group, in order.
pub open spec fn all_file_actions(groups: Seq<Vec<String>>, n: int) -> Seq<SinkAction>
    decreases n,
{
    if n <= 0 {
        Seq::empty()
    } else {
        all_file_actions(groups, n - 1) + group_file_actions((n - 1) as u64, groups[n - 1]@)
    }
}

/// Emits the file-name row of every physical file, keyed by its group
/// and its position within the group, before streaming begins.
pub fn file_name_actions(groups: &Vec<Vec<String>>) -> (acts: Vec<SinkAction>)
    ensures
        acts@ == all_file_actions(groups@, groups@.len() as int),
{
    let mut acts: Vec<SinkAction> = Vec::new();
    let mut g: usize = 0;
    while g < groups.len()
        invariant
            g <= groups@.len(),
            acts@ == all_file_actions(groups@, g as int),
        decreases groups@.len() - g,
    {
        let ghost head = acts@;
        let mut i: usize = 0;
        while i < groups[g].len()
            invariant
                g < groups@.len(),
                i <= groups@[g as int]@.len(),
                acts@ == head + group_file_actions(g as u64, groups@[g as int]@).take(i as int),
            decreases groups@[g as int]@.len() - i,
        {
            acts.push(
                SinkAction::InsertFileName {
                    group: g as u64,
                    sub: i as u64,
                    path: groups[g][i].clone(),
                },
            );
            proof {
                let gfa = group_file_actions(g as u64, groups@[g as int]@);
                assert(gfa.take(i as int + 1) =~= gfa.take(i as int).push(gfa[i as int]));
                assert(acts@ =~= head + gfa.take(i as int + 1));
            }
            i = i + 1;
        }
        proof {
            let gfa = group_file_actions(g as u64, groups@[g as int]@);
            assert(gfa.take(groups@[g as int]@.len() as int) =~= gfa);
            assert(acts@ =~= all_file_actions(groups@, g as int + 1));
        }
        g = g + 1;
    }
    acts
}

} // verus!
