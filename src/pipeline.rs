use vstd::prelude::*;

verus! {

/// Where the bring-up stands. Each stage runs one operation through the
/// retry executor; its outcome (a value came back or not) decides the next phase.
#[derive(PartialEq, Eq, Structural, Clone, Copy, Debug)]
pub enum Phase {
    /// Stage 1: bring the card up and read its capacity.
    InitCard,
    /// Stage 2: open volume 0 of the card.
    OpenVolume,
    /// Stage 3: open the root directory of that volume.
    OpenRootDir,
    /// Raise the bus from its start-up speed to its working speed. This comes
    /// after stage 3 whatever the stages before it gave; `storage` says whether
    /// they all succeeded.
    RaiseBusSpeed { storage: bool },
    /// Stage 4: create the log file, or open it for appending.
    CreateFile,
    /// Stage 5: write the header line to the log file.
    WriteHeader,
    /// Bring-up is over with a file to log into.
    Logging,
    /// Bring-up is over without a file: the session only counts.
    CountingOnly,
    /// An unrecoverable fault stopped the device.
    Halted,
}

/// The header line that stage 5 writes: `Timestamp,Counter,Value` and a newline.
pub const HEADER: &'static str = "Timestamp,Counter,Value\n";

impl Phase {
    /// One of the five stages of storage bring-up.
    pub open spec fn is_storage_stage(self) -> bool {
        self is InitCard || self is OpenVolume || self is OpenRootDir || self is CreateFile
            || self is WriteHeader
    }

    /// Bring-up is over: no further operation is made.
    pub open spec fn is_final(self) -> bool {
        self is Logging || self is CountingOnly || self is Halted
    }

    /// A phase from which storage can no longer become available.
    pub open spec fn is_degraded(self) -> bool {
        self == (Phase::RaiseBusSpeed { storage: false }) || self is CountingOnly
            || self is Halted
    }

    /// Whether bring-up is over.
    pub fn finished(&self) -> (r: bool)
        ensures
            r == self.is_final(),
    {
        match self {
            Phase::Logging | Phase::CountingOnly | Phase::Halted => true,
            _ => false,
        }
    }
}

/// The phase after `p` when its operation succeeded (`ok`) or did not.
pub open spec fn next_phase(p: Phase, ok: bool) -> Phase {
    match p {
        Phase::InitCard => if ok { Phase::OpenVolume } else { Phase::RaiseBusSpeed { storage: false } },
        Phase::OpenVolume => if ok { Phase::OpenRootDir } else { Phase::RaiseBusSpeed { storage: false } },
        Phase::OpenRootDir => Phase::RaiseBusSpeed { storage: ok },
        Phase::RaiseBusSpeed { storage } => if !ok {
            Phase::Halted
        } else if storage {
            Phase::CreateFile
        } else {
            Phase::CountingOnly
        },
        Phase::CreateFile => if ok { Phase::WriteHeader } else { Phase::CountingOnly },
        Phase::WriteHeader => if ok { Phase::Logging } else { Phase::CountingOnly },
        _ => p,
    }
}

/// An unrecoverable fault: whatever the device was doing, it stops and stays
/// halted from then on.
pub fn panic(_from: Phase) -> (r: Phase)
    ensures
        r == Phase::Halted,
        r.is_final(),
{
    Phase::Halted
}

/// The bring-up phase that follows `p`, given whether its operation succeeded.
/// Stage 1 starts the bring-up; a stage is reached only when the one before it
/// succeeded, and a failed stage leaves the session without a file. Failing to
/// raise the bus speed halts the device.
pub fn advance(p: Phase, ok: bool) -> (r: Phase)
    ensures
        r == next_phase(p, ok),
        p.is_storage_stage() && !ok ==> r.is_degraded(),
        r is Logging ==> p is WriteHeader || p is Logging,
{
    match p {
        Phase::InitCard => if ok { Phase::OpenVolume } else { Phase::RaiseBusSpeed { storage: false } },
        Phase::OpenVolume => if ok { Phase::OpenRootDir } else { Phase::RaiseBusSpeed { storage: false } },
        Phase::OpenRootDir => Phase::RaiseBusSpeed { storage: ok },
        Phase::RaiseBusSpeed { storage } => {
            if !ok {
                panic(p)
            } else if storage {
                Phase::CreateFile
            } else {
                Phase::CountingOnly
            }
        },
        Phase::CreateFile => if ok { Phase::WriteHeader } else { Phase::CountingOnly },
        Phase::WriteHeader => if ok { Phase::Logging } else { Phase::CountingOnly },
        _ => p,
    }
}

/// The phases that bring-up goes through from `p`, when the operation of the
/// `i`-th phase visited succeeds exactly when `outcomes[i]` holds.
pub open spec fn trace(p: Phase, outcomes: Seq<bool>) -> Seq<Phase>
    decreases outcomes.len(),
{
    if p.is_final() || outcomes.len() == 0 {
        seq![p]
    } else {
        seq![p] + trace(next_phase(p, outcomes[0]), outcomes.drop_first())
    }
}

proof fn lemma_degraded_stays(p: Phase, outcomes: Seq<bool>)
    requires
        p.is_degraded(),
    ensures
        forall|j: int| 0 <= j < trace(p, outcomes).len() ==> (#[trigger] trace(p, outcomes)[j]).is_degraded(),
    decreases outcomes.len(),
{
    if !(p.is_final() || outcomes.len() == 0) {
        let q = next_phase(p, outcomes[0]);
        lemma_degraded_stays(q, outcomes.drop_first());
        assert forall|j: int| 0 <= j < trace(p, outcomes).len() implies (#[trigger] trace(p, outcomes)[j]).is_degraded() by {
            if j > 0 {
                assert(trace(p, outcomes)[j] == trace(q, outcomes.drop_first())[j - 1]);
            }
        }
    }
}

/// Once a stage of storage bring-up has failed for good, no stage is
/// attempted after it (in particular not the one that it gates) and the
/// session never gets a file to log into.
pub proof fn law_failed_stage_gates_the_rest(p: Phase, outcomes: Seq<bool>, i: int, j: int)
    requires
        0 <= i < j < trace(p, outcomes).len(),
        i < outcomes.len(),
        trace(p, outcomes)[i].is_storage_stage(),
        !outcomes[i],
    ensures
        !trace(p, outcomes)[j].is_storage_stage(),
        !(trace(p, outcomes)[j] is Logging),
        trace(p, outcomes)[j].is_degraded(),
    decreases i,
{
    let t = trace(p, outcomes);
    assert(!(p.is_final() || outcomes.len() == 0));
    let q = next_phase(p, outcomes[0]);
    let rest = outcomes.drop_first();
    assert(t[j] == trace(q, rest)[j - 1]);
    if i == 0 {
        lemma_degraded_stays(q, rest);
    } else {
        assert(t[i] == trace(q, rest)[i - 1]);
        assert(outcomes[i] == rest[i - 1]);
        law_failed_stage_gates_the_rest(q, rest, i - 1, j - 1);
    }
}

/// Once the header write has failed, the file is dropped: the next phase is
/// counting only, and the header write is never made again.
pub proof fn law_header_failure_drops_file(p: Phase, outcomes: Seq<bool>, i: int)
    requires
        0 <= i < outcomes.len(),
        i + 1 < trace(p, outcomes).len(),
        trace(p, outcomes)[i] is WriteHeader,
        !outcomes[i],
    ensures
        trace(p, outcomes)[i + 1] is CountingOnly,
        forall|j: int| i < j < trace(p, outcomes).len() ==>
            !(#[trigger] trace(p, outcomes)[j] is WriteHeader) && !(trace(p, outcomes)[j] is Logging),
    decreases i,
{
    let t = trace(p, outcomes);
    assert forall|j: int| i < j < t.len() implies !(#[trigger] t[j] is WriteHeader) && !(t[j] is Logging) by {
        law_failed_stage_gates_the_rest(p, outcomes, i, j);
    }
    let q = next_phase(p, outcomes[0]);
    let rest = outcomes.drop_first();
    if i == 0 {
        assert(t[1] == trace(q, rest)[0]);
    } else {
        assert(t[i] == trace(q, rest)[i - 1]);
        assert(t[i + 1] == trace(q, rest)[i]);
        assert(outcomes[i] == rest[i - 1]);
        law_header_failure_drops_file(q, rest, i - 1);
    }
}

/// How many successful operations still separate `p` from a file to log
/// into, for the phases on the path where all of them succeed.
spec fn steps_to_file(p: Phase) -> int {
    match p {
        Phase::InitCard => 6,
        Phase::OpenVolume => 5,
        Phase::OpenRootDir => 4,
        Phase::RaiseBusSpeed { storage } => if storage { 3 } else { -1 },
        Phase::CreateFile => 2,
        Phase::WriteHeader => 1,
        Phase::Logging => 0,
        _ => -1,
    }
}

proof fn lemma_file_iff_all_succeed(p: Phase, outcomes: Seq<bool>)
    requires
        0 <= steps_to_file(p) <= outcomes.len(),
    ensures
        trace(p, outcomes).last() is Logging <==> (forall|i: int|
            0 <= i < steps_to_file(p) ==> #[trigger] outcomes[i]),
    decreases steps_to_file(p),
{
    if steps_to_file(p) > 0 {
        let q = next_phase(p, outcomes[0]);
        let rest = outcomes.drop_first();
        let t = trace(p, outcomes);
        assert(t == seq![p] + trace(q, rest));
        assert(t.last() == trace(q, rest).last());
        if outcomes[0] {
            lemma_file_iff_all_succeed(q, rest);
            if forall|i: int| 0 <= i < steps_to_file(q) ==> #[trigger] rest[i] {
                assert forall|i: int| 0 <= i < steps_to_file(p) implies #[trigger] outcomes[i] by {
                    if i > 0 {
                        assert(outcomes[i] == rest[i - 1]);
                    }
                }
            } else {
                let i = choose|i: int| 0 <= i < steps_to_file(q) && !#[trigger] rest[i];
                assert(!outcomes[i + 1]);
            }
        } else {
            lemma_degraded_stays(q, rest);
            assert(trace(q, rest)[trace(q, rest).len() - 1].is_degraded());
        }
    }
}

/// Bring-up from stage 1 ends with a file to log into exactly when every
/// one of its six operations (five stages and the bus speed change) succeeds.
pub proof fn law_file_only_after_full_bring_up(outcomes: Seq<bool>)
    requires
        outcomes.len() >= 6,
    ensures
        trace(Phase::InitCard, outcomes).last() is Logging <==> (forall|i: int|
            0 <= i < 6 ==> #[trigger] outcomes[i]),
{
    lemma_file_iff_all_succeed(Phase::InitCard, outcomes);
}

} // verus!
