use vstd::prelude::*;
use crate::share_matrix::{seeded, DecryptionShare, ShareMatrix};

verus! {

/// A direction of movement on the board.
#[derive(Clone, Copy, Debug, PartialEq, Eq, Structural)]
pub enum Direction {
    Up,
    Down,
    Left,
    Right,
}

/// A board request forwarded to the coordinator; its effect lives entirely
/// on the coordinator's side.
#[derive(Clone, Copy, Debug, PartialEq, Eq, Structural)]
pub enum GameRequest {
    InitGame,
    SetupGame,
    Move(Direction),
    Lay,
    Pickup,
    Done,
    GetCell,
}

/// A protocol operation that a session can be asked to perform.
#[derive(Clone, Copy, Debug, PartialEq, Eq, Structural)]
pub enum Step {
    /// Fetch the seed, derive the setup and a key, then register.
    Register,
    /// Ask whether registration has concluded.
    CheckRoster,
    /// Derive the shareable key fragment and submit it.
    SubmitKeyShare,
    /// Ask the coordinator to evaluate the circuit.
    TriggerRun,
    /// Download the evaluated output and submit the own decryption shares.
    DownloadOutput,
    /// Reconstruct the plaintext from the complete share matrix.
    Decrypt,
    /// The terminal step: the decrypted session stays as it is.
    Finish,
    /// A board request.
    Game(GameRequest),
    /// Show the coordinator's roster status.
    Status,
    /// Nothing to do (an empty line or a comment).
    Skip,
}

/// The reasons a command or transition fails.
#[derive(Debug)]
pub enum Fault {
    /// A connection or decoding failure below the protocol.
    Transport(String),
    /// A non-success response; the coordinator's text, verbatim.
    Coordinator(String),
    /// The step is not valid in the current phase.
    OutOfOrder(Step),
    /// The command word is not known.
    UnknownCommand(String),
    /// `move` was given no direction.
    MissingDirection,
    /// `move` was given a word that is no direction.
    InvalidDirection(String),
    /// The coordinator is still evaluating the circuit.
    StillRunning,
    /// Reconstruction was attempted before every share was present.
    IncompleteShares,
    /// The outcome handed in does not belong to the step.
    UnexpectedOutcome,
}

/// What the outside work of a step produced.
pub enum Event<K, O> {
    /// Key material generated and the coordinator's id assigned.
    Registered { key: K, participant: usize },
    /// The roster status.
    Roster { concluded: bool, names: Vec<String> },
    /// The coordinator acknowledged the request.
    Acknowledged,
    /// The coordinator reports the circuit still running.
    RunPending,
    /// The evaluated output with its number of outputs, and the shares this
    /// participant derived from it as `(output_index, share)`.
    OutputReady { output: O, outputs: usize, own: Vec<(usize, DecryptionShare)> },
    /// The reconstructed plaintext, one boolean vector per output.
    Plaintext(Vec<Vec<bool>>),
    /// The outside work failed.
    Failed(Fault),
}

/// The session's phases; each holds exactly the data valid at that point.
/// `C` is the coordinator client handle, `K` the local key material and `O`
/// the evaluated circuit output.
pub enum Phase<C, K, O> {
    Init { name: String, client: C },
    Setup { name: String, client: C, key: K, participant: usize },
    ConcludedRegistration {
        name: String,
        client: C,
        key: K,
        participant: usize,
        roster: Vec<String>,
    },
    SubmittedKeyShare {
        name: String,
        client: C,
        key: K,
        participant: usize,
        roster: Vec<String>,
    },
    TriggeredRun { name: String, client: C, key: K, participant: usize, roster: Vec<String> },
    DownloadedOutput {
        name: String,
        client: C,
        key: K,
        participant: usize,
        roster: Vec<String>,
        output: O,
        shares: ShareMatrix,
    },
    Decrypted { roster: Vec<String>, client: C, plaintext: Vec<Vec<bool>> },
}

impl<C, K, O> Phase<C, K, O> {
    /// Position of the phase in the protocol order.
    pub open spec fn rank(&self) -> nat {
        match self {
            Phase::Init { .. } => 0,
            Phase::Setup { .. } => 1,
            Phase::ConcludedRegistration { .. } => 2,
            Phase::SubmittedKeyShare { .. } => 3,
            Phase::TriggeredRun { .. } => 4,
            Phase::DownloadedOutput { .. } => 5,
            Phase::Decrypted { .. } => 6,
        }
    }

    /// The share matrix of a `DownloadedOutput` phase is well formed and
    /// spans the circuit's outputs times the roster.
    pub open spec fn wf(&self) -> bool {
        match self {
            Phase::DownloadedOutput { roster, shares, .. } => shares.wf() && shares.m()
                == roster@.len(),
            _ => true,
        }
    }

    /// The phase in which `step` is valid.
    pub open spec fn allows(&self, step: Step) -> bool {
        match step {
            Step::Register => self is Init,
            Step::CheckRoster => self is Setup,
            Step::SubmitKeyShare => self is ConcludedRegistration,
            Step::TriggerRun => self is SubmittedKeyShare,
            Step::DownloadOutput => self is TriggeredRun,
            Step::Decrypt => self is DownloadedOutput,
            Step::Finish => self is Decrypted,
            Step::Game(_) => self is SubmittedKeyShare,
            Step::Status => true,
            Step::Skip => true,
        }
    }

    /// Whether the phase's share matrix covers its whole domain.
    pub open spec fn shares_complete(&self) -> bool {
        match self {
            Phase::DownloadedOutput { shares, .. } => shares.is_complete(),
            _ => false,
        }
    }

    /// The fault with which `step` fails on this phase given `event`, if any.
    pub open spec fn fault_of(&self, step: Step, event: Event<K, O>) -> Option<Fault> {
        if !self.allows(step) {
            Some(Fault::OutOfOrder(step))
        } else if step is Finish || step is Skip {
            None
        } else {
            match event {
                Event::Failed(f) => Some(f),
                Event::Registered { .. } => if step is Register {
                    None
                } else {
                    Some(Fault::UnexpectedOutcome)
                },
                Event::Roster { .. } => if step is CheckRoster {
                    None
                } else {
                    Some(Fault::UnexpectedOutcome)
                },
                Event::Acknowledged => if step is SubmitKeyShare || step is TriggerRun
                    || step is Game || step is Status {
                    None
                } else {
                    Some(Fault::UnexpectedOutcome)
                },
                Event::RunPending => if step is DownloadOutput {
                    Some(Fault::StillRunning)
                } else {
                    Some(Fault::UnexpectedOutcome)
                },
                Event::OutputReady { .. } => if step is DownloadOutput {
                    None
                } else {
                    Some(Fault::UnexpectedOutcome)
                },
                Event::Plaintext(_) => if !(step is Decrypt) {
                    Some(Fault::UnexpectedOutcome)
                } else if self.shares_complete() {
                    None
                } else {
                    Some(Fault::IncompleteShares)
                },
            }
        }
    }

    /// `next` is the phase that a successful `step` with `event` leads to.
    pub open spec fn leads_to(&self, step: Step, event: Event<K, O>, next: Phase<C, K, O>) -> bool {
        match (self, step, event) {
            (
                Phase::Init { name, client },
                Step::Register,
                Event::Registered { key, participant },
            ) => next == Phase::<C, K, O>::Setup { name: *name, client: *client, key, participant },
            (
                Phase::Setup { name, client, key, participant },
                Step::CheckRoster,
                Event::Roster { concluded, names },
            ) => if concluded {
                next == Phase::<C, K, O>::ConcludedRegistration {
                    name: *name,
                    client: *client,
                    key: *key,
                    participant: *participant,
                    roster: names,
                }
            } else {
                next == *self
            },
            (
                Phase::ConcludedRegistration { name, client, key, participant, roster },
                Step::SubmitKeyShare,
                _,
            ) => next == Phase::<C, K, O>::SubmittedKeyShare {
                name: *name,
                client: *client,
                key: *key,
                participant: *participant,
                roster: *roster,
            },
            (
                Phase::SubmittedKeyShare { name, client, key, participant, roster },
                Step::TriggerRun,
                _,
            ) => next == Phase::<C, K, O>::TriggeredRun {
                name: *name,
                client: *client,
                key: *key,
                participant: *participant,
                roster: *roster,
            },
            (
                Phase::TriggeredRun { name, client, key, participant, roster },
                Step::DownloadOutput,
                Event::OutputReady { output, outputs, own },
            ) => match next {
                Phase::DownloadedOutput {
                    name: n2,
                    client: c2,
                    key: k2,
                    participant: p2,
                    roster: r2,
                    output: o2,
                    shares,
                } => {
                    &&& n2 == *name && c2 == *client && k2 == *key && p2 == *participant
                    &&& r2 == *roster && o2 == output
                    &&& shares.wf() && shares.n() == outputs && shares.m() == roster@.len()
                    &&& shares@ == seeded(
                        own@,
                        *participant as int,
                        outputs as int,
                        roster@.len() as int,
                    )
                },
                _ => false,
            },
            (
                Phase::DownloadedOutput { roster, client, .. },
                Step::Decrypt,
                Event::Plaintext(plaintext),
            ) => next == Phase::<C, K, O>::Decrypted {
                roster: *roster,
                client: *client,
                plaintext,
            },
            _ => next == *self,
        }
    }
}

/// Whether `step` is valid in `phase`.
pub fn allows<C, K, O>(phase: &Phase<C, K, O>, step: Step) -> (r: bool)
    ensures
        r == phase.allows(step),
{
    match step {
        Step::Register => matches!(phase, Phase::Init { .. }),
        Step::CheckRoster => matches!(phase, Phase::Setup { .. }),
        Step::SubmitKeyShare => matches!(phase, Phase::ConcludedRegistration { .. }),
        Step::TriggerRun => matches!(phase, Phase::SubmittedKeyShare { .. }),
        Step::DownloadOutput => matches!(phase, Phase::TriggeredRun { .. }),
        Step::Decrypt => matches!(phase, Phase::DownloadedOutput { .. }),
        Step::Finish => matches!(phase, Phase::Decrypted { .. }),
        Step::Game(_) => matches!(phase, Phase::SubmittedKeyShare { .. }),
        Step::Status => true,
        Step::Skip => true,
    }
}


/// Performs `step` on `phase`, given what the step's outside work produced.
/// On failure the phase comes back exactly as it was, beside the fault.
pub fn transition<C, K, O>(phase: Phase<C, K, O>, step: Step, event: Event<K, O>) -> (r: Result<
    Phase<C, K, O>,
    (Fault, Phase<C, K, O>),
>)
    requires
        phase.wf(),
    ensures
        r is Ok <==> phase.fault_of(step, event) is None,
        r matches Err((f, p)) ==> p == phase && phase.fault_of(step, event) == Some(f),
        r matches Ok(next) ==> phase.leads_to(step, event, next) && next.wf(),
{
    if !allows(&phase, step) {
        return Err((Fault::OutOfOrder(step), phase));
    }
    match step {
        Step::Finish | Step::Skip => Ok(phase),
        Step::Register => match event {
            Event::Failed(f) => Err((f, phase)),
            Event::Registered { key, participant } => match phase {
                Phase::Init { name, client } => Ok(Phase::Setup { name, client, key, participant }),
                other => Err((Fault::OutOfOrder(step), other)),
            },
            _ => Err((Fault::UnexpectedOutcome, phase)),
        },
        Step::CheckRoster => match event {
            Event::Failed(f) => Err((f, phase)),
            Event::Roster { concluded, names } => {
                if concluded {
                    match phase {
                        Phase::Setup { name, client, key, participant } => Ok(
                            Phase::ConcludedRegistration {
                                name,
                                client,
                                key,
                                participant,
                                roster: names,
                            },
                        ),
                        other => Err((Fault::OutOfOrder(step), other)),
                    }
                } else {
                    Ok(phase)
                }
            },
            _ => Err((Fault::UnexpectedOutcome, phase)),
        },
        Step::SubmitKeyShare => match event {
            Event::Failed(f) => Err((f, phase)),
            Event::Acknowledged => match phase {
                Phase::ConcludedRegistration { name, client, key, participant, roster } => Ok(
                    Phase::SubmittedKeyShare { name, client, key, participant, roster },
                ),
                other => Err((Fault::OutOfOrder(step), other)),
            },
            _ => Err((Fault::UnexpectedOutcome, phase)),
        },
        Step::TriggerRun => match event {
            Event::Failed(f) => Err((f, phase)),
            Event::Acknowledged => match phase {
                Phase::SubmittedKeyShare { name, client, key, participant, roster } => Ok(
                    Phase::TriggeredRun { name, client, key, participant, roster },
                ),
                other => Err((Fault::OutOfOrder(step), other)),
            },
            _ => Err((Fault::UnexpectedOutcome, phase)),
        },
        Step::DownloadOutput => match event {
            Event::Failed(f) => Err((f, phase)),
            Event::RunPending => Err((Fault::StillRunning, phase)),
            Event::OutputReady { output, outputs, own } => match phase {
                Phase::TriggeredRun { name, client, key, participant, roster } => {
                    let shares = ShareMatrix::seeded(outputs, roster.len(), participant, &own);
                    Ok(
                        Phase::DownloadedOutput {
                            name,
                            client,
                            key,
                            participant,
                            roster,
                            output,
                            shares,
                        },
                    )
                },
                other => Err((Fault::OutOfOrder(step), other)),
            },
            _ => Err((Fault::UnexpectedOutcome, phase)),
        },
        Step::Decrypt => match event {
            Event::Failed(f) => Err((f, phase)),
            Event::Plaintext(plaintext) => {
                let complete = match &phase {
                    Phase::DownloadedOutput { shares, .. } => shares.next_missing().is_none(),
                    _ => false,
                };
                if !complete {
                    return Err((Fault::IncompleteShares, phase));
                }
                match phase {
                    Phase::DownloadedOutput { roster, client, .. } => Ok(
                        Phase::Decrypted { roster, client, plaintext },
                    ),
                    other => Err((Fault::OutOfOrder(step), other)),
                }
            },
            _ => Err((Fault::UnexpectedOutcome, phase)),
        },
        Step::Game(_) | Step::Status => match event {
            Event::Failed(f) => Err((f, phase)),
            Event::Acknowledged => Ok(phase),
            _ => Err((Fault::UnexpectedOutcome, phase)),
        },
    }
}


/// `next` follows `prev` by some successful step.
pub open spec fn succeeds<C, K, O>(prev: Phase<C, K, O>, next: Phase<C, K, O>) -> bool {
    exists|step: Step, event: Event<K, O>|
        prev.fault_of(step, event) is None && #[trigger] prev.leads_to(step, event, next)
}

/// A successful step keeps the phase where it is or moves it exactly one
/// place forward in the order Init, Setup, ConcludedRegistration,
/// SubmittedKeyShare, TriggeredRun, DownloadedOutput, Decrypted.
pub proof fn lemma_step_keeps_order<C, K, O>(
    phase: Phase<C, K, O>,
    step: Step,
    event: Event<K, O>,
    next: Phase<C, K, O>,
)
    requires
        phase.fault_of(step, event) is None,
        phase.leads_to(step, event, next),
    ensures
        next.rank() == phase.rank() || next.rank() == phase.rank() + 1,
{
}

/// Along any run of successful steps the phases follow the protocol order:
/// each phase is the previous one or the one right after it, so no phase is
/// skipped and none comes back.
pub proof fn lemma_successful_runs_follow_order<C, K, O>(phases: Seq<Phase<C, K, O>>)
    requires
        forall|i: int| 0 <= i < phases.len() - 1 ==> succeeds(phases[i], #[trigger] phases[i + 1]),
    ensures
        forall|i: int|
            0 <= i < phases.len() - 1 ==> #[trigger] phases[i + 1].rank() == phases[i].rank()
                || phases[i + 1].rank() == phases[i].rank() + 1,
        forall|i: int, j: int|
            0 <= i <= j < phases.len() ==> #[trigger] phases[i].rank() <= #[trigger] phases[j].rank()
                <= phases[i].rank() + (j - i),
{
    assert forall|i: int| 0 <= i < phases.len() - 1 implies #[trigger] phases[i + 1].rank()
        == phases[i].rank() || phases[i + 1].rank() == phases[i].rank() + 1 by {
        assert(succeeds(phases[i], phases[i + 1]));
        let (step, event) = choose|step: Step, event: Event<K, O>|
            phases[i].fault_of(step, event) is None && #[trigger] phases[i].leads_to(
                step,
                event,
                phases[i + 1],
            );
        lemma_step_keeps_order(phases[i], step, event, phases[i + 1]);
    }
    assert forall|i: int, j: int| 0 <= i <= j < phases.len() implies #[trigger] phases[i].rank()
        <= #[trigger] phases[j].rank() <= phases[i].rank() + (j - i) by {
        lemma_rank_span(phases, i, j);
    }
}

proof fn lemma_rank_span<C, K, O>(phases: Seq<Phase<C, K, O>>, i: int, j: int)
    requires
        0 <= i <= j < phases.len(),
        forall|k: int|
            0 <= k < phases.len() - 1 ==> #[trigger] phases[k + 1].rank() == phases[k].rank()
                || phases[k + 1].rank() == phases[k].rank() + 1,
    ensures
        phases[i].rank() <= phases[j].rank() <= phases[i].rank() + (j - i),
    decreases j - i,
{
    if i < j {
        lemma_rank_span(phases, i, j - 1);
        assert(phases[(j - 1) + 1].rank() == phases[j - 1].rank() || phases[(j - 1) + 1].rank()
            == phases[j - 1].rank() + 1);
    }
}

/// The decrypted phase is terminal: its own step succeeds whatever is
/// handed in and returns the phase unchanged, and every step that would
/// advance a session fails on it with a sequencing fault.
pub proof fn lemma_decrypted_is_terminal<C, K, O>(
    phase: Phase<C, K, O>,
    step: Step,
    event: Event<K, O>,
    next: Phase<C, K, O>,
)
    requires
        phase is Decrypted,
    ensures
        phase.fault_of(Step::Finish, event) is None,
        phase.leads_to(Step::Finish, event, next) ==> next == phase,
        !(step is Finish || step is Status || step is Skip) ==> phase.fault_of(step, event)
            == Some(Fault::OutOfOrder(step)),
{
}

/// Reconstruction is reached only from a complete share matrix: handed a
/// plaintext, the decrypt step succeeds exactly when the session holds its
/// evaluated output and the matrix holds all `n * m` shares, and fails with
/// `IncompleteShares` whenever one is missing.
pub proof fn lemma_decrypt_needs_every_share<C, K, O>(
    phase: Phase<C, K, O>,
    plaintext: Vec<Vec<bool>>,
)
    requires
        phase.wf(),
        phase is DownloadedOutput,
    ensures
        phase.fault_of(Step::Decrypt, Event::Plaintext(plaintext)) is None
            <==> phase.shares_complete(),
        !phase.shares_complete() ==> phase.fault_of(Step::Decrypt, Event::Plaintext(plaintext))
            == Some(Fault::IncompleteShares),
        phase matches Phase::DownloadedOutput { shares, .. } ==> (phase.shares_complete()
            <==> shares@.dom().len() == shares.n() * shares.m()),
{
    if let Phase::DownloadedOutput { shares, .. } = phase {
        shares.lemma_complete_iff_full_count();
    }
}


impl<C, K, O> Phase<C, K, O> {
    /// The step that `next` performs in this phase.
    pub open spec fn forward_step(&self) -> Step {
        match self {
            Phase::Init { .. } => Step::Register,
            Phase::Setup { .. } => Step::CheckRoster,
            Phase::ConcludedRegistration { .. } => Step::SubmitKeyShare,
            Phase::SubmittedKeyShare { .. } => Step::TriggerRun,
            Phase::TriggeredRun { .. } => Step::DownloadOutput,
            Phase::DownloadedOutput { .. } => Step::Decrypt,
            Phase::Decrypted { .. } => Step::Finish,
        }
    }

    /// The phase's display name.
    pub open spec fn spec_label(&self) -> Seq<char> {
        match self {
            Phase::Init { .. } => "Initialization"@,
            Phase::Setup { .. } => "Setup"@,
            Phase::ConcludedRegistration { .. } => "ConcludedRegistration"@,
            Phase::SubmittedKeyShare { .. } => "SubmittedSks"@,
            Phase::TriggeredRun { .. } => "Triggered Run"@,
            Phase::DownloadedOutput { .. } => "Downloaded Output"@,
            Phase::Decrypted { .. } => "Decrypted"@,
        }
    }

    /// The phase's display name.
    pub fn label(&self) -> (r: &'static str)
        ensures
            r@ == self.spec_label(),
    {
        match self {
            Phase::Init { .. } => "Initialization",
            Phase::Setup { .. } => "Setup",
            Phase::ConcludedRegistration { .. } => "ConcludedRegistration",
            Phase::SubmittedKeyShare { .. } => "SubmittedSks",
            Phase::TriggeredRun { .. } => "Triggered Run",
            Phase::DownloadedOutput { .. } => "Downloaded Output",
            Phase::Decrypted { .. } => "Decrypted",
        }
    }

    /// What the operator can enter next.
    pub fn instruction(&self) -> (r: &'static str)
        ensures
            r@ == match self {
                Phase::Setup { .. } => "Enter `next` to check whether registration has concluded"@,
                Phase::Decrypted { .. } => "Exit with `CTRL-D`"@,
                _ => "Enter `next` to continue"@,
            },
    {
        match self {
            Phase::Setup { .. } => "Enter `next` to check whether registration has concluded",
            Phase::Decrypted { .. } => "Exit with `CTRL-D`",
            _ => "Enter `next` to continue",
        }
    }

    /// The step that `next` performs in this phase.
    pub fn next_step(&self) -> (r: Step)
        ensures
            r == self.forward_step(),
            self.allows(r),
    {
        match self {
            Phase::Init { .. } => Step::Register,
            Phase::Setup { .. } => Step::CheckRoster,
            Phase::ConcludedRegistration { .. } => Step::SubmitKeyShare,
            Phase::SubmittedKeyShare { .. } => Step::TriggerRun,
            Phase::TriggeredRun { .. } => Step::DownloadOutput,
            Phase::DownloadedOutput { .. } => Step::Decrypt,
            Phase::Decrypted { .. } => Step::Finish,
        }
    }

    /// The participant's display name, until the session is decrypted.
    pub fn name(&self) -> (r: Option<&String>)
        ensures
            match self {
                Phase::Init { name, .. } | Phase::Setup { name, .. }
                | Phase::ConcludedRegistration { name, .. } | Phase::SubmittedKeyShare {
                    name,
                    ..
                } | Phase::TriggeredRun { name, .. } | Phase::DownloadedOutput { name, .. } => r
                    == Some(name),
                Phase::Decrypted { .. } => r is None,
            },
    {
        match self {
            Phase::Init { name, .. } => Some(name),
            Phase::Setup { name, .. } => Some(name),
            Phase::ConcludedRegistration { name, .. } => Some(name),
            Phase::SubmittedKeyShare { name, .. } => Some(name),
            Phase::TriggeredRun { name, .. } => Some(name),
            Phase::DownloadedOutput { name, .. } => Some(name),
            Phase::Decrypted { .. } => None,
        }
    }

    /// The coordinator client handle, held in every phase.
    pub fn client(&self) -> (r: &C)
        ensures
            match self {
                Phase::Init { client, .. } | Phase::Setup { client, .. }
                | Phase::ConcludedRegistration { client, .. } | Phase::SubmittedKeyShare {
                    client,
                    ..
                } | Phase::TriggeredRun { client, .. } | Phase::DownloadedOutput { client, .. }
                | Phase::Decrypted { client, .. } => r == client,
            },
    {
        match self {
            Phase::Init { client, .. } => client,
            Phase::Setup { client, .. } => client,
            Phase::ConcludedRegistration { client, .. } => client,
            Phase::SubmittedKeyShare { client, .. } => client,
            Phase::TriggeredRun { client, .. } => client,
            Phase::DownloadedOutput { client, .. } => client,
            Phase::Decrypted { client, .. } => client,
        }
    }

    /// The local key material and assigned participant id, from registration
    /// until the output is downloaded.
    pub fn credentials(&self) -> (r: Option<(&K, usize)>)
        ensures
            match self {
                Phase::Setup { key, participant, .. } | Phase::ConcludedRegistration {
                    key,
                    participant,
                    ..
                } | Phase::SubmittedKeyShare { key, participant, .. } | Phase::TriggeredRun {
                    key,
                    participant,
                    ..
                } | Phase::DownloadedOutput { key, participant, .. } => r == Some((key, *participant)),
                _ => r is None,
            },
    {
        match self {
            Phase::Setup { key, participant, .. } => Some((key, *participant)),
            Phase::ConcludedRegistration { key, participant, .. } => Some((key, *participant)),
            Phase::SubmittedKeyShare { key, participant, .. } => Some((key, *participant)),
            Phase::TriggeredRun { key, participant, .. } => Some((key, *participant)),
            Phase::DownloadedOutput { key, participant, .. } => Some((key, *participant)),
            _ => None,
        }
    }

    /// The finalized roster, from the point registration concludes.
    pub fn roster(&self) -> (r: Option<&Vec<String>>)
        ensures
            match self {
                Phase::ConcludedRegistration { roster, .. } | Phase::SubmittedKeyShare {
                    roster,
                    ..
                } | Phase::TriggeredRun { roster, .. } | Phase::DownloadedOutput { roster, .. }
                | Phase::Decrypted { roster, .. } => r == Some(roster),
                _ => r is None,
            },
    {
        match self {
            Phase::ConcludedRegistration { roster, .. } => Some(roster),
            Phase::SubmittedKeyShare { roster, .. } => Some(roster),
            Phase::TriggeredRun { roster, .. } => Some(roster),
            Phase::DownloadedOutput { roster, .. } => Some(roster),
            Phase::Decrypted { roster, .. } => Some(roster),
            _ => None,
        }
    }

    /// What deriving the shareable key fragment needs: the participant id
    /// and the total participant count, which is the roster's length. Only
    /// once registration has concluded.
    pub fn key_share_request(&self) -> (r: Option<(usize, usize)>)
        ensures
            match self {
                Phase::ConcludedRegistration { participant, roster, .. } => r == Some(
                    (*participant, roster@.len() as usize),
                ),
                _ => r is None,
            },
    {
        match self {
            Phase::ConcludedRegistration { participant, roster, .. } => Some(
                (*participant, roster.len()),
            ),
            _ => None,
        }
    }

    /// The evaluated output, once downloaded.
    pub fn output(&self) -> (r: Option<&O>)
        ensures
            match self {
                Phase::DownloadedOutput { output, .. } => r == Some(output),
                _ => r is None,
            },
    {
        match self {
            Phase::DownloadedOutput { output, .. } => Some(output),
            _ => None,
        }
    }

    /// The reconstructed plaintext, once decrypted.
    pub fn plaintext(&self) -> (r: Option<&Vec<Vec<bool>>>)
        ensures
            match self {
                Phase::Decrypted { plaintext, .. } => r == Some(plaintext),
                _ => r is None,
            },
    {
        match self {
            Phase::Decrypted { plaintext, .. } => Some(plaintext),
            _ => None,
        }
    }

    /// The next pair whose share must be fetched, in order of increasing
    /// output index then participant id; `None` outside `DownloadedOutput`
    /// or once every share is present.
    pub fn missing_share(&self) -> (r: Option<(usize, usize)>)
        requires
            self.wf(),
        ensures
            match self {
                Phase::DownloadedOutput { shares, .. } => {
                    &&& r is None <==> shares.is_complete()
                    &&& r matches Some(k) ==> shares.is_missing((k.0 as int, k.1 as int))
                    &&& r matches Some(k) ==> forall|o: int, p: int|
                        #![auto]
                        shares.in_domain((o, p)) && crate::share_matrix::pair_before(
                            (o, p),
                            (k.0 as int, k.1 as int),
                        ) ==> shares@.contains_key((o, p))
                },
                _ => r is None,
            },
    {
        match self {
            Phase::DownloadedOutput { shares, .. } => shares.next_missing(),
            _ => None,
        }
    }

    /// Records a fetched share for `(o, p)` in the `DownloadedOutput` phase,
    /// unless that pair already holds one. Every other phase, and every
    /// other field, is left as it was.
    pub fn record_share(&mut self, o: usize, p: usize, share: DecryptionShare) -> (r: bool)
        requires
            old(self).wf(),
        ensures
            final(self).wf(),
            final(self).rank() == old(self).rank(),
            match (*old(self), *final(self)) {
                (
                    Phase::DownloadedOutput {
                        name: n1,
                        client: c1,
                        key: k1,
                        participant: p1,
                        roster: r1,
                        output: o1,
                        shares: s1,
                    },
                    Phase::DownloadedOutput {
                        name: n2,
                        client: c2,
                        key: k2,
                        participant: p2,
                        roster: r2,
                        output: o2,
                        shares: s2,
                    },
                ) => {
                    &&& n1 == n2 && c1 == c2 && k1 == k2 && p1 == p2 && r1 == r2 && o1 == o2
                    &&& s2.wf() && s2.n() == s1.n() && s2.m() == s1.m()
                    &&& r == s1.is_missing((o as int, p as int))
                    &&& r ==> s2@ == s1@.insert((o as int, p as int), share@)
                    &&& !r ==> s2@ == s1@
                },
                _ => !r && *final(self) == *old(self),
            },
    {
        match self {
            Phase::DownloadedOutput { shares, .. } => shares.insert(o, p, share),
            _ => false,
        }
    }

    /// Per output index, the `m` shares ordered by participant id, ready for
    /// reconstruction. Fails with `OutOfOrder` outside `DownloadedOutput` and
    /// with `IncompleteShares` while a share is missing.
    pub fn share_lists(&self) -> (r: Result<Vec<Vec<DecryptionShare>>, Fault>)
        requires
            self.wf(),
        ensures
            match self {
                Phase::DownloadedOutput { shares, .. } => {
                    &&& r is Ok <==> shares.is_complete()
                    &&& r matches Err(f) ==> f == Fault::IncompleteShares
                    &&& r matches Ok(lists) ==> {
                        &&& lists@.len() == shares.n()
                        &&& forall|o: int|
                            0 <= o < shares.n() ==> (#[trigger] lists@[o])@.len() == shares.m()
                        &&& forall|o: int, p: int|
                            #![auto]
                            shares.in_domain((o, p)) ==> lists@[o]@[p]@ == shares@[(o, p)]
                    }
                },
                _ => r == Err::<Vec<Vec<DecryptionShare>>, Fault>(Fault::OutOfOrder(Step::Decrypt)),
            },
    {
        match self {
            Phase::DownloadedOutput { shares, .. } => match shares.assemble() {
                Some(lists) => Ok(lists),
                None => Err(Fault::IncompleteShares),
            },
            _ => Err(Fault::OutOfOrder(Step::Decrypt)),
        }
    }
}


} // verus!
