//! The port scanner: a state machine that walks the fixed port range in
//! ascending order, feeds each probe's outcome into a step function, and
//! stops at the first port whose handshake response carries the secret
//! token. The probes themselves (connect, write, read) are performed by the
//! driver outside this crate; every decision is made here.

use vstd::prelude::*;

use crate::text::{dec_chars, has_sub, str_has, u16_dec};

verus! {

/// The first port of the scanned range.
pub const START_PORT: u16 = 6969;

/// The last port of the scanned range, inclusive.
pub const END_PORT: u16 = 7069;

/// How long one probe waits for its connection attempt, in milliseconds.
/// The read that follows a successful connect is bounded by the peer
/// closing the connection, as the handshake request asks it to.
pub const CONNECT_TIMEOUT_MS: u64 = 100;

/// The token the companion server embeds in its handshake response to prove
/// its identity.
pub open spec fn secret_token() -> Seq<char> {
    "0xdeadbeef"@
}

/// The secret token as a string value.
pub fn secret_token_value() -> (s: &'static str)
    ensures
        s@ == secret_token(),
{
    "0xdeadbeef"
}

/// What one probe of a single port observed.
pub enum ProbeOutcome {
    /// The connection attempt failed, with the transport error's text.
    ConnectFailed { error: String },
    /// The connection opened but the handshake request could not be written.
    WriteFailed,
    /// The request was written but the response could not be read.
    ReadFailed,
    /// A complete response was read.
    Responded { body: String },
}

/// The mathematical model of a probe outcome.
pub enum ProbeModel {
    ConnectFailed { error: Seq<char> },
    WriteFailed,
    ReadFailed,
    Responded { body: Seq<char> },
}

impl View for ProbeOutcome {
    type V = ProbeModel;

    open spec fn view(&self) -> ProbeModel {
        match self {
            ProbeOutcome::ConnectFailed { error } => ProbeModel::ConnectFailed {
                error: error@,
            },
            ProbeOutcome::WriteFailed => ProbeModel::WriteFailed,
            ProbeOutcome::ReadFailed => ProbeModel::ReadFailed,
            ProbeOutcome::Responded { body } => ProbeModel::Responded { body: body@ },
        }
    }
}

/// The models of a sequence of probe outcomes.
pub open spec fn probe_models(s: Seq<ProbeOutcome>) -> Seq<ProbeModel> {
    s.map_values(|o: ProbeOutcome| o@)
}

/// A probe outcome that identifies the companion server: a response whose
/// body contains the secret token.
pub open spec fn probe_matches(o: ProbeModel) -> bool {
    o matches ProbeModel::Responded { body } && has_sub(body, secret_token())
}

/// How one outcome updates the scanner's record of the last error seen.
/// A response without the token leaves the record unchanged.
pub open spec fn probe_error(o: ProbeModel, prev: Seq<char>) -> Seq<char> {
    match o {
        ProbeModel::ConnectFailed { error } => error,
        ProbeModel::WriteFailed => "Failed to write request to server."@,
        ProbeModel::ReadFailed => "Failed to read response from server."@,
        ProbeModel::Responded { .. } => prev,
    }
}

/// The message reported when no port in the range matched.
pub open spec fn not_found_message(last_error: Seq<char>) -> Seq<char> {
    "Could not locate HTTP server on ports "@ + dec_chars(START_PORT as nat) + "-"@ + dec_chars(
        END_PORT as nat,
    ) + ". Last error: "@ + last_error
}

/// The scanner's state between probes.
pub enum ScanState {
    /// `port` is the next port to probe; `last_error` is the most recent
    /// per-port failure, empty before the first failure.
    Scanning { port: u16, last_error: String },
    /// A matching server was found on `port`.
    Found { port: u16 },
    /// The whole range was probed without a match.
    Failed { message: String },
}

/// The mathematical model of a scanner state.
pub enum ScanModel {
    Scanning { port: u16, last_error: Seq<char> },
    Found { port: u16 },
    Failed { message: Seq<char> },
}

impl View for ScanState {
    type V = ScanModel;

    open spec fn view(&self) -> ScanModel {
        match self {
            ScanState::Scanning { port, last_error } => ScanModel::Scanning {
                port: *port,
                last_error: last_error@,
            },
            ScanState::Found { port } => ScanModel::Found { port: *port },
            ScanState::Failed { message } => ScanModel::Failed { message: message@ },
        }
    }
}

/// Every port the scanner holds stays inside the fixed range.
pub open spec fn scan_wf(m: ScanModel) -> bool {
    match m {
        ScanModel::Scanning { port, .. } => START_PORT <= port <= END_PORT,
        ScanModel::Found { port } => START_PORT <= port <= END_PORT,
        ScanModel::Failed { .. } => true,
    }
}

/// One step of the scan: how the state advances on one probe's outcome.
pub open spec fn scan_model_step(m: ScanModel, o: ProbeModel) -> ScanModel
    recommends
        m is Scanning,
{
    match m {
        ScanModel::Scanning { port, last_error } => {
            if probe_matches(o) {
                ScanModel::Found { port }
            } else {
                let err = probe_error(o, last_error);
                if port < END_PORT {
                    ScanModel::Scanning { port: (port + 1) as u16, last_error: err }
                } else {
                    ScanModel::Failed { message: not_found_message(err) }
                }
            }
        },
        _ => m,
    }
}

/// The scan run out over a sequence of probe outcomes, one per port probed,
/// stopping early when a terminal state is reached.
pub open spec fn scan_model_run(m: ScanModel, os: Seq<ProbeModel>) -> ScanModel
    decreases os.len(),
{
    if os.len() == 0 || !(m is Scanning) {
        m
    } else {
        scan_model_run(scan_model_step(m, os[0]), os.drop_first())
    }
}

/// The state the scan begins in.
pub open spec fn scan_init() -> ScanModel {
    ScanModel::Scanning { port: START_PORT, last_error: Seq::<char>::empty() }
}

/// Starts a scan at the first port of the range, with no error recorded.
pub fn scan_start() -> (r: ScanState)
    ensures
        r@ == scan_init(),
        scan_wf(r@),
{
    ScanState::Scanning { port: START_PORT, last_error: String::new() }
}

/// The port the scanner probes next: defined exactly while scanning, and
/// always inside the fixed range.
pub fn scan_probe_port(state: &ScanState) -> (r: Option<u16>)
    requires
        scan_wf(state@),
    ensures
        r is Some <==> state@ is Scanning,
        r matches Some(p) ==> p == state@->Scanning_port && START_PORT <= p <= END_PORT,
{
    match state {
        ScanState::Scanning { port, .. } => Some(*port),
        _ => None,
    }
}

/// Reads off a finished scan: the discovered port, or the failure message.
pub fn scan_result(state: ScanState) -> (r: Result<u16, String>)
    requires
        !(state@ is Scanning),
    ensures
        state@ matches ScanModel::Found { port } ==> (r matches Ok(p) && p == port),
        state@ matches ScanModel::Failed { message } ==> (r matches Err(e) && e@ == message),
{
    match state {
        ScanState::Found { port } => Ok(port),
        ScanState::Failed { message } => Err(message),
        // Excluded by the precondition; the arm only completes the match.
        ScanState::Scanning { last_error, .. } => Err(last_error),
    }
}

/// Builds the failure message for a scan that exhausted the range.
pub fn scan_failure_message(last_error: &str) -> (m: String)
    ensures
        m@ == not_found_message(last_error@),
{
    let mut m = String::from_str("Could not locate HTTP server on ports ");
    let lo = u16_dec(START_PORT);
    m.append(lo.as_str());
    m.append("-");
    let hi = u16_dec(END_PORT);
    m.append(hi.as_str());
    m.append(". Last error: ");
    m.append(last_error);
    m
}

/// Advances the scan by one probe: a response carrying the secret token
/// accepts the current port; any failure is recorded and the scan moves on;
/// past the end of the range the scan fails with a message naming the range
/// and the last error.
pub fn scan_step(state: ScanState, outcome: ProbeOutcome) -> (r: ScanState)
    requires
        state is Scanning,
        scan_wf(state@),
    ensures
        r@ == scan_model_step(state@, outcome@),
        scan_wf(r@),
{
    match state {
        ScanState::Scanning { port, last_error } => {
            let matched = match &outcome {
                ProbeOutcome::Responded { body } => str_has(body.as_str(), secret_token_value()),
                _ => false,
            };
            if matched {
                ScanState::Found { port }
            } else {
                let err: String = match outcome {
                    ProbeOutcome::ConnectFailed { error } => error,
                    ProbeOutcome::WriteFailed => String::from_str(
                        "Failed to write request to server.",
                    ),
                    ProbeOutcome::ReadFailed => String::from_str(
                        "Failed to read response from server.",
                    ),
                    ProbeOutcome::Responded { .. } => last_error,
                };
                if port < END_PORT {
                    ScanState::Scanning { port: port + 1, last_error: err }
                } else {
                    ScanState::Failed { message: scan_failure_message(err.as_str()) }
                }
            }
        },
        other => other,
    }
}

/// Runs a whole scan over a pre-collected sequence of probe outcomes. The
/// outcomes are consumed in order, one per port, until the scan accepts a
/// port or the range is exhausted.
pub fn scan_outcomes(outcomes: Vec<ProbeOutcome>) -> (r: ScanState)
    ensures
        r@ == scan_model_run(scan_init(), probe_models(outcomes@)),
        scan_wf(r@),
{
    let ghost all = probe_models(outcomes@);
    let mut st = scan_start();
    let mut rest = outcomes;
    loop
        invariant
            scan_wf(st@),
            scan_model_run(scan_init(), all) == scan_model_run(st@, probe_models(rest@)),
        ensures
            scan_wf(st@),
            scan_model_run(scan_init(), all) == scan_model_run(st@, probe_models(rest@)),
            rest@.len() == 0 || !(st@ is Scanning),
        decreases rest@.len(),
    {
        if rest.len() == 0 {
            break;
        }
        let scanning = match &st {
            ScanState::Scanning { .. } => true,
            _ => false,
        };
        if !scanning {
            break;
        }
        let ghost prev = rest@;
        let o = rest.remove(0);
        proof {
            assert(probe_models(rest@) =~= probe_models(prev).drop_first());
            assert(o@ == probe_models(prev)[0]);
        }
        st = scan_step(st, o);
    }
    proof {
        assert(scan_model_run(st@, probe_models(rest@)) == st@);
    }
    st
}

/// One step keeps the scanner inside the fixed port range.
pub proof fn lemma_step_preserves_wf(m: ScanModel, o: ProbeModel)
    requires
        scan_wf(m),
    ensures
        scan_wf(scan_model_step(m, o)),
{
}

/// The scanner never leaves the fixed port range: every state a run passes
/// through is well-formed, so every port it asks to have probed lies in
/// [START_PORT, END_PORT] — ports outside the range are never contacted.
pub proof fn lemma_run_preserves_wf(m: ScanModel, os: Seq<ProbeModel>)
    requires
        scan_wf(m),
    ensures
        scan_wf(scan_model_run(m, os)),
    decreases os.len(),
{
    if os.len() > 0 && m is Scanning {
        lemma_step_preserves_wf(m, os[0]);
        lemma_run_preserves_wf(scan_model_step(m, os[0]), os.drop_first());
    }
}

/// The last error recorded after a run of probe outcomes none of which
/// matched.
pub open spec fn fold_error(prev: Seq<char>, os: Seq<ProbeModel>) -> Seq<char>
    decreases os.len(),
{
    if os.len() == 0 {
        prev
    } else {
        fold_error(probe_error(os[0], prev), os.drop_first())
    }
}

/// First-match wins: if the scan starts at `port` with one outcome supplied
/// for each remaining port, and position `k` holds the first matching
/// outcome, the scan finds exactly the port `k` places after the current
/// one — the lowest-numbered matching port.
pub proof fn lemma_scan_first_match(m: ScanModel, os: Seq<ProbeModel>, k: int)
    requires
        m is Scanning,
        scan_wf(m),
        os.len() == END_PORT - m->Scanning_port + 1,
        0 <= k < os.len(),
        probe_matches(os[k]),
        forall|j: int| 0 <= j < k ==> !probe_matches(os[j]),
    ensures
        scan_model_run(m, os) == (ScanModel::Found { port: (m->Scanning_port + k) as u16 }),
    decreases k,
{
    let port = m->Scanning_port;
    let err = probe_error(os[0], m->Scanning_last_error);
    if k == 0 {
        assert(scan_model_step(m, os[0]) == (ScanModel::Found { port }));
    } else {
        assert(!probe_matches(os[0]));
        assert(port < END_PORT);
        let m2 = ScanModel::Scanning { port: (port + 1) as u16, last_error: err };
        assert(scan_model_step(m, os[0]) == m2);
        assert(forall|j: int| 0 <= j < k - 1 ==> os.drop_first()[j] == os[j + 1]);
        lemma_scan_first_match(m2, os.drop_first(), k - 1);
    }
}

/// If no outcome in the run matches, the scan fails, and its message is the
/// not-found message built from the last error recorded over the run.
pub proof fn lemma_scan_no_match_fails(m: ScanModel, os: Seq<ProbeModel>)
    requires
        m is Scanning,
        scan_wf(m),
        os.len() == END_PORT - m->Scanning_port + 1,
        forall|j: int| 0 <= j < os.len() ==> !probe_matches(os[j]),
    ensures
        scan_model_run(m, os) == (ScanModel::Failed {
            message: not_found_message(fold_error(m->Scanning_last_error, os)),
        }),
    decreases os.len(),
{
    let port = m->Scanning_port;
    let err = probe_error(os[0], m->Scanning_last_error);
    if os.len() == 1 {
        assert(port == END_PORT);
        assert(scan_model_step(m, os[0]) == (ScanModel::Failed {
            message: not_found_message(err),
        }));
        assert(os.drop_first().len() == 0);
        assert(fold_error(m->Scanning_last_error, os) == fold_error(err, os.drop_first()));
    } else {
        assert(port < END_PORT);
        let m2 = ScanModel::Scanning { port: (port + 1) as u16, last_error: err };
        assert(scan_model_step(m, os[0]) == m2);
        assert(forall|j: int| 0 <= j < os.len() - 1 ==> os.drop_first()[j] == os[j + 1]);
        lemma_scan_no_match_fails(m2, os.drop_first());
    }
}

/// The failure message of an exhausted scan names both bounds of the
/// scanned range.
pub proof fn lemma_failure_names_range(last_error: Seq<char>)
    ensures
        has_sub(not_found_message(last_error), dec_chars(START_PORT as nat)),
        has_sub(not_found_message(last_error), dec_chars(END_PORT as nat)),
{
    let p1 = "Could not locate HTTP server on ports "@;
    let lo = dec_chars(START_PORT as nat);
    let dash = "-"@;
    let hi = dec_chars(END_PORT as nat);
    let p2 = ". Last error: "@;
    let msg = not_found_message(last_error);
    assert(msg =~= p1 + lo + (dash + hi + p2 + last_error));
    crate::text::lemma_contains_middle(p1, lo, dash + hi + p2 + last_error);
    assert(msg =~= (p1 + lo + dash) + hi + (p2 + last_error));
    crate::text::lemma_contains_middle(p1 + lo + dash, hi, p2 + last_error);
}

} // verus!
