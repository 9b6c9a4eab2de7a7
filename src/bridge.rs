//! The decisions of the CLI bridge: how the child is launched, and what its
//! drain loop emits for each line of output.
use vstd::prelude::*;

use crate::auth_token::{extract_token, token_of};
use crate::text::{chars_of, contains_seq, value_or, find_seq, find_seq_from, occurs_at};

verus! {

/// Program launched when no override is given.
pub const DEFAULT_CLI_PROGRAM: &'static str = "terminai";

/// Web-remote port used when no override is given.
pub const DEFAULT_PORT: &'static str = "41242";

/// Event carrying one raw line of the child's output.
pub const CLI_OUTPUT_EVENT: &'static str = "cli-output";

/// Event announcing that the child's web-remote server is reachable.
pub const CLI_READY_EVENT: &'static str = "cli-ready";

/// The arguments the CLI is launched with: web-remote mode on `port`, with
/// stream output.
pub open spec fn web_remote_args_of(port: Seq<char>) -> Seq<Seq<char>> {
    seq!["--web-remote"@, "--web-remote-port"@, port, "--output-format"@, "stream-json"@]
}

/// The program to launch: the override where one is set, else the default.
pub fn cli_program(override_path: Option<String>) -> (r: String)
    ensures
        r@ == match override_path {
            Some(p) => p@,
            None => DEFAULT_CLI_PROGRAM@,
        },
{
    value_or(override_path, DEFAULT_CLI_PROGRAM)
}

/// The web-remote port: the override where one is set, else the default.
pub fn cli_port(override_port: Option<String>) -> (r: String)
    ensures
        r@ == match override_port {
            Some(p) => p@,
            None => DEFAULT_PORT@,
        },
{
    value_or(override_port, DEFAULT_PORT)
}

/// The arguments the CLI is launched with.
pub fn web_remote_args(port: &str) -> (r: Vec<String>)
    ensures
        r@.map_values(|a: String| a@) == web_remote_args_of(port@),
{
    let r = vec![
        String::from_str("--web-remote"),
        String::from_str("--web-remote-port"),
        String::from_str(port),
        String::from_str("--output-format"),
        String::from_str("stream-json"),
    ];
    assert(r@.map_values(|a: String| a@) =~= web_remote_args_of(port@));
    r
}

/// What `send` writes to the child's input: the message and a line break.
pub fn send_line(message: &str) -> (r: String)
    ensures
        r@ == message@.push('\n'),
{
    let mut r = String::from_str(message);
    r.push('\n');
    r
}

/// What the `cli-ready` event carries.
#[derive(Debug, Clone, PartialEq, Eq)]
pub struct CliReadyEvent {
    pub url: String,
    pub token: String,
    pub workspace: String,
}

/// One event of the drain loop, in the abstract.
pub enum Emission {
    Output(Seq<char>),
    Ready { url: Seq<char>, token: Seq<char>, workspace: Seq<char> },
}

/// One event of the drain loop.
#[derive(Debug, Clone, PartialEq, Eq)]
pub enum BridgeEvent {
    /// A line of the child's output, as read.
    Output { line: String },
    /// The readiness announcement.
    Ready { event: CliReadyEvent },
}

impl View for BridgeEvent {
    type V = Emission;

    open spec fn view(&self) -> Emission {
        match self {
            BridgeEvent::Output { line } => Emission::Output(line@),
            BridgeEvent::Ready { event } => Emission::Ready {
                url: event.url@,
                token: event.token@,
                workspace: event.workspace@,
            },
        }
    }
}

/// The drain loop's state, in the abstract.
pub struct DrainState {
    pub url: Seq<char>,
    pub workspace: Seq<char>,
    pub ready: bool,
    pub stopped: bool,
}

/// The base URL of the child's web-remote server on `port`.
pub open spec fn ready_url_of(port: Seq<char>) -> Seq<char> {
    "http://127.0.0.1:"@ + port
}

/// A line that suggests the child's server has come up.
pub open spec fn is_trigger(line: Seq<char>) -> bool {
    contains_seq(line, "Token"@) || contains_seq(line, "listening"@)
}

/// Whether a line makes the loop look for the token: readiness not yet
/// announced, and the line is a trigger.
pub open spec fn wants_token_spec(s: DrainState, line: Seq<char>) -> bool {
    !s.stopped && !s.ready && is_trigger(line)
}

/// What one line does to the loop: the line is emitted, and if it is a
/// trigger before readiness and the auth file's text names a token, the
/// readiness event follows it. Once stopped, nothing is emitted.
pub open spec fn step(s: DrainState, line: Seq<char>, auth: Option<Seq<char>>) -> (DrainState, Seq<Emission>) {
    if s.stopped {
        (s, Seq::empty())
    } else if wants_token_spec(s, line) && auth is Some && token_of(auth->0) is Some {
        (
            DrainState { ready: true, ..s },
            seq![
                Emission::Output(line),
                Emission::Ready { url: s.url, token: token_of(auth->0)->0, workspace: s.workspace },
            ],
        )
    } else {
        (s, seq![Emission::Output(line)])
    }
}

/// The loop's state and everything it emits after the lines `lines`, the
/// auth file's text as read at each of them being `auths`.
pub open spec fn run(s: DrainState, lines: Seq<Seq<char>>, auths: Seq<Option<Seq<char>>>) -> (DrainState, Seq<Emission>)
    decreases lines.len(),
{
    if lines.len() == 0 || auths.len() != lines.len() {
        (s, Seq::empty())
    } else {
        let (mid, es) = run(s, lines.drop_last(), auths.drop_last());
        let (fin, more) = step(mid, lines.last(), auths.last());
        (fin, es + more)
    }
}

/// The lines among the emissions, in order.
pub open spec fn output_lines(es: Seq<Emission>) -> Seq<Seq<char>>
    decreases es.len(),
{
    if es.len() == 0 {
        Seq::empty()
    } else {
        let rest = output_lines(es.drop_last());
        match es.last() {
            Emission::Output(l) => rest.push(l),
            Emission::Ready { .. } => rest,
        }
    }
}

/// How many readiness announcements the emissions hold.
pub open spec fn ready_count(es: Seq<Emission>) -> nat
    decreases es.len(),
{
    if es.len() == 0 {
        0
    } else {
        ready_count(es.drop_last()) + match es.last() {
            Emission::Output(_) => 0nat,
            Emission::Ready { .. } => 1nat,
        }
    }
}

proof fn lemma_concat_counts(a: Seq<Emission>, b: Seq<Emission>)
    ensures
        output_lines(a + b) == output_lines(a) + output_lines(b),
        ready_count(a + b) == ready_count(a) + ready_count(b),
    decreases b.len(),
{
    if b.len() == 0 {
        assert(a + b =~= a);
        assert(output_lines(a) + output_lines(b) =~= output_lines(a));
    } else {
        lemma_concat_counts(a, b.drop_last());
        assert((a + b).drop_last() =~= a + b.drop_last());
        assert((a + b).last() == b.last());
        if let Emission::Output(l) = b.last() {
            assert(output_lines(a) + output_lines(b.drop_last()).push(l) =~= (output_lines(a)
                + output_lines(b.drop_last())).push(l));
        }
    }
}

proof fn lemma_step_counts(s: DrainState, line: Seq<char>, auth: Option<Seq<char>>)
    requires
        !s.stopped,
    ensures
        output_lines(step(s, line, auth).1) == seq![line],
        ready_count(step(s, line, auth).1) + (if s.ready { 1nat } else { 0nat }) == (if step(s, line, auth).0.ready { 1nat } else { 0nat }),
        step(s, line, auth).0.stopped == s.stopped,
        step(s, line, auth).0.ready == (s.ready || step(s, line, auth).1.len() == 2),
{
    let es = step(s, line, auth).1;
    let one = seq![Emission::Output(line)];
    assert(one.drop_last() =~= Seq::<Emission>::empty());
    assert(output_lines(Seq::<Emission>::empty()) == Seq::<Seq<char>>::empty());
    assert(ready_count(Seq::<Emission>::empty()) == 0);
    assert(output_lines(one) == Seq::<Seq<char>>::empty().push(line));
    assert(output_lines(one) =~= seq![line]);
    assert(ready_count(one) == 0);
    if es.len() == 2 {
        assert(es.drop_last() =~= one);
        assert(output_lines(es) == output_lines(one));
        assert(ready_count(es) == 1);
    } else {
        assert(es =~= one);
    }
}

/// Until the loop is stopped, every line is emitted exactly once and in the
/// order read, and readiness is announced at most once over the whole run
/// (never again once it was announced before).
pub proof fn lemma_run_emits_each_line_once(s: DrainState, lines: Seq<Seq<char>>, auths: Seq<Option<Seq<char>>>)
    requires
        !s.stopped,
        auths.len() == lines.len(),
    ensures
        output_lines(run(s, lines, auths).1) == lines,
        ready_count(run(s, lines, auths).1) <= 1,
        s.ready ==> ready_count(run(s, lines, auths).1) == 0,
        !run(s, lines, auths).0.stopped,
        ready_count(run(s, lines, auths).1) + (if s.ready { 1nat } else { 0nat }) == (if run(s, lines, auths).0.ready { 1nat } else { 0nat }),
    decreases lines.len(),
{
    if lines.len() > 0 {
        lemma_run_emits_each_line_once(s, lines.drop_last(), auths.drop_last());
        let (mid, es) = run(s, lines.drop_last(), auths.drop_last());
        lemma_step_counts(mid, lines.last(), auths.last());
        lemma_concat_counts(es, step(mid, lines.last(), auths.last()).1);
        assert(lines.drop_last().push(lines.last()) =~= lines);
    } else {
        assert(output_lines(Seq::<Emission>::empty()) =~= lines);
    }
}

/// Each readiness announcement comes right after the output of a trigger line.
pub open spec fn ready_follows_trigger(es: Seq<Emission>) -> bool {
    forall|i: int|
        #![trigger es[i]]
        0 <= i < es.len() && es[i] is Ready ==> i > 0 && (es[i - 1] matches Emission::Output(l)
            && is_trigger(l))
}

/// Over any run, the readiness event is emitted only right after the output
/// event of the trigger line that caused it.
pub proof fn lemma_ready_follows_its_line(s: DrainState, lines: Seq<Seq<char>>, auths: Seq<Option<Seq<char>>>)
    ensures
        ready_follows_trigger(run(s, lines, auths).1),
    decreases lines.len(),
{
    if lines.len() > 0 && auths.len() == lines.len() {
        lemma_ready_follows_its_line(s, lines.drop_last(), auths.drop_last());
        let (mid, es) = run(s, lines.drop_last(), auths.drop_last());
        let more = step(mid, lines.last(), auths.last()).1;
        let all = es + more;
        assert forall|i: int| 0 <= i < all.len() && (#[trigger] all[i]) is Ready implies i > 0 && (
        all[i - 1] matches Emission::Output(l) && is_trigger(l)) by {
            if i < es.len() {
                assert(all[i] == es[i]);
                assert(all[i - 1] == es[i - 1]);
            } else {
                assert(all[i] == more[i - es.len()]);
                assert(i - es.len() == 1);
                assert(all[i - 1] == more[0]);
            }
        }
    }
}

/// A stopped loop emits nothing, whatever lines still arrive.
pub proof fn lemma_stopped_run_is_silent(s: DrainState, lines: Seq<Seq<char>>, auths: Seq<Option<Seq<char>>>)
    requires
        s.stopped,
    ensures
        run(s, lines, auths).1.len() == 0,
        run(s, lines, auths).0 == s,
    decreases lines.len(),
{
    if lines.len() > 0 && auths.len() == lines.len() {
        lemma_stopped_run_is_silent(s, lines.drop_last(), auths.drop_last());
    }
}

/// The drain loop of one CLI bridge: it turns lines of output into events
/// and announces readiness at most once.
pub struct BridgeDrain {
    url: String,
    workspace: String,
    ready: bool,
    stopped: bool,
}

impl View for BridgeDrain {
    type V = DrainState;

    closed spec fn view(&self) -> DrainState {
        DrainState { url: self.url@, workspace: self.workspace@, ready: self.ready, stopped: self.stopped }
    }
}

fn contains_text(s: &Vec<char>, pat: &str) -> (r: bool)
    requires
        pat@.len() > 0,
    ensures
        r == contains_seq(s@, pat@),
{
    let p = chars_of(pat);
    match find_seq(s, &p, 0) {
        Some(i) => {
            proof {
                crate::text::lemma_found_occurs(s@, p@, 0);
                assert(find_seq_from(s@, p@, 0) == Some(i as int));
                assert(occurs_at(s@, p@, i as int));
            }
            true
        },
        None => {
            proof {
                if contains_seq(s@, p@) {
                    let k = choose|k: int| occurs_at(s@, p@, k);
                    crate::text::lemma_occurs_found(s@, p@, 0, k);
                }
            }
            false
        },
    }
}

/// Whether `line` holds `Token` or `listening`.
pub fn is_trigger_line(line: &str) -> (r: bool)
    ensures
        r == is_trigger(line@),
{
    let cs = chars_of(line);
    proof {
        reveal_strlit("Token");
        reveal_strlit("listening");
    }
    contains_text(&cs, "Token") || contains_text(&cs, "listening")
}

/// The base URL of the child's web-remote server on `port`.
pub fn ready_url(port: &str) -> (r: String)
    ensures
        r@ == ready_url_of(port@),
{
    let mut r = String::from_str("http://127.0.0.1:");
    r.append(port);
    r
}

impl BridgeDrain {
    /// A drain loop for a child serving on `port` in `workspace`.
    pub fn new(port: &str, workspace: &str) -> (r: BridgeDrain)
        ensures
            r@ == (DrainState { url: ready_url_of(port@), workspace: workspace@, ready: false, stopped: false }),
    {
        BridgeDrain { url: ready_url(port), workspace: String::from_str(workspace), ready: false, stopped: false }
    }

    /// Whether readiness has been announced.
    pub fn is_ready(&self) -> (r: bool)
        ensures
            r == self@.ready,
    {
        self.ready
    }

    /// Whether the loop has seen the running flag cleared.
    pub fn is_stopped(&self) -> (r: bool)
        ensures
            r == self@.stopped,
    {
        self.stopped
    }

    /// Takes in the running flag, read before each line; returns whether the
    /// loop goes on. Once the flag was seen cleared the loop stays stopped.
    pub fn observe_running(&mut self, running: bool) -> (r: bool)
        ensures
            final(self)@ == (DrainState { stopped: old(self)@.stopped || !running, ..old(self)@ }),
            r == !final(self)@.stopped,
    {
        if !running {
            self.stopped = true;
        }
        !self.stopped
    }

    /// Whether the auth file must be read for this line.
    pub fn wants_token(&self, line: &str) -> (r: bool)
        ensures
            r == wants_token_spec(self@, line@),
    {
        !self.stopped && !self.ready && is_trigger_line(line)
    }

    /// The events for one line of output. `auth` is the auth file's text
    /// where it was read for this line, and `None` where it was not read or
    /// could not be.
    pub fn on_line(&mut self, line: &str, auth: Option<&str>) -> (r: Vec<BridgeEvent>)
        ensures
            (final(self)@, r@.map_values(|e: BridgeEvent| e@)) == step(
                old(self)@,
                line@,
                match auth {
                    Some(a) => Some(a@),
                    None => None,
                },
            ),
    {
        let ghost auth_view = match auth {
            Some(a) => Some(a@),
            None => None,
        };
        let mut r: Vec<BridgeEvent> = Vec::new();
        if self.stopped {
            assert(r@.map_values(|e: BridgeEvent| e@) =~= Seq::empty());
            return r;
        }
        let wants = self.wants_token(line);
        r.push(BridgeEvent::Output { line: String::from_str(line) });
        if wants {
            if let Some(a) = auth {
                if let Ok(token) = extract_token(a) {
                    let event = CliReadyEvent {
                        url: self.url.clone(),
                        token,
                        workspace: self.workspace.clone(),
                    };
                    r.push(BridgeEvent::Ready { event });
                    self.ready = true;
                    assert(r@.map_values(|e: BridgeEvent| e@) =~= step(old(self)@, line@, auth_view).1);
                    return r;
                }
            }
        }
        assert(r@.map_values(|e: BridgeEvent| e@) =~= step(old(self)@, line@, auth_view).1);
        r
    }
}

} // verus!
