use vstd::prelude::*;

use crate::event::{Event, Key};
use crate::msg::Msg;
use crate::page::{DisplayState, Page};
use crate::queue::MsgQueue;

verus! {

/// Set-once container for the lazily constructed drawable surface. The
/// drawable itself lives with the host; the loop tracks only whether it has
/// been constructed, and `init_once` is the single place that sets the flag,
/// which makes the "already initialized" condition an explicit branch.
#[derive(Debug, Clone, Copy, PartialEq, Eq, Structural)]
pub struct SurfaceSlot {
    pub initialized: bool,
}

impl SurfaceSlot {
    /// An empty slot: no surface has been constructed yet.
    pub fn new() -> (r: Self)
        ensures
            !r.initialized,
    {
        SurfaceSlot { initialized: false }
    }

    /// Record the surface as constructed. Returns whether this call is the
    /// one that constructed it; once set, the slot never goes back.
    pub fn init_once(&mut self) -> (fresh: bool)
        ensures
            final(self).initialized,
            fresh == !old(self).initialized,
    {
        let fresh = !self.initialized;
        self.initialized = true;
        fresh
    }
}

/// The state owned exclusively by the dispatch loop: the presentation state,
/// the surface slot, and whether the one-time daemon start sequence has run.
#[derive(Debug, Clone, Copy, PartialEq, Eq, Structural)]
pub struct LoopState {
    pub display: DisplayState,
    pub surface: SurfaceSlot,
    pub daemon_started: bool,
}

/// The state the loop starts from: greeting page, no surface, daemon start
/// sequence not yet run.
pub open spec fn initial_state_spec() -> LoopState {
    LoopState {
        display: DisplayState { page: Page::Greet },
        surface: SurfaceSlot { initialized: false },
        daemon_started: false,
    }
}

/// The state the loop starts from.
pub fn initial_state() -> (r: LoopState)
    ensures
        r == initial_state_spec(),
{
    LoopState { display: DisplayState::new(), surface: SurfaceSlot::new(), daemon_started: false }
}

/// What handling one message made the loop do, beyond updating its state.
/// Every field mirrors one observable side effect of the loop body.
#[derive(Debug, Clone, Copy, PartialEq, Eq, Structural)]
pub struct StepEffects {
    /// The loop is done; the host must issue the application-shutdown call.
    pub quit: bool,
    /// The drawable surface was constructed while handling this message.
    pub surface_constructed: bool,
    /// An error was logged: `Init` arrived while the surface already existed.
    pub duplicate_init_logged: bool,
    /// The one-time daemon start sequence runs now: activate the network,
    /// then spawn the RPC server, the keepalive ticker, the remote-shell
    /// server and the signal watcher.
    pub daemon_start: bool,
    /// A render pass runs now: clear, draw the page, flush.
    pub rendered: bool,
    /// A warning was logged: a render was due but the surface is absent,
    /// so the render pass was skipped.
    pub render_skipped_logged: bool,
    /// The network-keepalive collaborator was invoked.
    pub keepalive_invoked: bool,
    /// An error was logged: the keepalive collaborator failed. The loop
    /// continues either way.
    pub keepalive_failure_logged: bool,
    /// The status-query collaborator is invoked and its report printed to
    /// standard output.
    pub status_print: bool,
}

/// Effects of a message that changes nothing.
pub open spec fn no_effects() -> StepEffects {
    StepEffects {
        quit: false,
        surface_constructed: false,
        duplicate_init_logged: false,
        daemon_start: false,
        rendered: false,
        render_skipped_logged: false,
        keepalive_invoked: false,
        keepalive_failure_logged: false,
        status_print: false,
    }
}

/// The page after one hardware event: navigation keys move through the
/// closed page set, everything else stays put.
pub open spec fn next_page_spec(p: Page, ev: Event) -> Page {
    match ev {
        Event::KeyDown { key } => {
            if key.navigates_prev() {
                p.prev_spec()
            } else if key.navigates_next() {
                p.next_spec()
            } else {
                p
            }
        },
        _ => p,
    }
}

/// Whether a hardware event asks for a render pass afterwards.
pub open spec fn event_wants_render(ev: Event) -> bool {
    match ev {
        Event::Init | Event::Show | Event::Repaint => true,
        Event::KeyDown { key } => key.navigates_prev() || key.navigates_next(),
        Event::Exit | Event::Other => false,
    }
}

/// Whether a message asks for a render pass afterwards. Only hardware events
/// do; ticks and RPC commands never touch the presentation.
pub open spec fn msg_wants_render(m: Msg) -> bool {
    match m {
        Msg::InkviewEvent(ev) => event_wants_render(ev),
        _ => false,
    }
}

/// The loop state after one message: the transition table's state column.
/// `Init` fills the surface slot and marks the daemon start sequence as run;
/// navigation keys move the page; every other message leaves the state as
/// it is.
pub open spec fn next_state_spec(st: LoopState, m: Msg) -> LoopState {
    match m {
        Msg::InkviewEvent(ev) => LoopState {
            display: DisplayState { page: next_page_spec(st.display.page, ev) },
            surface: SurfaceSlot {
                initialized: st.surface.initialized || ev == Event::Init,
            },
            daemon_started: st.daemon_started || ev == Event::Init,
        },
        _ => st,
    }
}

/// The effects of one message: the transition table's effect column.
/// `keepalive_ok` is the outcome the network collaborator reports when the
/// message is a keepalive tick; it influences nothing but the failure log.
pub open spec fn step_effects_spec(st: LoopState, m: Msg, keepalive_ok: bool) -> StepEffects {
    match m {
        Msg::InkviewEvent(ev) => StepEffects {
            quit: ev == Event::Exit,
            surface_constructed: ev == Event::Init && !st.surface.initialized,
            duplicate_init_logged: ev == Event::Init && st.surface.initialized,
            daemon_start: ev == Event::Init && !st.daemon_started,
            rendered: event_wants_render(ev) && next_state_spec(st, m).surface.initialized,
            render_skipped_logged: event_wants_render(ev)
                && !next_state_spec(st, m).surface.initialized,
            keepalive_invoked: false,
            keepalive_failure_logged: false,
            status_print: false,
        },
        Msg::WifiKeepAlive => StepEffects {
            keepalive_invoked: true,
            keepalive_failure_logged: !keepalive_ok,
            ..no_effects()
        },
        Msg::PrintStatus => StepEffects { status_print: true, ..no_effects() },
        Msg::Quit => StepEffects { quit: true, ..no_effects() },
    }
}

/// Execute one state transition of the dispatch loop: exactly one message,
/// exactly one transition, and a render pass only when the message asks for
/// one and the surface exists. `keepalive_ok` reports the network
/// collaborator's outcome for a keepalive tick; a failure is logged and the
/// loop continues.
pub fn step(state: &mut LoopState, m: Msg, keepalive_ok: bool) -> (eff: StepEffects)
    ensures
        *final(state) == next_state_spec(*old(state), m),
        eff == step_effects_spec(*old(state), m, keepalive_ok),
{
    match m {
        Msg::InkviewEvent(ev) => handle_inkview_event(state, ev),
        Msg::WifiKeepAlive => {
            let mut eff = empty_effects();
            eff.keepalive_invoked = true;
            eff.keepalive_failure_logged = !keepalive_ok;
            eff
        },
        Msg::PrintStatus => {
            let mut eff = empty_effects();
            eff.status_print = true;
            eff
        },
        Msg::Quit => {
            let mut eff = empty_effects();
            eff.quit = true;
            eff
        },
    }
}

/// Handle one hardware event: the heart of the transition table. On `Init`,
/// the surface is constructed at most once (a repeat is logged, not fatal)
/// and the one-time daemon start sequence is requested; navigation keys move
/// the page; `Exit` terminates the loop. A due render pass is skipped with a
/// warning while the surface is absent — never an error.
fn handle_inkview_event(state: &mut LoopState, ev: Event) -> (eff: StepEffects)
    ensures
        *final(state) == next_state_spec(*old(state), Msg::InkviewEvent(ev)),
        eff == step_effects_spec(*old(state), Msg::InkviewEvent(ev), true),
{
    let mut eff = empty_effects();
    let mut repaint = false;

    match ev {
        Event::Init => {
            let fresh = state.surface.init_once();
            eff.surface_constructed = fresh;
            eff.duplicate_init_logged = !fresh;
            eff.daemon_start = !state.daemon_started;
            state.daemon_started = true;
            repaint = true;
        },
        Event::Show | Event::Repaint => {
            repaint = true;
        },
        Event::KeyDown { key } => {
            match key {
                Key::Prev | Key::Left => {
                    state.display.page_prev();
                    repaint = true;
                },
                Key::Next | Key::Right => {
                    state.display.page_next();
                    repaint = true;
                },
                Key::Other => {},
            }
        },
        Event::Exit => {
            eff.quit = true;
        },
        Event::Other => {},
    }

    if repaint {
        if state.surface.initialized {
            eff.rendered = true;
        } else {
            eff.render_skipped_logged = true;
        }
    }

    eff
}

/// What a whole run of the loop over a message sequence amounts to: the
/// final state and the counts of the observable side effects.
pub ghost struct RunOutcome {
    pub state: LoopState,
    /// How many messages the loop consumed before exiting.
    pub processed: int,
    /// How many render passes ran.
    pub renders: int,
    /// How many times the drawable surface was constructed.
    pub surface_constructions: int,
    /// How many times the one-time daemon start sequence ran.
    pub daemon_starts: int,
    /// Whether the loop exited on a terminal message (as opposed to the
    /// queue closing).
    pub exited_by_message: bool,
}

/// The loop, as a function: starting from `st`, consume messages in queue
/// order, one transition each, until a terminal message or the end of the
/// sequence. `keepalive_ok[k]` is the network collaborator's outcome for
/// message `k`.
pub open spec fn run_spec(st: LoopState, msgs: Seq<Msg>, keepalive_ok: Seq<bool>) -> RunOutcome
    decreases msgs.len(),
{
    if msgs.len() == 0 {
        RunOutcome {
            state: st,
            processed: 0,
            renders: 0,
            surface_constructions: 0,
            daemon_starts: 0,
            exited_by_message: false,
        }
    } else {
        let eff = step_effects_spec(st, msgs[0], keepalive_ok[0]);
        let st1 = next_state_spec(st, msgs[0]);
        if eff.quit {
            RunOutcome {
                state: st1,
                processed: 1,
                renders: if eff.rendered { 1int } else { 0int },
                surface_constructions: if eff.surface_constructed { 1int } else { 0int },
                daemon_starts: if eff.daemon_start { 1int } else { 0int },
                exited_by_message: true,
            }
        } else {
            let rest = run_spec(st1, msgs.drop_first(), keepalive_ok.drop_first());
            RunOutcome {
                state: rest.state,
                processed: 1 + rest.processed,
                renders: (if eff.rendered { 1int } else { 0int }) + rest.renders,
                surface_constructions: (if eff.surface_constructed { 1int } else { 0int })
                    + rest.surface_constructions,
                daemon_starts: (if eff.daemon_start { 1int } else { 0int }) + rest.daemon_starts,
                exited_by_message: rest.exited_by_message,
            }
        }
    }
}

/// Every count of a run is bounded by the number of messages, and the
/// surface is constructed at most once over any run — never, once the slot
/// is already filled. Likewise the daemon start sequence runs at most once.
pub proof fn lemma_run_spec_bounds(st: LoopState, msgs: Seq<Msg>, keepalive_ok: Seq<bool>)
    ensures
        0 <= run_spec(st, msgs, keepalive_ok).processed <= msgs.len(),
        0 <= run_spec(st, msgs, keepalive_ok).renders <= msgs.len(),
        run_spec(st, msgs, keepalive_ok).surface_constructions == (if !st.surface.initialized
            && run_spec(st, msgs, keepalive_ok).state.surface.initialized {
            1int
        } else {
            0int
        }),
        run_spec(st, msgs, keepalive_ok).daemon_starts == (if !st.daemon_started && run_spec(
            st,
            msgs,
            keepalive_ok,
        ).state.daemon_started {
            1int
        } else {
            0int
        }),
        st.surface.initialized ==> run_spec(st, msgs, keepalive_ok).state.surface.initialized,
        st.daemon_started ==> run_spec(st, msgs, keepalive_ok).state.daemon_started,
    decreases msgs.len(),
{
    if msgs.len() > 0 {
        let eff = step_effects_spec(st, msgs[0], keepalive_ok[0]);
        let st1 = next_state_spec(st, msgs[0]);
        if !eff.quit {
            lemma_run_spec_bounds(st1, msgs.drop_first(), keepalive_ok.drop_first());
        }
    }
}

/// How many messages the loop consumes out of a sequence: everything up to
/// and including the first terminal message, or the whole sequence when
/// there is none.
pub open spec fn cutoff_spec(msgs: Seq<Msg>) -> int
    decreases msgs.len(),
{
    if msgs.len() == 0 {
        0
    } else if msgs[0].is_terminal() {
        1
    } else {
        1 + cutoff_spec(msgs.drop_first())
    }
}

/// A terminal message stops the loop: the run consumes exactly the prefix up
/// to the first terminal message (or everything, when no message is
/// terminal), and the run reports a message-driven exit exactly when a
/// terminal message was reached. In particular, once a terminal message
/// stands at position `i`, no more than `i + 1` messages are ever consumed.
pub proof fn lemma_terminal_message_stops_loop(
    st: LoopState,
    msgs: Seq<Msg>,
    keepalive_ok: Seq<bool>,
)
    ensures
        run_spec(st, msgs, keepalive_ok).processed == cutoff_spec(msgs),
        run_spec(st, msgs, keepalive_ok).exited_by_message == exists|i: int|
            0 <= i < msgs.len() && (#[trigger] msgs[i]).is_terminal(),
        forall|i: int|
            0 <= i < msgs.len() && (#[trigger] msgs[i]).is_terminal() ==> cutoff_spec(msgs) <= i
                + 1,
    decreases msgs.len(),
{
    if msgs.len() > 0 {
        let eff = step_effects_spec(st, msgs[0], keepalive_ok[0]);
        let st1 = next_state_spec(st, msgs[0]);
        assert(eff.quit == msgs[0].is_terminal());
        if !eff.quit {
            lemma_terminal_message_stops_loop(st1, msgs.drop_first(), keepalive_ok.drop_first());
            assert forall|i: int|
                0 <= i < msgs.len() && (#[trigger] msgs[i]).is_terminal() implies cutoff_spec(msgs)
                <= i + 1 by {
                assert(msgs.drop_first()[i - 1] == msgs[i]);
            }
            if run_spec(st, msgs, keepalive_ok).exited_by_message {
                let j = choose|j: int|
                    0 <= j < msgs.drop_first().len() && (#[trigger] msgs.drop_first()[j]).is_terminal();
                assert(msgs[j + 1].is_terminal());
            }
            if exists|i: int| 0 <= i < msgs.len() && (#[trigger] msgs[i]).is_terminal() {
                let i = choose|i: int| 0 <= i < msgs.len() && (#[trigger] msgs[i]).is_terminal();
                assert(msgs.drop_first()[i - 1] == msgs[i]);
            }
        }
    }
}

/// A failing network collaborator never stops the loop: the state, the
/// number of messages consumed, the renders and the exit mode of a run are
/// the same whatever outcomes the keepalive collaborator reports. A failure
/// costs one log line, nothing else.
pub proof fn lemma_keepalive_failure_does_not_stop_loop(
    st: LoopState,
    msgs: Seq<Msg>,
    ok_a: Seq<bool>,
    ok_b: Seq<bool>,
)
    ensures
        run_spec(st, msgs, ok_a).state == run_spec(st, msgs, ok_b).state,
        run_spec(st, msgs, ok_a).processed == run_spec(st, msgs, ok_b).processed,
        run_spec(st, msgs, ok_a).renders == run_spec(st, msgs, ok_b).renders,
        run_spec(st, msgs, ok_a).surface_constructions == run_spec(
            st,
            msgs,
            ok_b,
        ).surface_constructions,
        run_spec(st, msgs, ok_a).daemon_starts == run_spec(st, msgs, ok_b).daemon_starts,
        run_spec(st, msgs, ok_a).exited_by_message == run_spec(st, msgs, ok_b).exited_by_message,
    decreases msgs.len(),
{
    if msgs.len() > 0 {
        let st1 = next_state_spec(st, msgs[0]);
        if !step_effects_spec(st, msgs[0], ok_a[0]).quit {
            lemma_keepalive_failure_does_not_stop_loop(
                st1,
                msgs.drop_first(),
                ok_a.drop_first(),
                ok_b.drop_first(),
            );
        }
    }
}

/// A render pass due before the surface exists is a no-op: no message other
/// than `Init` can construct the surface, so while the slot is empty every
/// due render is skipped with a warning and nothing fails — the loop's
/// outcome for the message is an ordinary `StepEffects`, never an error.
pub proof fn lemma_render_skipped_before_surface_init(st: LoopState, m: Msg, keepalive_ok: bool)
    requires
        !st.surface.initialized,
        m != Msg::InkviewEvent(Event::Init),
    ensures
        !step_effects_spec(st, m, keepalive_ok).rendered,
        step_effects_spec(st, m, keepalive_ok).render_skipped_logged == msg_wants_render(m),
        !next_state_spec(st, m).surface.initialized,
{
}

/// What an entire run of the loop reported: the exec counterpart of
/// `RunOutcome`, plus the count of application-shutdown calls the loop
/// issued on its way out.
#[derive(Debug, Clone, Copy, PartialEq, Eq, Structural)]
pub struct RunTrace {
    pub state: LoopState,
    pub processed: usize,
    pub renders: usize,
    pub surface_constructions: usize,
    pub daemon_starts: usize,
    pub exited_by_message: bool,
    /// How many times the loop issued the application-shutdown call; the
    /// loop issues it exactly once, whichever way it exits.
    pub close_app_calls: usize,
}

/// Drive the dispatch loop over a fixed message sequence, starting from the
/// initial state: consume messages in order until a terminal message or the
/// end (the queue closing), then issue the application-shutdown call exactly
/// once. `keepalive_ok[k]` is the network collaborator's outcome for
/// message `k`.
pub fn run_script(msgs: &Vec<Msg>, keepalive_ok: &Vec<bool>) -> (t: RunTrace)
    requires
        msgs@.len() == keepalive_ok@.len(),
    ensures
        ({
            let r = run_spec(initial_state_spec(), msgs@, keepalive_ok@);
            &&& t.state == r.state
            &&& t.processed == r.processed
            &&& t.renders == r.renders
            &&& t.surface_constructions == r.surface_constructions
            &&& t.daemon_starts == r.daemon_starts
            &&& t.exited_by_message == r.exited_by_message
            &&& t.close_app_calls == 1
        }),
{
    let st = initial_state();
    let mut t = run_from(st, msgs, keepalive_ok, 0);
    proof {
        assert(msgs@.skip(0) =~= msgs@);
        assert(keepalive_ok@.skip(0) =~= keepalive_ok@);
    }
    t.close_app_calls = 1;
    t
}

/// Drive the dispatch loop from the queue itself: take every message in
/// delivery order — which `MsgQueue` guarantees is send order — and run the
/// loop over them from the initial state. Messages enqueued after a
/// terminal one are discarded unread, as dropping the queue's receiving
/// half does.
pub fn drive_loop(q: &mut MsgQueue, keepalive_ok: &Vec<bool>) -> (t: RunTrace)
    requires
        old(q)@.len() == keepalive_ok@.len(),
    ensures
        ({
            let r = run_spec(initial_state_spec(), old(q)@, keepalive_ok@);
            &&& t.state == r.state
            &&& t.processed == r.processed
            &&& t.renders == r.renders
            &&& t.surface_constructions == r.surface_constructions
            &&& t.daemon_starts == r.daemon_starts
            &&& t.exited_by_message == r.exited_by_message
            &&& t.close_app_calls == 1
        }),
        final(q)@ == Seq::<Msg>::empty(),
{
    let delivered = q.drain();
    run_script(&delivered, keepalive_ok)
}

/// Consume messages from position `i` on, exactly as the loop would.
fn run_from(st: LoopState, msgs: &Vec<Msg>, keepalive_ok: &Vec<bool>, i: usize) -> (t: RunTrace)
    requires
        msgs@.len() == keepalive_ok@.len(),
        i <= msgs@.len(),
    ensures
        ({
            let r = run_spec(st, msgs@.skip(i as int), keepalive_ok@.skip(i as int));
            &&& t.state == r.state
            &&& t.processed == r.processed
            &&& t.renders == r.renders
            &&& t.surface_constructions == r.surface_constructions
            &&& t.daemon_starts == r.daemon_starts
            &&& t.exited_by_message == r.exited_by_message
            &&& t.close_app_calls == 0
        }),
    decreases msgs@.len() - i,
{
    let ghost rem_msgs = msgs@.skip(i as int);
    let ghost rem_ok = keepalive_ok@.skip(i as int);
    if i == msgs.len() {
        RunTrace {
            state: st,
            processed: 0,
            renders: 0,
            surface_constructions: 0,
            daemon_starts: 0,
            exited_by_message: false,
            close_app_calls: 0,
        }
    } else {
        let mut state = st;
        let eff = step(&mut state, msgs[i], keepalive_ok[i]);
        proof {
            assert(rem_msgs[0] == msgs@[i as int]);
            assert(rem_ok[0] == keepalive_ok@[i as int]);
            lemma_run_spec_bounds(
                next_state_spec(st, msgs@[i as int]),
                rem_msgs.drop_first(),
                rem_ok.drop_first(),
            );
            assert(rem_msgs.drop_first() =~= msgs@.skip(i + 1));
            assert(rem_ok.drop_first() =~= keepalive_ok@.skip(i + 1));
        }
        if eff.quit {
            RunTrace {
                state,
                processed: 1,
                renders: if eff.rendered { 1 } else { 0 },
                surface_constructions: if eff.surface_constructed { 1 } else { 0 },
                daemon_starts: if eff.daemon_start { 1 } else { 0 },
                exited_by_message: true,
                close_app_calls: 0,
            }
        } else {
            let rest = run_from(state, msgs, keepalive_ok, i + 1);
            RunTrace {
                state: rest.state,
                processed: 1 + rest.processed,
                renders: (if eff.rendered { 1 } else { 0 }) + rest.renders,
                surface_constructions: (if eff.surface_constructed { 1 } else { 0 })
                    + rest.surface_constructions,
                daemon_starts: (if eff.daemon_start { 1 } else { 0 }) + rest.daemon_starts,
                exited_by_message: rest.exited_by_message,
                close_app_calls: 0,
            }
        }
    }
}

/// All-false effects, as a starting point for the loop body.
fn empty_effects() -> (r: StepEffects)
    ensures
        r == no_effects(),
{
    StepEffects {
        quit: false,
        surface_constructed: false,
        duplicate_init_logged: false,
        daemon_start: false,
        rendered: false,
        render_skipped_logged: false,
        keepalive_invoked: false,
        keepalive_failure_logged: false,
        status_print: false,
    }
}

} // verus!
