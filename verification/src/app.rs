use vstd::prelude::*;
use vstd::string::StringExecFns;
use std::collections::VecDeque;
use crate::actions::Action;
use crate::bluetooth::DeviceListItem;
use crate::components::alert::{alert_update, Alert};
use crate::components::select_list::{clamp_selection, list_update, ListV, SelectList};
use crate::components::test_component::{initial_status, status_update, StatusV, TestComponent};
use crate::components::Color;
use crate::events::Event;

verus! {

/// A device operation the dispatcher asks the Bluetooth layer to perform.
/// The dispatch loop hands it out, waits for the outcome, and takes the
/// outcome back through `App::apply_device_result` before the drain goes on;
/// at most one operation is ever in flight.
#[derive(Debug, PartialEq, Eq)]
pub enum DeviceCommand {
    Connect(DeviceListItem),
    Disconnect(DeviceListItem),
}

/// Abstract state of the dispatcher: both components, the optional alert
/// message, the pending-action queue, and the terminal quit flag.
#[verifier::ext_equal]
pub struct AppV {
    pub list: ListV,
    pub status: StatusV,
    pub alert: Option<Seq<char>>,
    pub queue: Seq<Action>,
    pub should_quit: bool,
}

impl AppV {
    /// The dispatcher's invariant: the selection cursor is in bounds, and the
    /// queue never holds the `Noop` sentinel — `Noop` answers are dropped at
    /// the point they are produced, so `Noop` is never broadcast and never
    /// reaches the dispatcher's own action handler.
    pub open spec fn wf(self) -> bool {
        &&& self.list.wf()
        &&& (forall|i: int| 0 <= i < self.queue.len() ==> !(#[trigger] self.queue[i] is Noop))
    }
}

/// The action an event translates to: cadence events (`Render`, `Tick`)
/// translate to none, every input event to exactly one.
pub open spec fn event_action(e: Event) -> Option<Action> {
    match e {
        Event::Quit => Some(Action::Quit),
        Event::ChangeColor => Some(Action::ChangeColor),
        Event::Down => Some(Action::Down),
        Event::Up => Some(Action::Up),
        Event::ConnectDevice => Some(Action::SelectDeviceForConnection),
        Event::DisconnectDevice => Some(Action::SelectDeviceForDisconnection),
        Event::Render => None,
        Event::Tick => None,
    }
}

/// Receiving an event appends its action to the back of the pending queue;
/// cadence events leave the state untouched.
pub open spec fn enqueue_event(s: AppV, e: Event) -> AppV {
    match event_action(e) {
        Some(a) => AppV { queue: s.queue.push(a), ..s },
        None => s,
    }
}

/// Appends an action unless it is the `Noop` sentinel, which is dropped.
pub open spec fn push_unless_noop(q: Seq<Action>, a: Action) -> Seq<Action> {
    if a is Noop {
        q
    } else {
        q.push(a)
    }
}

/// The follow-up actions one broadcast produces, in broadcast order: the
/// device list's answer, then the status strip's, then the alert banner's
/// (the banner is only consulted while an alert is active).
pub open spec fn broadcast_children(s: AppV, a: Action) -> Seq<Action> {
    let a1 = list_update(s.list, a).1;
    let a2 = status_update(s.status, a).1;
    let a3 = if s.alert is Some {
        alert_update(a)
    } else {
        Action::Noop
    };
    push_unless_noop(push_unless_noop(push_unless_noop(Seq::empty(), a1), a2), a3)
}

/// One step of the per-tick drain: pop the front action; discard it if it is
/// `Noop`; otherwise broadcast it to every component in insertion order,
/// append every non-`Noop` answer to the back of the queue (strict FIFO,
/// never reordered), and finally apply the dispatcher's own side effect:
/// `Quit` latches the quit flag, `RemoveAlert` clears the alert, and
/// `Connect`/`Disconnect` emit the device command whose outcome
/// `apply_result` folds back in.
pub open spec fn dispatch_one(s: AppV) -> (AppV, Option<DeviceCommand>)
    recommends
        s.queue.len() > 0,
{
    let a = s.queue[0];
    let rest = s.queue.drop_first();
    if a is Noop {
        (AppV { queue: rest, ..s }, None)
    } else {
        let s2 = AppV {
            list: list_update(s.list, a).0,
            status: status_update(s.status, a).0,
            queue: rest + broadcast_children(s, a),
            ..s
        };
        match a {
            Action::Quit => (AppV { should_quit: true, ..s2 }, None),
            Action::RemoveAlert => (AppV { alert: None, ..s2 }, None),
            Action::Connect(d) => (s2, Some(DeviceCommand::Connect(d))),
            Action::Disconnect(d) => (s2, Some(DeviceCommand::Disconnect(d))),
            _ => (s2, None),
        }
    }
}

/// The fixed message a failed device operation raises.
pub open spec fn device_failure_text(cmd: DeviceCommand) -> Seq<char> {
    match cmd {
        DeviceCommand::Connect(_) => "Failed to connect to device"@,
        DeviceCommand::Disconnect(_) => "Failed to disconnect to device"@,
    }
}

/// Folding a device operation's outcome back into the dispatcher: success
/// changes nothing; failure raises the alert with the operation's fixed
/// message, silently replacing any alert already active.
pub open spec fn apply_result(s: AppV, cmd: DeviceCommand, ok: bool) -> AppV {
    if ok {
        s
    } else {
        AppV { alert: Some(device_failure_text(cmd)), ..s }
    }
}

/// The rank of an action bounds the work its dispatch can spawn: each action
/// only ever enqueues follow-up actions of strictly smaller total rank.
pub open spec fn action_rank(a: Action) -> nat {
    match a {
        Action::Noop => 1,
        Action::RemoveAlert => 1,
        Action::SelectDeviceForConnection => 4,
        Action::SelectDeviceForDisconnection => 4,
        _ => 2,
    }
}

/// Total rank of all queued actions.
pub open spec fn queue_rank(q: Seq<Action>) -> nat
    decreases q.len(),
{
    if q.len() == 0 {
        0
    } else {
        action_rank(q[0]) + queue_rank(q.drop_first())
    }
}

/// How much work one tick's drain still has in front of it. An active alert
/// counts one unit: dismissing it is the one follow-up action it can still
/// spawn.
pub open spec fn drain_measure(s: AppV) -> nat {
    queue_rank(s.queue) + if s.alert is Some {
        1nat
    } else {
        0nat
    }
}

pub proof fn lemma_queue_rank_push(q: Seq<Action>, a: Action)
    ensures
        queue_rank(q.push(a)) == queue_rank(q) + action_rank(a),
    decreases q.len(),
{
    assert(queue_rank(q.push(a)) == action_rank(q.push(a)[0]) + queue_rank(
        q.push(a).drop_first(),
    ));
    if q.len() == 0 {
        assert(q.push(a)[0] == a);
        assert(q.push(a).drop_first() =~= Seq::<Action>::empty());
        assert(queue_rank(Seq::<Action>::empty()) == 0);
    } else {
        assert(q.push(a)[0] == q[0]);
        assert(q.push(a).drop_first() =~= q.drop_first().push(a));
        lemma_queue_rank_push(q.drop_first(), a);
    }
}

pub proof fn lemma_queue_rank_concat(q1: Seq<Action>, q2: Seq<Action>)
    ensures
        queue_rank(q1 + q2) == queue_rank(q1) + queue_rank(q2),
    decreases q1.len(),
{
    if q1.len() == 0 {
        assert(q1 + q2 =~= q2);
    } else {
        assert((q1 + q2).drop_first() =~= q1.drop_first() + q2);
        lemma_queue_rank_concat(q1.drop_first(), q2);
    }
}

/// The pending queue is fully drained within the tick that started it: every
/// dispatch step — together with the device outcome it may have to wait for —
/// strictly shrinks the drain measure, so repeating steps while the queue is
/// non-empty terminates with the queue empty. An action that enqueues further
/// actions (a selection becoming a `Connect` one broadcast later) is resolved
/// within the same drain, never deferred past the tick boundary.
pub proof fn lemma_dispatch_decreases(s: AppV, ok: bool)
    requires
        s.queue.len() > 0,
    ensures
        ({
            let (s2, c) = dispatch_one(s);
            let s3 = match c {
                Some(cmd) => apply_result(s2, cmd, ok),
                None => s2,
            };
            drain_measure(s3) < drain_measure(s)
        }),
{
    let a = s.queue[0];
    let rest = s.queue.drop_first();
    if !(a is Noop) {
        let a1 = list_update(s.list, a).1;
        let a2 = status_update(s.status, a).1;
        let a3 = if s.alert is Some {
            alert_update(a)
        } else {
            Action::Noop
        };
        let c0 = Seq::<Action>::empty();
        let c1 = push_unless_noop(c0, a1);
        let c2 = push_unless_noop(c1, a2);
        let c3 = push_unless_noop(c2, a3);
        assert(queue_rank(c0) == 0);
        if !(a1 is Noop) {
            lemma_queue_rank_push(c0, a1);
        }
        if !(a2 is Noop) {
            lemma_queue_rank_push(c1, a2);
        }
        if !(a3 is Noop) {
            lemma_queue_rank_push(c2, a3);
        }
        assert(action_rank(a3) <= 1);
        lemma_queue_rank_concat(rest, c3);
    }
}

/// One tick's drain up to the next device command: dispatch steps repeat
/// until the queue is empty (no command due) or until a step pops a
/// `Connect`/`Disconnect`, whose outcome must be folded back in before the
/// drain can go on.
pub open spec fn drain_spec(s: AppV) -> (AppV, Option<DeviceCommand>)
    decreases drain_measure(s),
{
    if s.queue.len() == 0 {
        (s, None)
    } else {
        proof {
            lemma_dispatch_decreases(s, true);
        }
        let (s2, c) = dispatch_one(s);
        if c is Some {
            (s2, c)
        } else {
            drain_spec(s2)
        }
    }
}

/// One dispatch step keeps the dispatcher's invariant: every action it
/// appends is a component's non-`Noop` answer, and the component reducers
/// keep the selection cursor in bounds.
pub proof fn lemma_dispatch_preserves_wf(s: AppV)
    requires
        s.queue.len() > 0,
        s.wf(),
    ensures
        dispatch_one(s).0.wf(),
{
    let a = s.queue[0];
    let rest = s.queue.drop_first();
    let s2 = dispatch_one(s).0;
    assert(forall|i: int| 0 <= i < rest.len() ==> rest[i] == s.queue[i + 1]);
    if !(a is Noop) {
        let ch = broadcast_children(s, a);
        assert(forall|i: int|
            0 <= i < s2.queue.len() ==> s2.queue[i] == if i < rest.len() {
                rest[i]
            } else {
                ch[i - rest.len()]
            });
    }
}

/// A successful device outcome changes nothing; a failed one only raises the
/// alert. Either way the dispatcher's invariant survives.
pub proof fn lemma_apply_result_preserves_wf(s: AppV, cmd: DeviceCommand, ok: bool)
    requires
        s.wf(),
    ensures
        apply_result(s, cmd, ok).wf(),
{
}

/// `Noop` never reaches a component or the dispatcher's action handler: the
/// invariant keeps the sentinel out of the queue altogether, and `dispatch_one`
/// broadcasts nothing but the queue's front.
pub proof fn lemma_noop_never_queued(s: AppV)
    requires
        s.wf(),
    ensures
        forall|i: int| 0 <= i < s.queue.len() ==> !(#[trigger] s.queue[i] is Noop),
{
}

/// Any active alert is dismissed by the very next action the drain pops,
/// whatever that action otherwise does: the dismissal itself clears the alert
/// directly, and every other action broadcast to the banner enqueues the
/// dismissal at the back of the same drain's queue, which the drain then
/// executes before the tick ends.
pub proof fn lemma_alert_dismissal(s: AppV)
    requires
        s.queue.len() > 0,
        !(s.queue[0] is Noop),
        s.alert is Some,
    ensures
        s.queue[0] is RemoveAlert ==> dispatch_one(s).0.alert is None,
        !(s.queue[0] is RemoveAlert) ==> dispatch_one(s).0.queue.last() == Action::RemoveAlert,
{
    let a = s.queue[0];
    if !(a is RemoveAlert) {
        let ch = broadcast_children(s, a);
        assert(ch.last() == Action::RemoveAlert);
        assert((s.queue.drop_first() + ch).last() == ch.last());
    }
}

/// Dispatching never raises an alert on its own: only a reported device
/// failure does. So a drain segment started with no alert ends with none,
/// whether it runs to the empty queue or stops at a device command.
pub proof fn lemma_drain_keeps_alert_clear(s: AppV)
    requires
        s.alert is None,
    ensures
        drain_spec(s).0.alert is None,
    decreases drain_measure(s),
{
    if s.queue.len() > 0 {
        lemma_dispatch_decreases(s, true);
        let (s2, c) = dispatch_one(s);
        if c is None {
            lemma_drain_keeps_alert_clear(s2);
        }
    }
}

/// The "any key dismisses" guarantee, per drain segment: an active alert does
/// not survive a segment that pops at least one action and runs to the empty
/// queue — the first popped action is either the dismissal itself or it is
/// broadcast to the banner, whose dismissal request the same segment then
/// executes, and nothing inside a segment raises the alert again. Where a
/// device command stops the segment early, an alert still active has the
/// pending dismissal still queued, so the resumed drain picks it up
/// (`lemma_tick_clears_alert` composes the segments).
pub proof fn lemma_drain_clears_alert(s: AppV)
    requires
        s.wf(),
        s.alert is Some,
        s.queue.len() > 0,
    ensures
        drain_spec(s).1 is None ==> drain_spec(s).0.alert is None,
        drain_spec(s).0.alert is Some ==> drain_spec(s).0.queue.len() > 0,
    decreases drain_measure(s),
{
    lemma_dispatch_decreases(s, true);
    lemma_dispatch_preserves_wf(s);
    let a = s.queue[0];
    let (s2, c) = dispatch_one(s);
    if s2.alert is None {
        lemma_drain_keeps_alert_clear(s2);
    } else {
        assert(broadcast_children(s, a).last() == Action::RemoveAlert);
        assert(s2.queue.len() > 0);
        if c is None {
            lemma_drain_clears_alert(s2);
        }
    }
}

/// A drain segment keeps the dispatcher's invariant, step by step.
pub proof fn lemma_drain_spec_preserves_wf(s: AppV)
    requires
        s.wf(),
    ensures
        drain_spec(s).0.wf(),
    decreases drain_measure(s),
{
    if s.queue.len() > 0 {
        lemma_dispatch_decreases(s, true);
        lemma_dispatch_preserves_wf(s);
        let (s2, c) = dispatch_one(s);
        if c is None {
            lemma_drain_spec_preserves_wf(s2);
        }
    }
}

/// A drain segment never grows the drain measure, and one that ends at a
/// device command has shrunk it enough that folding the outcome back in still
/// leaves it strictly smaller: the whole tick, segments and outcomes
/// together, terminates.
pub proof fn lemma_drain_spec_measure(s: AppV, ok: bool)
    ensures
        ({
            let (s1, c) = drain_spec(s);
            match c {
                Some(cmd) => drain_measure(apply_result(s1, cmd, ok)) < drain_measure(s),
                None => drain_measure(s1) <= drain_measure(s),
            }
        }),
    decreases drain_measure(s),
{
    if s.queue.len() > 0 {
        lemma_dispatch_decreases(s, ok);
        let (s2, c) = dispatch_one(s);
        if c is None {
            lemma_drain_spec_measure(s2, ok);
        }
    }
}

/// A whole tick: the drain, resumed after each device command with that
/// command's outcome, until the queue is empty — exactly the composition of
/// `drain_pending_actions` and `apply_device_result` that the event loop
/// iterates. Outcomes are consumed in order; a tick with more commands than
/// given outcomes treats the rest as successes.
pub open spec fn run_tick(s: AppV, outcomes: Seq<bool>) -> AppV
    decreases drain_measure(s),
{
    let (s1, c) = drain_spec(s);
    match c {
        None => s1,
        Some(cmd) => {
            let ok = if outcomes.len() > 0 {
                outcomes[0]
            } else {
                true
            };
            let rest = if outcomes.len() > 0 {
                outcomes.drop_first()
            } else {
                outcomes
            };
            proof {
                lemma_drain_spec_measure(s, ok);
            }
            run_tick(apply_result(s1, cmd, ok), rest)
        },
    }
}

/// With no device failure in the tick, a tick that starts with no alert ends
/// with none.
pub proof fn lemma_tick_keeps_alert_clear(s: AppV, outcomes: Seq<bool>)
    requires
        s.alert is None,
        forall|i: int| 0 <= i < outcomes.len() ==> outcomes[i] == true,
    ensures
        run_tick(s, outcomes).alert is None,
    decreases drain_measure(s),
{
    lemma_drain_keeps_alert_clear(s);
    let (s1, c) = drain_spec(s);
    if c is Some {
        lemma_drain_spec_measure(s, true);
        let rest = if outcomes.len() > 0 {
            outcomes.drop_first()
        } else {
            outcomes
        };
        lemma_tick_keeps_alert_clear(s1, rest);
    }
}

/// The full "any key dismisses" guarantee: an active alert does not survive
/// the tick that pops the next action, whatever that action otherwise does
/// and however many device commands interrupt the drain — provided every
/// device outcome in the tick is a success. (A failed outcome raises a fresh
/// alert of its own, replacing the dismissed one, and the next tick's first
/// action dismisses that one in turn.)
pub proof fn lemma_tick_clears_alert(s: AppV, outcomes: Seq<bool>)
    requires
        s.wf(),
        s.alert is Some,
        s.queue.len() > 0,
        forall|i: int| 0 <= i < outcomes.len() ==> outcomes[i] == true,
    ensures
        run_tick(s, outcomes).alert is None,
    decreases drain_measure(s),
{
    lemma_drain_clears_alert(s);
    lemma_drain_spec_preserves_wf(s);
    let (s1, c) = drain_spec(s);
    if c is Some {
        lemma_drain_spec_measure(s, true);
        let rest = if outcomes.len() > 0 {
            outcomes.drop_first()
        } else {
            outcomes
        };
        if s1.alert is Some {
            lemma_tick_clears_alert(s1, rest);
        } else {
            lemma_tick_keeps_alert_clear(s1, rest);
        }
    }
}

/// The dispatcher: owns both components (broadcast order is their fixed
/// insertion order: device list, then status strip, with the alert banner
/// consulted last), the optional active alert, the pending-action queue and
/// the quit flag. The unverified event loop feeds it events (`handle_event`),
/// runs the per-tick drain (`drain_pending_actions`, reporting each device
/// outcome through `apply_device_result`), and reads the component state back
/// out to draw each frame.
pub struct App {
    select_list: SelectList,
    status_panel: TestComponent,
    active_alert: Option<Alert>,
    should_quit: bool,
    actions_pending: VecDeque<Action>,
}

impl View for App {
    type V = AppV;

    closed spec fn view(&self) -> AppV {
        AppV {
            list: self.select_list@,
            status: self.status_panel@,
            alert: match self.active_alert {
                Some(a) => Some(a@),
                None => None,
            },
            queue: self.actions_pending@,
            should_quit: self.should_quit,
        }
    }
}

/// The dispatcher's starting state: the initial device snapshot with the
/// cursor on the first row, the status strip on its first color, no alert,
/// an empty queue, and the quit flag down.
pub open spec fn initial_app(devices: Seq<DeviceListItem>) -> AppV {
    AppV {
        list: ListV { devices, selected: 0 },
        status: initial_status(),
        alert: None,
        queue: Seq::empty(),
        should_quit: false,
    }
}

impl App {
    pub fn new(devices: Vec<DeviceListItem>) -> (r: App)
        ensures
            r@ == initial_app(devices@),
            r@.wf(),
    {
        App {
            select_list: SelectList::new(devices),
            status_panel: TestComponent::new(),
            active_alert: None,
            should_quit: false,
            actions_pending: VecDeque::new(),
        }
    }

    /// Translates one received event into its pending action, exactly as
    /// `enqueue_event` states. Cadence events change nothing here: the caller
    /// draws a frame on `Render` and runs the drain on `Tick`.
    pub fn handle_event(&mut self, event: &Event)
        ensures
            final(self)@ == enqueue_event(old(self)@, *event),
            old(self)@.wf() ==> final(self)@.wf(),
    {
        match event {
            Event::Quit => self.actions_pending.push_back(Action::Quit),
            Event::ChangeColor => self.actions_pending.push_back(Action::ChangeColor),
            Event::Down => self.actions_pending.push_back(Action::Down),
            Event::Up => self.actions_pending.push_back(Action::Up),
            Event::ConnectDevice => self.actions_pending.push_back(
                Action::SelectDeviceForConnection,
            ),
            Event::DisconnectDevice => self.actions_pending.push_back(
                Action::SelectDeviceForDisconnection,
            ),
            Event::Render => (),
            Event::Tick => (),
        }
    }

    /// One step of the per-tick drain, exactly as `dispatch_one` states; on
    /// an empty queue it does nothing. The caller repeats it until the queue
    /// is empty — `lemma_dispatch_decreases` shows that this terminates — and
    /// must feed the outcome of every returned device command back through
    /// `apply_device_result` before the next step.
    pub fn drain_step(&mut self) -> (r: Option<DeviceCommand>)
        ensures
            old(self)@.queue.len() == 0 ==> final(self)@ == old(self)@ && r is None,
            old(self)@.queue.len() > 0 ==> final(self)@ == dispatch_one(old(self)@).0 && r
                == dispatch_one(old(self)@).1,
            old(self)@.wf() ==> final(self)@.wf(),
    {
        proof {
            if old(self)@.wf() && old(self)@.queue.len() > 0 {
                lemma_dispatch_preserves_wf(old(self)@);
            }
        }
        let popped = self.actions_pending.pop_front();
        match popped {
            None => None,
            Some(Action::Noop) => {
                // the explicit "nothing to do" sentinel: discarded, never
                // broadcast, never handled
                None
            },
            Some(action) => {
                let answer = self.select_list.update(&action);
                match answer {
                    Action::Noop => (),
                    other => self.actions_pending.push_back(other),
                }
                let answer = self.status_panel.update(&action);
                match answer {
                    Action::Noop => (),
                    other => self.actions_pending.push_back(other),
                }
                let answer = match &self.active_alert {
                    Some(alert) => alert.update(&action),
                    None => Action::Noop,
                };
                match answer {
                    Action::Noop => (),
                    other => self.actions_pending.push_back(other),
                }
                proof {
                    assert(self.actions_pending@ =~= old(self)@.queue.drop_first()
                        + broadcast_children(old(self)@, old(self)@.queue[0]));
                }
                match action {
                    Action::Quit => {
                        self.should_quit = true;
                        None
                    },
                    Action::RemoveAlert => {
                        self.active_alert = None;
                        None
                    },
                    Action::Connect(d) => Some(DeviceCommand::Connect(d)),
                    Action::Disconnect(d) => Some(DeviceCommand::Disconnect(d)),
                    _ => None,
                }
            },
        }
    }

    /// Runs the current tick's drain until the queue is empty or a device
    /// command must be performed, exactly as `drain_spec` states: strict FIFO
    /// dispatch, each popped action fully broadcast, and at most one device
    /// command in flight. The caller folds each returned command's outcome
    /// back in through `apply_device_result` and then resumes the drain; once
    /// this returns `None` the queue is empty and the tick is over.
    pub fn drain_pending_actions(&mut self) -> (r: Option<DeviceCommand>)
        ensures
            final(self)@ == drain_spec(old(self)@).0,
            r == drain_spec(old(self)@).1,
            r is None ==> final(self)@.queue.len() == 0,
            old(self)@.wf() ==> final(self)@.wf(),
    {
        let ghost target = drain_spec(old(self)@);
        let ghost wf_at_entry = old(self)@.wf();
        loop
            invariant
                target == drain_spec(old(self)@),
                wf_at_entry == old(self)@.wf(),
                drain_spec(self@) == target,
                wf_at_entry ==> self@.wf(),
            decreases drain_measure(self@),
        {
            if !self.has_pending_actions() {
                proof {
                    assert(drain_spec(self@) == (self@, None::<DeviceCommand>));
                }
                return None;
            }
            let ghost before = self@;
            proof {
                lemma_dispatch_decreases(before, true);
            }
            let step = self.drain_step();
            proof {
                assert(drain_spec(before) == if dispatch_one(before).1 is Some {
                    dispatch_one(before)
                } else {
                    drain_spec(dispatch_one(before).0)
                });
            }
            if let Some(cmd) = step {
                return Some(cmd);
            }
        }
    }

    /// Folds the outcome of the device command the last drain step returned
    /// back into the dispatcher, exactly as `apply_result` states: a failure
    /// raises the alert with the operation's fixed message.
    pub fn apply_device_result(&mut self, cmd: &DeviceCommand, ok: bool)
        ensures
            final(self)@ == apply_result(old(self)@, *cmd, ok),
            old(self)@.wf() ==> final(self)@.wf(),
    {
        if !ok {
            match cmd {
                DeviceCommand::Connect(_) => self.alert("Failed to connect to device"),
                DeviceCommand::Disconnect(_) => self.alert("Failed to disconnect to device"),
            }
        }
    }

    /// Raises (or replaces) the active alert with the given message.
    fn alert(&mut self, text: &str)
        ensures
            final(self)@ == (AppV { alert: Some(text@), ..old(self)@ }),
    {
        let alert = Alert::new(String::from_str(text));
        self.active_alert = Some(alert);
    }

    /// Replaces the device snapshot with a fresh one from the device layer,
    /// keeping the selection cursor valid.
    pub fn update_device_list(&mut self, devices: Vec<DeviceListItem>)
        ensures
            final(self)@ == (AppV {
                list: ListV {
                    devices: devices@,
                    selected: clamp_selection(old(self)@.list.selected, devices@.len() as int),
                },
                ..old(self)@
            }),
            old(self)@.wf() ==> final(self)@.wf(),
    {
        self.select_list.update_device_list(devices);
    }

    /// Whether the event loop should stop reading events and tear down.
    pub fn should_quit(&self) -> (r: bool)
        ensures
            r == self@.should_quit,
    {
        self.should_quit
    }

    /// Whether the current tick's drain still has actions to dispatch.
    pub fn has_pending_actions(&self) -> (r: bool)
        ensures
            r == (self@.queue.len() > 0),
    {
        self.actions_pending.len() > 0
    }

    /// How many actions the current tick's drain still has to dispatch.
    pub fn pending_count(&self) -> (r: usize)
        ensures
            r == self@.queue.len(),
    {
        self.actions_pending.len()
    }

    /// The current device snapshot, for the render layer.
    pub fn devices(&self) -> (r: &Vec<DeviceListItem>)
        ensures
            r@ == self@.list.devices,
    {
        self.select_list.devices()
    }

    /// The current selection cursor, for the render layer.
    pub fn selected_index(&self) -> (r: usize)
        ensures
            r as int == self@.list.selected,
    {
        self.select_list.selected_index()
    }

    /// The status strip's current color, for the render layer.
    pub fn status_color(&self) -> (r: Color)
        ensures
            r == self@.status.color,
    {
        self.status_panel.color()
    }

    /// The active alert's message, if one is active, for the render layer.
    pub fn alert_text(&self) -> (r: Option<&String>)
        ensures
            match r {
                Some(t) => self@.alert == Some(t@),
                None => self@.alert is None,
            },
    {
        match &self.active_alert {
            Some(alert) => Some(alert.text()),
            None => None,
        }
    }
}

} // verus!
