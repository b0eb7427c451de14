use vstd::prelude::*;

use crate::error::OsError;
use crate::event::{
    window_event_for, window_event_of, AppNotification, Event, WindowEvent, WindowNotification,
};
use crate::window::{Window, WindowId};

verus! {

/// Where the application stands in its lifecycle.
#[derive(Debug, Clone, Copy, PartialEq, Eq, Structural)]
pub enum AppLifecycle {
    NotLaunched,
    Launching,
    Active,
    Inactive,
    Terminating,
    Terminated,
}

/// How the application presents itself to the desktop.
#[derive(Debug, Clone, Copy, PartialEq, Eq, Structural)]
pub enum ActivationPolicy {
    Regular,
    Accessory,
    Prohibited,
}

/// Per-application settings that take effect once launching has finished.
#[derive(Debug, Clone, Copy, PartialEq, Eq, Structural)]
pub struct AuxDelegateState {
    pub activation_policy: ActivationPolicy,
    pub activate_ignoring_other_apps: bool,
}

/// The state a lifecycle notification moves the application to, or `None`
/// where the notification does not apply in the current state.
pub open spec fn lifecycle_after(s: AppLifecycle, n: AppNotification) -> Option<AppLifecycle> {
    match (s, n) {
        (AppLifecycle::NotLaunched, AppNotification::WillFinishLaunching) => Some(
            AppLifecycle::Launching,
        ),
        (AppLifecycle::Launching, AppNotification::DidFinishLaunching) => Some(
            AppLifecycle::Active,
        ),
        (AppLifecycle::Active, AppNotification::DidResignActive) => Some(AppLifecycle::Inactive),
        (AppLifecycle::Inactive, AppNotification::DidBecomeActive) => Some(AppLifecycle::Active),
        (AppLifecycle::Active, AppNotification::WillTerminate) => Some(AppLifecycle::Terminating),
        (AppLifecycle::Inactive, AppNotification::WillTerminate) => Some(
            AppLifecycle::Terminating,
        ),
        _ => None,
    }
}

/// Computes the lifecycle transition for a notification.
pub fn next_lifecycle(s: AppLifecycle, n: AppNotification) -> (r: Option<AppLifecycle>)
    ensures
        r == lifecycle_after(s, n),
{
    match (s, n) {
        (AppLifecycle::NotLaunched, AppNotification::WillFinishLaunching) => Some(
            AppLifecycle::Launching,
        ),
        (AppLifecycle::Launching, AppNotification::DidFinishLaunching) => Some(
            AppLifecycle::Active,
        ),
        (AppLifecycle::Active, AppNotification::DidResignActive) => Some(AppLifecycle::Inactive),
        (AppLifecycle::Inactive, AppNotification::DidBecomeActive) => Some(AppLifecycle::Active),
        (AppLifecycle::Active, AppNotification::WillTerminate) => Some(AppLifecycle::Terminating),
        (AppLifecycle::Inactive, AppNotification::WillTerminate) => Some(
            AppLifecycle::Terminating,
        ),
        _ => None,
    }
}

/// The abstract state of an event loop.
#[verifier::ext_equal]
pub struct LoopModel<T> {
    /// Identifiers of the windows whose notifications are routed.
    pub registered: Set<u64>,
    /// The identifier the next created window receives.
    pub next_id: u64,
    pub lifecycle: AppLifecycle,
    /// The last modifier-key state reported.
    pub modifiers: u32,
    pub exit_requested: bool,
    /// Settings in force; present once launching has finished.
    pub aux: Option<AuxDelegateState>,
    /// Settings that take effect when launching finishes.
    pub pending_aux: AuxDelegateState,
    /// Events not yet handed to the application, oldest first.
    pub queue: Seq<Event<T>>,
}

/// One thing that reaches the loop: a window notification together with the
/// zoom-query flag of the window's observer at that moment, an application
/// notification, or a user payload sent through the loop.
pub enum Arrival<T> {
    Window { window_id: WindowId, checking_zoom: bool, notification: WindowNotification },
    App(AppNotification),
    User(T),
}

/// Events that an applicable application notification produces.
pub open spec fn app_events<T>(n: AppNotification) -> Seq<Event<T>> {
    match n {
        AppNotification::DidFinishLaunching => seq![Event::Resumed],
        AppNotification::WillTerminate => seq![Event::LoopDestroyed],
        _ => Seq::empty(),
    }
}

/// The events an arrival appends to the queue.
pub open spec fn emitted<T>(m: LoopModel<T>, a: Arrival<T>) -> Seq<Event<T>> {
    match a {
        Arrival::Window { window_id, checking_zoom, notification } => {
            if m.registered.contains(window_id.0) {
                match window_event_of(checking_zoom, notification) {
                    Some(e) => seq![Event::WindowEvent { window_id, event: e }],
                    None => Seq::empty(),
                }
            } else {
                Seq::empty()
            }
        },
        Arrival::App(n) => {
            if lifecycle_after(m.lifecycle, n) is Some {
                app_events(n)
            } else {
                Seq::empty()
            }
        },
        Arrival::User(p) => seq![Event::UserEvent(p)],
    }
}

/// The loop state after one arrival.
pub open spec fn step<T>(m: LoopModel<T>, a: Arrival<T>) -> LoopModel<T> {
    let queue = m.queue + emitted(m, a);
    match a {
        Arrival::Window { window_id, checking_zoom, notification } => {
            if m.registered.contains(window_id.0) {
                LoopModel {
                    registered: if notification is WillClose {
                        m.registered.remove(window_id.0)
                    } else {
                        m.registered
                    },
                    modifiers: match notification {
                        WindowNotification::ModifiersChanged(x) => x,
                        _ => m.modifiers,
                    },
                    queue,
                    ..m
                }
            } else {
                m
            }
        },
        Arrival::App(n) => match lifecycle_after(m.lifecycle, n) {
            Some(s) => LoopModel {
                lifecycle: s,
                aux: if n is DidFinishLaunching {
                    Some(m.pending_aux)
                } else {
                    m.aux
                },
                queue,
                ..m
            },
            None => m,
        },
        Arrival::User(_) => LoopModel { queue, ..m },
    }
}

/// The loop state after a sequence of arrivals, taken in order.
pub open spec fn run<T>(m: LoopModel<T>, s: Seq<Arrival<T>>) -> LoopModel<T>
    decreases s.len(),
{
    if s.len() == 0 {
        m
    } else {
        step(run(m, s.drop_last()), s.last())
    }
}

/// Taking arrivals in two batches is taking them all in one.
pub proof fn lemma_run_append<T>(m: LoopModel<T>, s1: Seq<Arrival<T>>, s2: Seq<Arrival<T>>)
    ensures
        run(m, s1 + s2) == run(run(m, s1), s2),
    decreases s2.len(),
{
    if s2.len() == 0 {
        assert(s1 + s2 =~= s1);
    } else {
        assert((s1 + s2).drop_last() =~= s1 + s2.drop_last());
        lemma_run_append(m, s1, s2.drop_last());
    }
}

/// Arrivals only ever append to the queue: what was queued stays, in place.
pub proof fn lemma_run_keeps_queue<T>(m: LoopModel<T>, s: Seq<Arrival<T>>)
    ensures
        run(m, s).queue.len() >= m.queue.len(),
        run(m, s).queue.subrange(0, m.queue.len() as int) == m.queue,
    decreases s.len(),
{
    if s.len() > 0 {
        lemma_run_keeps_queue(m, s.drop_last());
        let before = run(m, s.drop_last());
        let after = step(before, s.last());
        assert(after.queue == before.queue + emitted(before, s.last()));
        assert(after.queue.subrange(0, before.queue.len() as int) =~= before.queue);
        assert(after.queue.subrange(0, m.queue.len() as int) =~= before.queue.subrange(
            0,
            m.queue.len() as int,
        ));
    } else {
        assert(m.queue.subrange(0, m.queue.len() as int) =~= m.queue);
    }
}

/// Events come out in the order of the arrivals that caused them: whatever
/// the earlier arrivals `s1` queued stands, unchanged and in order, before
/// anything the later arrivals `s2` queue.
pub proof fn lemma_arrival_order<T>(m: LoopModel<T>, s1: Seq<Arrival<T>>, s2: Seq<Arrival<T>>)
    ensures
        run(m, s1 + s2).queue.len() >= run(m, s1).queue.len(),
        run(m, s1 + s2).queue.subrange(0, run(m, s1).queue.len() as int) == run(m, s1).queue,
{
    lemma_run_append(m, s1, s2);
    lemma_run_keeps_queue(run(m, s1), s2);
}

proof fn lemma_push_contains(s: Seq<u64>, v: u64)
    ensures
        forall|x: u64| s.push(v).contains(x) <==> (s.contains(x) || x == v),
{
    assert forall|x: u64| s.push(v).contains(x) <==> (s.contains(x) || x == v) by {
        if s.contains(x) {
            let j = choose|j: int| 0 <= j < s.len() && s[j] == x;
            assert(s.push(v)[j] == x);
        }
        if x == v {
            assert(s.push(v)[s.len() as int] == v);
        }
        if s.push(v).contains(x) {
            let j = choose|j: int| 0 <= j < s.push(v).len() && s.push(v)[j] == x;
            if j < s.len() {
                assert(s[j] == x);
            }
        }
    }
}

proof fn lemma_push_no_duplicates(s: Seq<u64>, v: u64)
    requires
        s.no_duplicates(),
        !s.contains(v),
    ensures
        s.push(v).no_duplicates(),
{
    assert forall|i: int, j: int|
        0 <= i < s.push(v).len() && 0 <= j < s.push(v).len() && i != j implies s.push(v)[i]
        != s.push(v)[j] by {
        if i == s.len() {
            assert(s[j] != v);
        } else if j == s.len() {
            assert(s[i] != v);
        }
    }
}

impl<T> LoopModel<T> {
    /// The state after a window is created: its identifier is registered
    /// and the next one is taken.
    pub open spec fn with_window(self) -> LoopModel<T> {
        LoopModel {
            registered: self.registered.insert(self.next_id),
            next_id: (self.next_id + 1) as u64,
            ..self
        }
    }
}

/// The state of one event loop: the registered windows, the application's
/// lifecycle and settings, and the events not yet handed to the application.
pub struct EventLoopWindowTarget<T> {
    windows: Vec<u64>,
    next_id: u64,
    lifecycle: AppLifecycle,
    modifiers: u32,
    exit_requested: bool,
    aux: Option<AuxDelegateState>,
    pending_aux: AuxDelegateState,
    queue: Vec<Event<T>>,
}

impl<T> View for EventLoopWindowTarget<T> {
    type V = LoopModel<T>;

    closed spec fn view(&self) -> LoopModel<T> {
        LoopModel {
            registered: Set::new(|x: u64| self.windows@.contains(x)),
            next_id: self.next_id,
            lifecycle: self.lifecycle,
            modifiers: self.modifiers,
            exit_requested: self.exit_requested,
            aux: self.aux,
            pending_aux: self.pending_aux,
            queue: self.queue@,
        }
    }
}

const RAW_HAS_NO_OBSERVER: &'static str = "a window supplied by the host has no observer";

impl<T> EventLoopWindowTarget<T> {
    /// Registered identifiers are distinct and below the next one.
    pub closed spec fn wf(&self) -> bool {
        &&& self.windows@.no_duplicates()
        &&& forall|i: int| 0 <= i < self.windows@.len() ==> self.windows@[i] < self.next_id
    }

    /// A loop that has not launched, with no windows and no events; `aux`
    /// takes effect when launching finishes.
    pub fn new(aux: AuxDelegateState) -> (r: Self)
        ensures
            r.wf(),
            r@ == (LoopModel::<T> {
                registered: Set::empty(),
                next_id: 0,
                lifecycle: AppLifecycle::NotLaunched,
                modifiers: 0,
                exit_requested: false,
                aux: None,
                pending_aux: aux,
                queue: Seq::empty(),
            }),
    {
        let r = EventLoopWindowTarget {
            windows: Vec::new(),
            next_id: 0,
            lifecycle: AppLifecycle::NotLaunched,
            modifiers: 0,
            exit_requested: false,
            aux: None,
            pending_aux: aux,
            queue: Vec::new(),
        };
        assert(r@.registered =~= Set::<u64>::empty());
        assert(r@.queue =~= Seq::<Event<T>>::empty());
        r
    }

    /// Takes a fresh identifier for a new window and registers it.
    pub(crate) fn register_window(&mut self) -> (r: Option<WindowId>)
        requires
            old(self).wf(),
        ensures
            final(self).wf(),
            old(self)@.next_id == u64::MAX ==> r is None && final(self)@ == old(self)@,
            old(self)@.next_id < u64::MAX ==> {
                &&& r == Some(WindowId(old(self)@.next_id))
                &&& !old(self)@.registered.contains(old(self)@.next_id)
                &&& final(self)@ == old(self)@.with_window()
            },
    {
        if self.next_id == u64::MAX {
            return None;
        }
        let id = self.next_id;
        proof {
            lemma_push_contains(self.windows@, id);
            if self.windows@.contains(id) {
                let j = choose|j: int| 0 <= j < self.windows@.len() && self.windows@[j] == id;
                assert(self.windows@[j] < id);
            }
            lemma_push_no_duplicates(self.windows@, id);
        }
        self.windows.push(id);
        self.next_id = id + 1;
        assert(self@.registered =~= old(self)@.registered.insert(id));
        Some(WindowId(id))
    }

    /// Whether notifications for `id` are routed.
    pub fn is_registered(&self, id: u64) -> (r: bool)
        ensures
            r == self@.registered.contains(id),
    {
        let mut i: usize = 0;
        while i < self.windows.len()
            invariant
                i <= self.windows@.len(),
                forall|j: int| 0 <= j < i ==> self.windows@[j] != id,
            decreases self.windows@.len() - i,
        {
            if self.windows[i] == id {
                return true;
            }
            i = i + 1;
        }
        false
    }

    /// Stops routing notifications for `id`.
    fn unregister(&mut self, id: u64)
        requires
            old(self).wf(),
        ensures
            final(self).wf(),
            final(self)@ == (LoopModel { registered: old(self)@.registered.remove(id), ..old(self)@ }),
    {
        let mut kept: Vec<u64> = Vec::new();
        let mut i: usize = 0;
        while i < self.windows.len()
            invariant
                i <= self.windows@.len(),
                self.windows@.no_duplicates(),
                kept@.no_duplicates(),
                forall|j: int| 0 <= j < kept@.len() ==> kept@[j] < self.next_id,
                forall|x: u64|
                    kept@.contains(x) <==> (x != id && self.windows@.subrange(0, i as int).contains(
                        x,
                    )),
                forall|j: int| 0 <= j < self.windows@.len() ==> self.windows@[j] < self.next_id,
            decreases self.windows@.len() - i,
        {
            let w = self.windows[i];
            let ghost prev = self.windows@.subrange(0, i as int);
            let ghost kept_prev = kept@;
            proof {
                assert(self.windows@.subrange(0, i + 1) =~= self.windows@.subrange(0, i as int).push(
                    w,
                ));
                assert(!self.windows@.subrange(0, i as int).contains(w));
                lemma_push_contains(kept@, w);
                lemma_push_contains(self.windows@.subrange(0, i as int), w);
                if w != id {
                    lemma_push_no_duplicates(kept@, w);
                }
            }
            if w != id {
                kept.push(w);
            }
            i = i + 1;
            assert(self.windows@.subrange(0, i as int) == prev.push(w));
            assert forall|x: u64|
                kept@.contains(x) <==> (x != id && self.windows@.subrange(0, i as int).contains(
                    x,
                )) by {
                lemma_push_contains(kept_prev, w);
                lemma_push_contains(prev, w);
                assert(kept_prev.contains(x) <==> (x != id && prev.contains(x)));
                if w != id {
                    assert(kept@ == kept_prev.push(w));
                } else {
                    assert(kept@ == kept_prev);
                }
            }
        }
        assert(self.windows@.subrange(0, self.windows@.len() as int) =~= self.windows@);
        self.windows = kept;
        assert(self@.registered =~= old(self)@.registered.remove(id));
    }

    /// Takes a notification from a window's observer. A host window has no
    /// observer and is refused; the loop state is then unchanged.
    pub fn receive_window(&mut self, window: &Window, n: WindowNotification) -> (r: Result<
        (),
        OsError,
    >)
        requires
            old(self).wf(),
        ensures
            final(self).wf(),
            window@ is Raw ==> r is Err && r->Err_0 is Unsupported && final(self)@ == old(self)@,
            window@ is Owned ==> r is Ok && final(self)@ == step(
                old(self)@,
                Arrival::Window {
                    window_id: window@->id,
                    checking_zoom: window@->checking_zoom,
                    notification: n,
                },
            ),
    {
        let (id, checking_zoom) = match window.observer_state() {
            None => return Err(OsError::Unsupported(RAW_HAS_NO_OBSERVER)),
            Some(s) => s,
        };
        let ghost a = Arrival::<T>::Window { window_id: id, checking_zoom, notification: n };
        if !self.is_registered(id.0) {
            return Ok(());
        }
        match window_event_for(checking_zoom, n) {
            Some(e) => self.queue.push(Event::WindowEvent { window_id: id, event: e }),
            None => {},
        }
        assert(self.queue@ =~= old(self)@.queue + emitted(old(self)@, a));
        match n {
            WindowNotification::WillClose => self.unregister(id.0),
            WindowNotification::ModifiersChanged(m) => self.modifiers = m,
            _ => {},
        }
        assert(self@ =~= step(old(self)@, a));
        Ok(())
    }

    /// Takes an application lifecycle notification. One that does not apply
    /// in the current state changes nothing.
    pub fn receive_app(&mut self, n: AppNotification)
        requires
            old(self).wf(),
        ensures
            final(self).wf(),
            final(self)@ == step(old(self)@, Arrival::App(n)),
    {
        let ghost a = Arrival::<T>::App(n);
        match next_lifecycle(self.lifecycle, n) {
            None => {},
            Some(s) => {
                self.lifecycle = s;
                match n {
                    AppNotification::DidFinishLaunching => {
                        self.aux = Some(self.pending_aux);
                        self.queue.push(Event::Resumed);
                    },
                    AppNotification::WillTerminate => self.queue.push(Event::LoopDestroyed),
                    _ => {},
                }
            },
        }
        assert(self@ =~= step(old(self)@, a));
    }

    /// Queues a payload sent to the loop by the application.
    pub fn send_event(&mut self, payload: T)
        requires
            old(self).wf(),
        ensures
            final(self).wf(),
            final(self)@ == step(old(self)@, Arrival::User(payload)),
    {
        self.queue.push(Event::UserEvent(payload));
        assert(self@ =~= step(old(self)@, Arrival::User(payload)));
    }

    /// Hands out the queued events, oldest first, and empties the queue.
    pub fn take_events(&mut self) -> (r: Vec<Event<T>>)
        requires
            old(self).wf(),
        ensures
            final(self).wf(),
            r@ == old(self)@.queue,
            final(self)@ == (LoopModel { queue: Seq::empty(), ..old(self)@ }),
    {
        let mut r: Vec<Event<T>> = Vec::new();
        std::mem::swap(&mut r, &mut self.queue);
        assert(self@ =~= (LoopModel { queue: Seq::empty(), ..old(self)@ }));
        r
    }
}

impl<T> EventLoopWindowTarget<T> {
    /// The application's lifecycle state.
    pub fn lifecycle(&self) -> (r: AppLifecycle)
        ensures
            r == self@.lifecycle,
    {
        self.lifecycle
    }

    /// The last modifier-key state reported.
    pub fn modifiers(&self) -> (r: u32)
        ensures
            r == self@.modifiers,
    {
        self.modifiers
    }

    /// The number of events waiting for the application.
    pub fn pending_events(&self) -> (r: usize)
        ensures
            r == self@.queue.len(),
    {
        self.queue.len()
    }

    /// The settings in force; `None` until launching has finished.
    pub fn aux_state(&self) -> (r: Option<AuxDelegateState>)
        ensures
            r == self@.aux,
    {
        self.aux
    }

    /// Replaces the settings in force. Refused, changing nothing, until
    /// launching has finished.
    pub fn set_aux_state(&mut self, aux: AuxDelegateState) -> (r: bool)
        requires
            old(self).wf(),
        ensures
            final(self).wf(),
            r == old(self)@.aux is Some,
            r ==> final(self)@ == (LoopModel { aux: Some(aux), ..old(self)@ }),
            !r ==> final(self)@ == old(self)@,
    {
        if self.aux.is_some() {
            self.aux = Some(aux);
            true
        } else {
            false
        }
    }

    /// Asks the loop to stop after the current step.
    pub fn request_exit(&mut self)
        requires
            old(self).wf(),
        ensures
            final(self).wf(),
            final(self)@ == (LoopModel { exit_requested: true, ..old(self)@ }),
    {
        self.exit_requested = true;
    }

    /// Whether the loop should stop: the application asked for it, or it is
    /// terminating.
    pub fn should_exit(&self) -> (r: bool)
        ensures
            r == (self@.exit_requested || self@.lifecycle == AppLifecycle::Terminating
                || self@.lifecycle == AppLifecycle::Terminated),
    {
        self.exit_requested || self.lifecycle == AppLifecycle::Terminating || self.lifecycle
            == AppLifecycle::Terminated
    }

    /// Records that the loop has returned.
    pub fn loop_exited(&mut self)
        requires
            old(self).wf(),
        ensures
            final(self).wf(),
            final(self)@ == (LoopModel { lifecycle: AppLifecycle::Terminated, ..old(self)@ }),
    {
        self.lifecycle = AppLifecycle::Terminated;
    }
}

/// A zoom notification that arrives while the window's observer is querying
/// the zoom state is the query's own echo: it changes nothing and queues no
/// event.
pub proof fn lemma_zoom_echo_suppressed<T>(
    m: LoopModel<T>,
    window_id: WindowId,
    width: i64,
    height: i64,
)
    ensures
        emitted(
            m,
            Arrival::Window {
                window_id,
                checking_zoom: true,
                notification: WindowNotification::Zoomed { width, height },
            },
        ).len() == 0,
        step(
            m,
            Arrival::Window {
                window_id,
                checking_zoom: true,
                notification: WindowNotification::Zoomed { width, height },
            },
        ) == m,
{
    let a = Arrival::<T>::Window {
        window_id,
        checking_zoom: true,
        notification: WindowNotification::Zoomed { width, height },
    };
    assert(m.queue + emitted(m, a) =~= m.queue);
    assert(step(m, a) =~= m);
}

/// A zoom notification outside a query, for a registered window, queues
/// exactly one resize event.
pub proof fn lemma_zoom_delivered_once<T>(
    m: LoopModel<T>,
    window_id: WindowId,
    width: i64,
    height: i64,
)
    requires
        m.registered.contains(window_id.0),
    ensures
        step(
            m,
            Arrival::Window {
                window_id,
                checking_zoom: false,
                notification: WindowNotification::Zoomed { width, height },
            },
        ).queue == m.queue.push(
            Event::WindowEvent { window_id, event: WindowEvent::Resized { width, height } },
        ),
{
    let a = Arrival::<T>::Window {
        window_id,
        checking_zoom: false,
        notification: WindowNotification::Zoomed { width, height },
    };
    assert(step(m, a).queue =~= m.queue.push(
        Event::WindowEvent { window_id, event: WindowEvent::Resized { width, height } },
    ));
}

} // verus!
