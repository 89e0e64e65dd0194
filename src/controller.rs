//! The controller: the activation state machine that consumes tray and menu
//! events, timer expiries and theme changes, and answers each with the
//! effects that the event loop is to carry out. Work that needs the OS (an
//! activation request, a commit to the preference store) is asked for in the
//! effects, and its outcome comes back as an event of its own.

use vstd::prelude::*;
use crate::display::{icon_for, icon_spec, label_for, label_spec, IconKind, Label, Theme};
use crate::keepawake::{request_flags, KeepAwake, KeepAwakeView};
use crate::preferences::{default_of, PrefKey, Preferences};

verus! {

/// The controller's top-level mode.
#[derive(Clone, Copy, Debug, PartialEq, Eq, Structural)]
pub enum Activation {
    Idle,
    Indefinite,
    /// Active until an expiry arrives; holds the scheduled duration in seconds.
    Timed(u64),
}

/// The mode that an activation request leads to once the OS grants it.
#[derive(Clone, Copy, Debug, PartialEq, Eq, Structural)]
pub enum Target {
    Indefinite,
    Timed(u64),
}

/// The leaves of the "Activate for" submenu.
#[derive(Clone, Copy, Debug, PartialEq, Eq, Structural)]
pub enum TimedChoice {
    Minutes30,
    Minutes45,
    Hour1,
    Hours2,
}

/// What the event loop hands to the controller.
#[derive(Clone, Copy, Debug, PartialEq, Eq, Structural)]
pub enum Event {
    /// The left mouse button was released over the tray icon.
    LeftClickUp,
    /// The primary "Activate" / "Deactivate" item was clicked.
    Primary,
    /// A leaf of the "Activate for" submenu was clicked.
    ActivateFor(TimedChoice),
    /// The OS answered an activation request: the target that was asked for,
    /// and the flags it returned (zero when it refused).
    Acquired(Target, u32),
    /// A preference check item was clicked.
    TogglePreference(PrefKey),
    /// A preference value was committed to the store.
    Committed(PrefKey, bool),
    /// The "Run at startup" item was clicked; holds whether the stored
    /// approval record reads as enabled.
    ToggleAutostart(bool),
    /// The desktop switched its colour scheme.
    ThemeChanged(Theme),
    /// A timer worker delivered its expiry.
    TimerExpired,
    /// The "Quit" item was clicked.
    Quit,
}

/// An activation request to pass to the OS.
#[derive(Clone, Copy, Debug, PartialEq, Eq, Structural)]
pub struct Request {
    pub flags: u32,
    pub target: Target,
}

/// What the event loop is to do after an event, in this order: reassert
/// `restore`, send `acquire` to the OS and hand back its answer, start a
/// timer worker for `schedule` seconds, commit `commit` and report it, write
/// the approval record `autostart`, redraw the tray if `refresh`, and leave
/// the loop if `exit`.
#[derive(Clone, Copy, Debug, PartialEq, Eq)]
pub struct Effects {
    pub acquire: Option<Request>,
    pub restore: Option<u32>,
    pub schedule: Option<u64>,
    pub commit: Option<(PrefKey, bool)>,
    pub autostart: Option<bool>,
    pub refresh: bool,
    pub exit: bool,
}

/// The controller as a value.
pub struct ControllerView {
    pub activation: Activation,
    pub theme: Theme,
    pub inhibitor: KeepAwakeView,
    pub prefs: Map<PrefKey, bool>,
    pub autostart: bool,
}

pub open spec fn choice_seconds(c: TimedChoice) -> u64 {
    match c {
        TimedChoice::Minutes30 => 1800,
        TimedChoice::Minutes45 => 2700,
        TimedChoice::Hour1 => 3600,
        TimedChoice::Hours2 => 7200,
    }
}

pub open spec fn target_activation(t: Target) -> Activation {
    match t {
        Target::Indefinite => Activation::Indefinite,
        Target::Timed(d) => Activation::Timed(d),
    }
}

pub open spec fn target_timer(t: Target) -> Option<u64> {
    match t {
        Target::Indefinite => None,
        Target::Timed(d) => Some(d),
    }
}

/// The value of a preference as the controller reads it: the committed one,
/// or the default where there is none.
pub open spec fn pref_value(prefs: Map<PrefKey, bool>, key: PrefKey) -> bool {
    if prefs.contains_key(key) {
        prefs[key]
    } else {
        default_of(key)
    }
}

pub open spec fn no_effects() -> Effects {
    Effects {
        acquire: None,
        restore: None,
        schedule: None,
        commit: None,
        autostart: None,
        refresh: false,
        exit: false,
    }
}

pub open spec fn redraw() -> Effects {
    Effects { refresh: true, ..no_effects() }
}

/// The inhibitor after the OS answered a request with `os_previous`.
pub open spec fn inhibitor_after_grant(k: KeepAwakeView, os_previous: u32) -> KeepAwakeView {
    if os_previous == 0 || k.engaged {
        k
    } else {
        KeepAwakeView {
            engaged: true,
            previous: os_previous,
            acquires: k.acquires + 1,
            releases: k.releases,
        }
    }
}

pub open spec fn inhibitor_after_release(k: KeepAwakeView) -> KeepAwakeView {
    if k.engaged {
        KeepAwakeView {
            engaged: false,
            previous: k.previous,
            acquires: k.acquires,
            releases: k.releases + 1,
        }
    } else {
        k
    }
}

impl ControllerView {
    /// The mode agrees with the inhibitor, and acquisitions and releases balance.
    pub open spec fn wf(self) -> bool {
        &&& self.inhibitor.balanced()
        &&& (self.activation != Activation::Idle <==> self.inhibitor.engaged)
    }

    pub open spec fn is_active(self) -> bool {
        self.activation != Activation::Idle
    }

    /// Back to `Idle`, restoring the saved flags where a request is in force.
    pub open spec fn deactivated(self) -> (ControllerView, Effects) {
        (
            ControllerView {
                activation: Activation::Idle,
                inhibitor: inhibitor_after_release(self.inhibitor),
                ..self
            },
            if self.inhibitor.engaged {
                Effects { restore: Some(self.inhibitor.previous), refresh: true, ..no_effects() }
            } else {
                Effects { refresh: true, ..no_effects() }
            },
        )
    }

    /// The primary toggle: from `Idle` ask for an indefinite activation,
    /// otherwise deactivate.
    pub open spec fn toggled(self) -> (ControllerView, Effects) {
        if self.activation == Activation::Idle {
            (
                self,
                Effects {
                    acquire: Some(Request { flags: request_flags(true), target: Target::Indefinite }),
                    ..no_effects()
                },
            )
        } else {
            self.deactivated()
        }
    }

    /// The controller's answer to one event: its next value and the effects.
    pub open spec fn next(self, ev: Event) -> (ControllerView, Effects) {
        match ev {
            Event::LeftClickUp => if pref_value(self.prefs, PrefKey::ToggleWithLeftClick) {
                self.toggled()
            } else {
                (self, no_effects())
            },
            Event::Primary => self.toggled(),
            Event::ActivateFor(c) => if self.activation == Activation::Idle {
                (
                    self,
                    Effects {
                        acquire: Some(
                            Request {
                                flags: request_flags(true),
                                target: Target::Timed(choice_seconds(c)),
                            },
                        ),
                        ..no_effects()
                    },
                )
            } else {
                (
                    ControllerView { activation: Activation::Timed(choice_seconds(c)), ..self },
                    Effects { schedule: Some(choice_seconds(c)), refresh: true, ..no_effects() },
                )
            },
            Event::Acquired(t, os_previous) => if os_previous == 0 {
                (self, no_effects())
            } else {
                (
                    ControllerView {
                        activation: target_activation(t),
                        inhibitor: inhibitor_after_grant(self.inhibitor, os_previous),
                        ..self
                    },
                    Effects { schedule: target_timer(t), refresh: true, ..no_effects() },
                )
            },
            Event::TogglePreference(k) => (
                self,
                Effects { commit: Some((k, !pref_value(self.prefs, k))), ..no_effects() },
            ),
            Event::Committed(k, b) => (
                ControllerView { prefs: self.prefs.insert(k, b), ..self },
                redraw(),
            ),
            Event::ToggleAutostart(now) => (
                ControllerView { autostart: !now, ..self },
                Effects { autostart: Some(!now), refresh: true, ..no_effects() },
            ),
            Event::ThemeChanged(t) => (ControllerView { theme: t, ..self }, redraw()),
            Event::TimerExpired => self.deactivated(),
            Event::Quit => (self.deactivated().0, Effects { exit: true, ..self.deactivated().1 }),
        }
    }
}

/// The controller's value at launch, and the effects of the launch: a redraw,
/// and an indefinite activation request where "run activated" is set.
pub open spec fn launch(prefs: Map<PrefKey, bool>, theme: Theme, autostart: bool) -> (
    ControllerView,
    Effects,
) {
    (
        ControllerView {
            activation: Activation::Idle,
            theme,
            inhibitor: KeepAwakeView { engaged: false, previous: 0, acquires: 0, releases: 0 },
            prefs,
            autostart,
        },
        Effects {
            acquire: if pref_value(prefs, PrefKey::RunActivated) {
                Some(Request { flags: request_flags(true), target: Target::Indefinite })
            } else {
                None
            },
            refresh: true,
            ..no_effects()
        },
    )
}

impl TimedChoice {
    /// The duration of the timed activation, in seconds.
    pub fn seconds(&self) -> (r: u64)
        ensures
            r == choice_seconds(*self),
    {
        match self {
            TimedChoice::Minutes30 => 1800,
            TimedChoice::Minutes45 => 2700,
            TimedChoice::Hour1 => 3600,
            TimedChoice::Hours2 => 7200,
        }
    }
}

fn quiet() -> (r: Effects)
    ensures
        r == no_effects(),
{
    Effects {
        acquire: None,
        restore: None,
        schedule: None,
        commit: None,
        autostart: None,
        refresh: false,
        exit: false,
    }
}

/// The state that the event loop threads through its iterations.
pub struct Controller {
    activation: Activation,
    theme: Theme,
    keepawake: KeepAwake,
    prefs: Preferences,
    autostart: bool,
}

impl View for Controller {
    type V = ControllerView;

    closed spec fn view(&self) -> ControllerView {
        ControllerView {
            activation: self.activation,
            theme: self.theme,
            inhibitor: self.keepawake@,
            prefs: self.prefs@,
            autostart: self.autostart,
        }
    }
}

impl Controller {
    /// Starts the controller in `Idle` over the preference table, the
    /// desktop theme, and whether the approval record reads as enabled.
    pub fn new(prefs: Preferences, theme: Theme, autostart_enabled: bool) -> (r: (Controller, Effects))
        ensures
            (r.0@, r.1) == launch(prefs@, theme, autostart_enabled),
            r.0@.wf(),
    {
        let run_activated = match prefs.load_preference(PrefKey::RunActivated) {
            Ok(v) => v,
            Err(_) => PrefKey::RunActivated.default_value(),
        };
        let c = Controller {
            activation: Activation::Idle,
            theme,
            keepawake: KeepAwake::new(),
            prefs,
            autostart: autostart_enabled,
        };
        let mut fx = quiet();
        fx.refresh = true;
        if run_activated {
            fx.acquire = Some(
                Request { flags: KeepAwake::activation_flags(true), target: Target::Indefinite },
            );
        }
        (c, fx)
    }

    fn preference(&self, key: PrefKey) -> (r: bool)
        ensures
            r == pref_value(self@.prefs, key),
    {
        match self.prefs.load_preference(key) {
            Ok(v) => v,
            Err(_) => key.default_value(),
        }
    }

    fn deactivate(&mut self) -> (r: Effects)
        ensures
            (final(self)@, r) == old(self)@.deactivated(),
    {
        self.activation = Activation::Idle;
        let mut fx = quiet();
        fx.refresh = true;
        fx.restore = self.keepawake.release();
        fx
    }

    fn toggle(&mut self) -> (r: Effects)
        ensures
            (final(self)@, r) == old(self)@.toggled(),
    {
        if self.activation == Activation::Idle {
            let mut fx = quiet();
            fx.acquire = Some(
                Request { flags: KeepAwake::activation_flags(true), target: Target::Indefinite },
            );
            fx
        } else {
            self.deactivate()
        }
    }

    /// Consumes one event and returns what the event loop is to do.
    pub fn handle(&mut self, ev: Event) -> (r: Effects)
        ensures
            (final(self)@, r) == old(self)@.next(ev),
            old(self)@.wf() ==> final(self)@.wf(),
    {
        let r = match ev {
            Event::LeftClickUp => {
                if self.preference(PrefKey::ToggleWithLeftClick) {
                    self.toggle()
                } else {
                    quiet()
                }
            },
            Event::Primary => self.toggle(),
            Event::ActivateFor(c) => {
                let mut fx = quiet();
                if self.activation == Activation::Idle {
                    fx.acquire = Some(
                        Request {
                            flags: KeepAwake::activation_flags(true),
                            target: Target::Timed(c.seconds()),
                        },
                    );
                } else {
                    self.activation = Activation::Timed(c.seconds());
                    fx.schedule = Some(c.seconds());
                    fx.refresh = true;
                }
                fx
            },
            Event::Acquired(t, os_previous) => {
                let mut fx = quiet();
                if os_previous != 0 {
                    let _ = self.keepawake.activate(os_previous);
                    match t {
                        Target::Indefinite => {
                            self.activation = Activation::Indefinite;
                        },
                        Target::Timed(d) => {
                            self.activation = Activation::Timed(d);
                            fx.schedule = Some(d);
                        },
                    }
                    fx.refresh = true;
                }
                fx
            },
            Event::TogglePreference(k) => {
                let mut fx = quiet();
                fx.commit = Some((k, !self.preference(k)));
                fx
            },
            Event::Committed(k, b) => {
                self.prefs.save_preference(k, b);
                let mut fx = quiet();
                fx.refresh = true;
                fx
            },
            Event::ToggleAutostart(now) => {
                self.autostart = !now;
                let mut fx = quiet();
                fx.autostart = Some(!now);
                fx.refresh = true;
                fx
            },
            Event::ThemeChanged(t) => {
                self.theme = t;
                let mut fx = quiet();
                fx.refresh = true;
                fx
            },
            Event::TimerExpired => self.deactivate(),
            Event::Quit => {
                let mut fx = self.deactivate();
                fx.exit = true;
                fx
            },
        };
        r
    }

    /// The tray icon for the current mode and theme; `None` leaves it as it is.
    pub fn icon(&self) -> (r: Option<IconKind>)
        ensures
            r == icon_spec(self@.theme, self@.is_active()),
    {
        icon_for(self.theme, self.activation != Activation::Idle)
    }

    /// The primary menu item's text: "Deactivate" exactly when not `Idle`.
    pub fn label(&self) -> (r: Label)
        ensures
            r == label_spec(self@.is_active()),
            r == Label::Deactivate <==> self@.activation != Activation::Idle,
    {
        label_for(self.activation != Activation::Idle)
    }

    pub fn activation(&self) -> (r: Activation)
        ensures
            r == self@.activation,
    {
        self.activation
    }

    pub fn theme(&self) -> (r: Theme)
        ensures
            r == self@.theme,
    {
        self.theme
    }

    /// Whether an activation request is in force with the OS.
    pub fn is_engaged(&self) -> (r: bool)
        ensures
            r == self@.inhibitor.engaged,
    {
        self.keepawake.is_engaged()
    }

    /// Whether a preference's check item is to be shown checked.
    pub fn is_checked(&self, key: PrefKey) -> (r: bool)
        ensures
            r == pref_value(self@.prefs, key),
    {
        self.preference(key)
    }

    /// Whether the "Run at startup" item is to be shown checked.
    pub fn autostart_checked(&self) -> (r: bool)
        ensures
            r == self@.autostart,
    {
        self.autostart
    }
}

/// The controller's value after a series of events, in order.
pub open spec fn run(v: ControllerView, evs: Seq<Event>) -> ControllerView
    decreases evs.len(),
{
    if evs.len() == 0 {
        v
    } else {
        run(v, evs.drop_last()).next(evs.last()).0
    }
}

/// Every event keeps the mode in agreement with the inhibitor and keeps
/// acquisitions and releases balanced. A release is asked for exactly when a
/// request was in force and is ended, so the saved flags are never restored twice.
pub proof fn lemma_step_balanced(v: ControllerView, ev: Event)
    requires
        v.wf(),
    ensures
        v.next(ev).0.wf(),
        v.next(ev).1.restore is Some <==> (v.inhibitor.engaged && !v.next(ev).0.inhibitor.engaged),
        v.next(ev).1.restore is Some ==> v.next(ev).1.restore == Some(v.inhibitor.previous),
        v.next(ev).0.inhibitor.releases == v.inhibitor.releases + if v.next(ev).1.restore is Some {
            1nat
        } else {
            0nat
        },
{
}

/// Over any series of events from launch, acquisitions and releases stay
/// balanced; once the series ends with `Quit`, every acquisition has been
/// matched by exactly one release.
pub proof fn lemma_run_balanced(prefs: Map<PrefKey, bool>, theme: Theme, autostart: bool, evs: Seq<Event>)
    ensures
        run(launch(prefs, theme, autostart).0, evs).wf(),
        evs.len() > 0 && evs.last() == Event::Quit ==> run(launch(prefs, theme, autostart).0, evs).inhibitor.acquires
            == run(launch(prefs, theme, autostart).0, evs).inhibitor.releases,
    decreases evs.len(),
{
    if evs.len() > 0 {
        lemma_run_balanced(prefs, theme, autostart, evs.drop_last());
        lemma_step_balanced(run(launch(prefs, theme, autostart).0, evs.drop_last()), evs.last());
    }
}

/// Once an expiry is consumed the controller is `Idle`, no request is in
/// force, and the flags saved by an activation in force were handed back.
pub proof fn lemma_expiry_idles(v: ControllerView)
    requires
        v.wf(),
    ensures
        v.next(Event::TimerExpired).0.activation == Activation::Idle,
        !v.next(Event::TimerExpired).0.inhibitor.engaged,
        v.inhibitor.engaged ==> v.next(Event::TimerExpired).1.restore == Some(v.inhibitor.previous),
{
}

/// An expiry that arrives in `Idle` changes nothing and restores nothing.
pub proof fn lemma_stale_expiry(v: ControllerView)
    requires
        v.wf(),
        v.activation == Activation::Idle,
    ensures
        v.next(Event::TimerExpired).0 == v,
        v.next(Event::TimerExpired).1.restore is None,
{
}

/// With "toggle with left-click" off, a left click does nothing, while the
/// primary item still asks for an activation in `Idle` and deactivates otherwise.
pub proof fn lemma_left_click_gate(v: ControllerView)
    requires
        v.wf(),
        !pref_value(v.prefs, PrefKey::ToggleWithLeftClick),
    ensures
        v.next(Event::LeftClickUp) == (v, no_effects()),
        v.activation == Activation::Idle ==> v.next(Event::Primary).1.acquire == Some(
            Request { flags: request_flags(true), target: Target::Indefinite },
        ),
        v.activation != Activation::Idle ==> v.next(Event::Primary).0.activation == Activation::Idle
            && !v.next(Event::Primary).0.inhibitor.engaged,
{
}

/// A theme change keeps the mode and swaps the icon per the theme table.
pub proof fn lemma_theme_change(v: ControllerView, theme: Theme)
    ensures
        v.next(Event::ThemeChanged(theme)).0.activation == v.activation,
        v.next(Event::ThemeChanged(theme)).0.inhibitor == v.inhibitor,
        v.next(Event::ThemeChanged(theme)).1.refresh,
        icon_spec(v.next(Event::ThemeChanged(theme)).0.theme, v.is_active()) == icon_spec(
            theme,
            v.is_active(),
        ),
{
}

} // verus!
