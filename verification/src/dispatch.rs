//! The edge classifier and dispatcher: raw pedal codes become debounced
//! press and release edges of three logical buttons, and the edges become
//! transport operations.

use vstd::prelude::*;
use vstd::string::*;
use crate::audio::{elapsed_micros, Player, SinkCommand};
use crate::config::{ApplicationConfig, RoleCodes};
use crate::pedal::{PedalEvent, PedalMsg, PedalStatus, VALUE_PRESS, VALUE_RELEASE};

verus! {

/// One of the three logical buttons.
#[derive(Debug, Clone, Copy, PartialEq, Eq, Structural)]
pub enum Button {
    Left,
    Right,
    Middle,
}

/// A debounced change of one logical button.
#[derive(Debug, Clone, Copy, PartialEq, Eq, Structural)]
pub enum Edge {
    Press(Button),
    Release(Button),
}

/// The classifier's state: the code of each role, whether each button is
/// down, and the clock reading of the last repeated rewind while the left
/// button is held.
#[derive(Debug, Clone, Copy, PartialEq, Eq, Structural)]
pub struct PedalDispatcher {
    pub left_code: u32,
    pub right_code: u32,
    pub middle_code: u32,
    pub left_pressed: bool,
    pub right_pressed: bool,
    pub middle_pressed: bool,
    /// `None` while the left button is up, and while it is down with the
    /// first repeat still to come.
    pub hold_last_tick: Option<u64>,
}

/// What the caller has to do after an event or a tick.
#[derive(Debug, Clone, Copy, PartialEq, Eq, Structural)]
pub struct Dispatch {
    /// What to do to the output sink.
    pub command: SinkCommand,
    /// Whether the archive dialog is asked for.
    pub archive_requested: bool,
}

/// What the caller has to do after a message of the scanner.
#[derive(Debug)]
pub struct MsgOutcome {
    pub dispatch: Dispatch,
    /// The status to show from now on, if the message brought one.
    pub status: Option<PedalStatus>,
    /// An error to show to the operator, if the message brought one.
    pub notice: Option<String>,
}

/// A signed number of seconds backwards.
pub open spec fn back(seconds: u32) -> i64 {
    (-(seconds as int)) as i64
}

/// The transport after a press of the right button: a short rewind from the
/// position reached, then playback from there.
pub open spec fn player_after_play_press(p: Player, app: ApplicationConfig, now: u64) -> Player {
    let rewound = p.sought(back(app.play_start_rewind_seconds), now);
    rewound.started_from(rewound.content_index, now)
}

/// The transport after an edge.
pub open spec fn player_after(edge: Option<Edge>, p: Player, app: ApplicationConfig, now: u64)
    -> Player {
    match edge {
        Some(Edge::Press(Button::Right)) => player_after_play_press(p, app, now),
        Some(Edge::Release(Button::Right)) => p.paused(now),
        Some(Edge::Press(Button::Middle)) => p.paused(now),
        _ => p,
    }
}

/// What an edge asks of the caller.
pub open spec fn dispatch_after(edge: Option<Edge>, p: Player, app: ApplicationConfig, now: u64)
    -> Dispatch {
    match edge {
        Some(Edge::Press(Button::Right)) => Dispatch {
            command: if p.audio.is_some() {
                SinkCommand::Rebind(player_after_play_press(p, app, now).source())
            } else {
                SinkCommand::Keep
            },
            archive_requested: false,
        },
        Some(Edge::Release(Button::Right)) => Dispatch {
            command: if p.playing {
                SinkCommand::Stop
            } else {
                SinkCommand::Keep
            },
            archive_requested: false,
        },
        Some(Edge::Press(Button::Middle)) => Dispatch {
            command: if p.playing {
                SinkCommand::Stop
            } else {
                SinkCommand::Keep
            },
            archive_requested: true,
        },
        _ => Dispatch { command: SinkCommand::Keep, archive_requested: false },
    }
}

/// Whether a repeated rewind is due at `now`: at once after the press, and
/// then whenever the interval has passed since the last one.
pub open spec fn repeat_due(last: Option<u64>, interval_ms: u64, now: u64) -> bool {
    match last {
        Some(at) => elapsed_micros(at, now) >= interval_ms as nat * 1000,
        None => true,
    }
}

/// The rewinds made by `count` ticks of which the first comes at `first` and
/// each of the others `step` after the one before it.
pub open spec fn rewinds_over(
    d: PedalDispatcher,
    app: ApplicationConfig,
    first: int,
    step: int,
    count: nat,
) -> nat
    decreases count,
{
    if count == 0 {
        0
    } else {
        let now = first as u64;
        let here: nat = if d.rewinds_at(app, now) {
            1
        } else {
            0
        };
        here + rewinds_over(d.after_tick(app, now), app, first + step, step, (count - 1) as nat)
    }
}

impl PedalDispatcher {
    /// The button that a key code stands for. Where one code is given to
    /// several roles, right goes before left and left before middle.
    pub open spec fn role_of(&self, code: u32) -> Option<Button> {
        if code == self.right_code {
            Some(Button::Right)
        } else if code == self.left_code {
            Some(Button::Left)
        } else if code == self.middle_code {
            Some(Button::Middle)
        } else {
            None
        }
    }

    /// Whether a button is down.
    pub open spec fn is_down(&self, button: Button) -> bool {
        match button {
            Button::Left => self.left_pressed,
            Button::Right => self.right_pressed,
            Button::Middle => self.middle_pressed,
        }
    }

    /// The edge that an event makes: a press of a mapped button that is up,
    /// or a release of one that is down. Anything else makes none: an
    /// unmapped code, a value that is neither press nor release, a press of a
    /// button already down, a release of one already up.
    pub open spec fn edge_of(&self, ev: PedalEvent) -> Option<Edge> {
        match self.role_of(ev.code) {
            Some(button) => if ev.value == VALUE_PRESS && !self.is_down(button) {
                Some(Edge::Press(button))
            } else if ev.value == VALUE_RELEASE && self.is_down(button) {
                Some(Edge::Release(button))
            } else {
                None
            },
            None => None,
        }
    }

    /// The state after an edge. Either edge of the left button disarms the
    /// repeat clock, so that the first tick of a hold rewinds at once.
    pub open spec fn after_edge(self, edge: Option<Edge>) -> PedalDispatcher {
        match edge {
            Some(Edge::Press(Button::Right)) => PedalDispatcher { right_pressed: true, ..self },
            Some(Edge::Release(Button::Right)) => PedalDispatcher { right_pressed: false, ..self },
            Some(Edge::Press(Button::Left)) => PedalDispatcher {
                left_pressed: true,
                hold_last_tick: None,
                ..self
            },
            Some(Edge::Release(Button::Left)) => PedalDispatcher {
                left_pressed: false,
                hold_last_tick: None,
                ..self
            },
            Some(Edge::Press(Button::Middle)) => PedalDispatcher { middle_pressed: true, ..self },
            Some(Edge::Release(Button::Middle)) => PedalDispatcher {
                middle_pressed: false,
                ..self
            },
            None => self,
        }
    }

    /// The state after an event.
    pub open spec fn after_event(self, ev: PedalEvent) -> PedalDispatcher {
        self.after_edge(self.edge_of(ev))
    }

    /// Whether a tick at `now` rewinds.
    pub open spec fn rewinds_at(&self, app: ApplicationConfig, now: u64) -> bool {
        self.left_pressed && repeat_due(self.hold_last_tick, app.hold_rewind_interval_ms, now)
    }

    /// The state after a tick at `now`.
    pub open spec fn after_tick(self, app: ApplicationConfig, now: u64) -> PedalDispatcher {
        if self.rewinds_at(app, now) {
            PedalDispatcher { hold_last_tick: Some(now), ..self }
        } else {
            self
        }
    }

    /// A dispatcher with all buttons up.
    pub fn new(codes: RoleCodes) -> (d: PedalDispatcher)
        ensures
            d == (PedalDispatcher {
                left_code: codes.left,
                right_code: codes.right,
                middle_code: codes.middle,
                left_pressed: false,
                right_pressed: false,
                middle_pressed: false,
                hold_last_tick: None,
            }),
    {
        PedalDispatcher {
            left_code: codes.left,
            right_code: codes.right,
            middle_code: codes.middle,
            left_pressed: false,
            right_pressed: false,
            middle_pressed: false,
            hold_last_tick: None,
        }
    }

    /// Turns a raw event into a debounced edge and records it.
    pub fn classify(&mut self, ev: PedalEvent) -> (edge: Option<Edge>)
        ensures
            edge == old(self).edge_of(ev),
            *final(self) == old(self).after_event(ev),
    {
        if ev.value != VALUE_PRESS && ev.value != VALUE_RELEASE {
            return None;
        }
        let is_press = ev.value == VALUE_PRESS;
        if ev.code == self.right_code {
            if is_press && !self.right_pressed {
                self.right_pressed = true;
                Some(Edge::Press(Button::Right))
            } else if !is_press && self.right_pressed {
                self.right_pressed = false;
                Some(Edge::Release(Button::Right))
            } else {
                None
            }
        } else if ev.code == self.left_code {
            if is_press && !self.left_pressed {
                self.left_pressed = true;
                self.hold_last_tick = None;
                Some(Edge::Press(Button::Left))
            } else if !is_press && self.left_pressed {
                self.left_pressed = false;
                self.hold_last_tick = None;
                Some(Edge::Release(Button::Left))
            } else {
                None
            }
        } else if ev.code == self.middle_code {
            if is_press && !self.middle_pressed {
                self.middle_pressed = true;
                Some(Edge::Press(Button::Middle))
            } else if !is_press && self.middle_pressed {
                self.middle_pressed = false;
                Some(Edge::Release(Button::Middle))
            } else {
                None
            }
        } else {
            None
        }
    }

    /// Handles one raw event: right press rewinds a little and plays, right
    /// release pauses, middle press pauses and asks for the archive dialog,
    /// the left button only arms and disarms the repeated rewind.
    pub fn handle_pedal_event(
        &mut self,
        player: &mut Player,
        ev: PedalEvent,
        app: &ApplicationConfig,
        now: u64,
    ) -> (out: Dispatch)
        ensures
            *final(self) == old(self).after_event(ev),
            *final(player) == player_after(old(self).edge_of(ev), *old(player), *app, now),
            out == dispatch_after(old(self).edge_of(ev), *old(player), *app, now),
            old(player).wf() ==> final(player).wf(),
    {
        let edge = self.classify(ev);
        match edge {
            Some(Edge::Press(Button::Right)) => {
                let rewind: i64 = -(app.play_start_rewind_seconds as i64);
                let _ = player.seek_seconds(rewind, now);
                let command = player.play_from_current(now);
                Dispatch { command, archive_requested: false }
            },
            Some(Edge::Release(Button::Right)) => {
                let command = player.pause(now);
                Dispatch { command, archive_requested: false }
            },
            Some(Edge::Press(Button::Middle)) => {
                let command = player.pause(now);
                Dispatch { command, archive_requested: true }
            },
            _ => Dispatch { command: SinkCommand::Keep, archive_requested: false },
        }
    }

    /// The periodic tick: while the left button is held and a repeat is due,
    /// rewinds by the configured amount and restarts the repeat clock.
    pub fn tick_hold_rewind(&mut self, player: &mut Player, app: &ApplicationConfig, now: u64) -> (rewound:
        Option<SinkCommand>)
        ensures
            *final(self) == old(self).after_tick(*app, now),
            rewound.is_some() == old(self).rewinds_at(*app, now),
            *final(player) == if old(self).rewinds_at(*app, now) {
                old(player).sought(back(app.rewind_seconds), now)
            } else {
                *old(player)
            },
            rewound matches Some(cmd) ==> cmd == if old(player).audio.is_some() && old(player).playing {
                SinkCommand::Rebind(final(player).source())
            } else {
                SinkCommand::Keep
            },
            old(player).wf() ==> final(player).wf(),
    {
        if !self.left_pressed {
            return None;
        }
        let due = match self.hold_last_tick {
            Some(at) => {
                let elapsed: u64 = if now >= at {
                    now - at
                } else {
                    0
                };
                (elapsed as u128) >= (app.hold_rewind_interval_ms as u128) * 1000
            },
            None => true,
        };
        if due {
            let rewind: i64 = -(app.rewind_seconds as i64);
            let command = player.seek_seconds(rewind, now);
            self.hold_last_tick = Some(now);
            Some(command)
        } else {
            None
        }
    }

    /// Handles one message of the scanner: a status is handed on for display,
    /// an error status with a notice for the operator; a disconnect pauses
    /// the transport at once and gives notice; an input event is dispatched.
    pub fn handle_pedal_msg(
        &mut self,
        player: &mut Player,
        msg: PedalMsg,
        app: &ApplicationConfig,
        now: u64,
    ) -> (out: MsgOutcome)
        ensures
            match msg {
                PedalMsg::Status(s) => {
                    &&& *final(self) == *old(self)
                    &&& *final(player) == *old(player)
                    &&& out.dispatch == (Dispatch {
                        command: SinkCommand::Keep,
                        archive_requested: false,
                    })
                    &&& out.status == Some(s)
                    &&& match s {
                        PedalStatus::Error(e) => out.notice matches Some(n) && n@ == "Pedal error: "@
                            + e@,
                        _ => out.notice.is_none(),
                    }
                },
                PedalMsg::Disconnected => {
                    &&& *final(self) == *old(self)
                    &&& *final(player) == old(player).paused(now)
                    &&& out.dispatch == (Dispatch {
                        command: if old(player).playing {
                            SinkCommand::Stop
                        } else {
                            SinkCommand::Keep
                        },
                        archive_requested: false,
                    })
                    &&& out.status.is_none()
                    &&& out.notice matches Some(n) && n@ == "Pedal disconnected"@
                },
                PedalMsg::Input(ev) => {
                    &&& *final(self) == old(self).after_event(ev)
                    &&& *final(player) == player_after(old(self).edge_of(ev), *old(player), *app, now)
                    &&& out.dispatch == dispatch_after(old(self).edge_of(ev), *old(player), *app, now)
                    &&& out.status.is_none()
                    &&& out.notice.is_none()
                },
            },
            old(player).wf() ==> final(player).wf(),
    {
        match msg {
            PedalMsg::Status(s) => {
                let notice = match &s {
                    PedalStatus::Error(e) => {
                        let mut text = String::from_str("Pedal error: ");
                        text.append(e.as_str());
                        Some(text)
                    },
                    _ => None,
                };
                MsgOutcome {
                    dispatch: Dispatch { command: SinkCommand::Keep, archive_requested: false },
                    status: Some(s),
                    notice,
                }
            },
            PedalMsg::Disconnected => {
                let command = player.pause(now);
                MsgOutcome {
                    dispatch: Dispatch { command, archive_requested: false },
                    status: None,
                    notice: Some(String::from_str("Pedal disconnected")),
                }
            },
            PedalMsg::Input(ev) => {
                let dispatch = self.handle_pedal_event(player, ev, app, now);
                MsgOutcome { dispatch, status: None, notice: None }
            },
        }
    }
}

/// A second press of a button that is already down does nothing: it makes no
/// edge and leaves the state as the first press left it.
pub proof fn law_duplicate_press_ignored(d: PedalDispatcher, first: PedalEvent, second: PedalEvent)
    requires
        first.value == VALUE_PRESS,
        second.value == VALUE_PRESS,
        d.role_of(first.code).is_some(),
        d.role_of(second.code) == d.role_of(first.code),
    ensures
        d.after_event(first).edge_of(second).is_none(),
        d.after_event(first).after_event(second) == d.after_event(first),
{
}

/// Edges of one button alternate: a press edge leaves the button down, so
/// that only a release can make its next edge, and a release edge leaves it
/// up, so that only a press can.
pub proof fn law_edges_alternate(d: PedalDispatcher, ev: PedalEvent, next: PedalEvent, b: Button)
    requires
        d.edge_of(ev) == Some(Edge::Press(b)) || d.edge_of(ev) == Some(Edge::Release(b)),
        d.role_of(next.code) == Some(b),
    ensures
        d.edge_of(ev) == Some(Edge::Press(b)) ==> d.after_event(ev).is_down(b) && d.after_event(
            ev,
        ).edge_of(next) != Some(Edge::Press(b)),
        d.edge_of(ev) == Some(Edge::Release(b)) ==> !d.after_event(ev).is_down(b) && d.after_event(
            ev,
        ).edge_of(next) != Some(Edge::Release(b)),
{
}

/// An event whose value is neither press nor release, such as a repeat made
/// by the operating system, makes no edge, whatever the code and the state:
/// the classifier, the transport and the sink stay as they are.
pub proof fn law_other_values_inert(
    d: PedalDispatcher,
    ev: PedalEvent,
    p: Player,
    app: ApplicationConfig,
    now: u64,
)
    requires
        ev.value != VALUE_PRESS,
        ev.value != VALUE_RELEASE,
    ensures
        d.edge_of(ev).is_none(),
        d.after_event(ev) == d,
        player_after(d.edge_of(ev), p, app, now) == p,
        dispatch_after(d.edge_of(ev), p, app, now) == (Dispatch {
            command: SinkCommand::Keep,
            archive_requested: false,
        }),
{
}

/// While the left button stays down, a rewind at `at` is followed by no
/// rewind before the interval has passed, and by one at any tick that comes
/// when it has, the very end of the interval included.
pub proof fn law_repeat_spacing(d: PedalDispatcher, app: ApplicationConfig, at: u64, tick: u64)
    requires
        d.rewinds_at(app, at),
        at <= tick,
    ensures
        d.after_tick(app, at).rewinds_at(app, tick) == (tick - at
            >= app.hold_rewind_interval_ms as nat * 1000),
{
}

/// Holding the left button for three intervals, with a tick every half
/// interval, rewinds exactly three times: of the six ticks that fall into the
/// hold, whenever the first of them comes, the first, the third and the
/// fifth rewind. The interval has to be longer than nothing.
pub proof fn law_three_intervals_three_rewinds(
    d: PedalDispatcher,
    app: ApplicationConfig,
    first_tick: u64,
    half_interval_us: u64,
)
    requires
        d.left_pressed,
        d.hold_last_tick.is_none(),
        app.hold_rewind_interval_ms > 0,
        half_interval_us == app.hold_rewind_interval_ms * 500,
        first_tick + 5 * half_interval_us <= u64::MAX,
    ensures
        rewinds_over(d, app, first_tick as int, half_interval_us as int, 6) == 3,
{
    let h = half_interval_us as int;
    let t0 = first_tick as int;
    let d1 = d.after_tick(app, first_tick);
    let d2 = d1.after_tick(app, (t0 + h) as u64);
    let d3 = d2.after_tick(app, (t0 + 2 * h) as u64);
    let d4 = d3.after_tick(app, (t0 + 3 * h) as u64);
    let d5 = d4.after_tick(app, (t0 + 4 * h) as u64);
    let d6 = d5.after_tick(app, (t0 + 5 * h) as u64);
    assert(d.rewinds_at(app, first_tick));
    assert(!d1.rewinds_at(app, (t0 + h) as u64));
    assert(d2.rewinds_at(app, (t0 + 2 * h) as u64));
    assert(!d3.rewinds_at(app, (t0 + 3 * h) as u64));
    assert(d4.rewinds_at(app, (t0 + 4 * h) as u64));
    assert(!d5.rewinds_at(app, (t0 + 5 * h) as u64));
    assert(rewinds_over(d6, app, t0 + 6 * h, h, 0) == 0);
    assert(rewinds_over(d5, app, t0 + 5 * h, h, 1) == 0);
    assert(rewinds_over(d4, app, t0 + 4 * h, h, 2) == 1);
    assert(rewinds_over(d3, app, t0 + 3 * h, h, 3) == 1);
    assert(rewinds_over(d2, app, t0 + 2 * h, h, 4) == 2);
    assert(rewinds_over(d1, app, t0 + h, h, 5) == 2);
}

} // verus!
