use crate::config::TriggerType;
use crate::text::same_text;
use vstd::prelude::*;

verus! {

/// The five buttons a hotkey can name.
#[derive(Clone, Copy, Debug, PartialEq, Eq, Structural)]
pub enum Button {
    Left,
    Right,
    Middle,
    /// The first side button.
    X1,
    /// The second side button.
    X2,
}

/// Which of the five buttons are down at one moment.
#[derive(Clone, Copy, Debug, PartialEq, Eq, Structural)]
pub struct ButtonStates {
    pub left: bool,
    pub right: bool,
    pub middle: bool,
    pub x1: bool,
    pub x2: bool,
}

/// The lower-case form of a text by the rules of Unicode, as
/// `str::to_lowercase` gives it.
pub uninterp spec fn unicode_lowercase(s: Seq<char>) -> Seq<char>;

/// The button that a hotkey name stands for. Names are matched as they are,
/// letter for letter; a name outside this list stands for no button.
pub open spec fn button_named(name: Seq<char>) -> Option<Button> {
    if name == "x1"@ || name == "mouse_x1"@ || name == "侧键1"@ {
        Some(Button::X1)
    } else if name == "x2"@ || name == "mouse_x2"@ || name == "侧键2"@ {
        Some(Button::X2)
    } else if name == "left"@ || name == "左键"@ {
        Some(Button::Left)
    } else if name == "right"@ || name == "右键"@ {
        Some(Button::Right)
    } else if name == "middle"@ || name == "中键"@ {
        Some(Button::Middle)
    } else {
        None
    }
}

/// Whether a button is down.
pub open spec fn is_down(button: Button, states: ButtonStates) -> bool {
    match button {
        Button::Left => states.left,
        Button::Right => states.right,
        Button::Middle => states.middle,
        Button::X1 => states.x1,
        Button::X2 => states.x2,
    }
}

/// Whether the hotkey of that name is down. A name that stands for no button
/// is never down.
pub open spec fn hotkey_down(name: Seq<char>, states: ButtonStates) -> bool {
    match button_named(name) {
        Some(b) => is_down(b, states),
        None => false,
    }
}

/// The first button that is down, in the order left, right, middle, first
/// side button, second side button.
pub open spec fn first_down(states: ButtonStates) -> Option<Button> {
    if states.left {
        Some(Button::Left)
    } else if states.right {
        Some(Button::Right)
    } else if states.middle {
        Some(Button::Middle)
    } else if states.x1 {
        Some(Button::X1)
    } else if states.x2 {
        Some(Button::X2)
    } else {
        None
    }
}

/// The name under which a button is stored as the hotkey.
pub open spec fn name_of(button: Button) -> Seq<char> {
    match button {
        Button::Left => "left"@,
        Button::Right => "right"@,
        Button::Middle => "middle"@,
        Button::X1 => "x1"@,
        Button::X2 => "x2"@,
    }
}

/// The milliseconds from `last` to `now`; zero where `now` is the earlier.
pub open spec fn elapsed_ms(last: u64, now: u64) -> int {
    if now >= last {
        now - last
    } else {
        0
    }
}

/// The cooldown has run out: at least `cooldown_ms` have passed since `last`.
pub open spec fn cooled_down(last: u64, now: u64, cooldown_ms: u64) -> bool {
    elapsed_ms(last, now) >= cooldown_ms
}

/// Whether the trigger is armed: in hold mode while the key is down, in
/// toggle mode while the toggle is on.
pub open spec fn armed(trigger: TriggerType, pressed: bool, toggle: bool) -> bool {
    match trigger {
        TriggerType::Hold => pressed,
        TriggerType::Toggle => toggle,
    }
}

/// The toggle after one sample of the key: it flips on a press edge, that is
/// where the key was up and is down now, and on nothing else.
pub open spec fn toggle_after(was_pressed: bool, toggle: bool, pressed: bool) -> bool {
    if !was_pressed && pressed {
        !toggle
    } else {
        toggle
    }
}

/// The listener as contracts see it.
pub ghost struct ListenerView {
    /// The poller is meant to run.
    pub running: bool,
    /// The hotkey was down at the last sample.
    pub pressed: bool,
    /// The hotkey's name, in lower case.
    pub hotkey: Seq<char>,
    /// When the trigger last fired, in milliseconds.
    pub last_trigger: u64,
    /// A new hotkey is being captured.
    pub capturing: bool,
    /// The name of the key that the capture found.
    pub captured: Option<Seq<char>>,
    /// The toggle.
    pub toggle: bool,
}

/// The buttons are read by one consumer at a time: the poller does not run
/// while a new hotkey is being captured.
pub open spec fn exclusive(v: ListenerView) -> bool {
    !(v.running && v.capturing)
}

/// The state of a fresh listener made at `now_ms`.
pub open spec fn fresh_listener(now_ms: u64) -> ListenerView {
    ListenerView {
        running: false,
        pressed: false,
        hotkey: "x1"@,
        last_trigger: now_ms,
        capturing: false,
        captured: None,
        toggle: false,
    }
}

/// Tracks the hotkey, the toggle and the time of the last trigger. Time comes
/// in from the caller as milliseconds of a clock that does not run backwards.
#[derive(Debug)]
pub struct InputListener {
    running: bool,
    hotkey_pressed: bool,
    hotkey_name: String,
    last_trigger: u64,
    capturing: bool,
    captured_key: Option<String>,
    toggle_state: bool,
}

impl View for InputListener {
    type V = ListenerView;

    closed spec fn view(&self) -> ListenerView {
        ListenerView {
            running: self.running,
            pressed: self.hotkey_pressed,
            hotkey: self.hotkey_name@,
            last_trigger: self.last_trigger,
            capturing: self.capturing,
            captured: match self.captured_key {
                Some(k) => Some(k@),
                None => None,
            },
            toggle: self.toggle_state,
        }
    }
}

/// `str::to_lowercase` of std: the result is the argument's lower-case form by
/// the rules of Unicode. Nothing is proved of it; the contract gives the
/// result its name.
#[verifier::external_body]
fn to_lowercase(name: &str) -> (lower: String)
    ensures
        lower@ == unicode_lowercase(name@),
{
    name.to_lowercase()
}

/// The button that a hotkey name stands for.
pub fn button_for(name: &str) -> (b: Option<Button>)
    ensures
        b == button_named(name@),
{
    if same_text(name, "x1") || same_text(name, "mouse_x1") || same_text(name, "侧键1") {
        Some(Button::X1)
    } else if same_text(name, "x2") || same_text(name, "mouse_x2") || same_text(name, "侧键2") {
        Some(Button::X2)
    } else if same_text(name, "left") || same_text(name, "左键") {
        Some(Button::Left)
    } else if same_text(name, "right") || same_text(name, "右键") {
        Some(Button::Right)
    } else if same_text(name, "middle") || same_text(name, "中键") {
        Some(Button::Middle)
    } else {
        None
    }
}

/// Whether a button is down.
pub fn button_down(button: Button, states: &ButtonStates) -> (down: bool)
    ensures
        down == is_down(button, *states),
{
    match button {
        Button::Left => states.left,
        Button::Right => states.right,
        Button::Middle => states.middle,
        Button::X1 => states.x1,
        Button::X2 => states.x2,
    }
}

impl InputListener {
    /// A listener made at `now_ms`: not running, nothing pressed, the first
    /// side button as hotkey, the cooldown counting from `now_ms`.
    pub fn new(now_ms: u64) -> (l: InputListener)
        ensures
            l@ == fresh_listener(now_ms),
    {
        InputListener {
            running: false,
            hotkey_pressed: false,
            hotkey_name: String::from_str("x1"),
            last_trigger: now_ms,
            capturing: false,
            captured_key: None,
            toggle_state: false,
        }
    }

    /// Sets the hotkey; its name is kept in lower case.
    pub fn set_hotkey(&mut self, name: &str)
        ensures
            final(self)@ == (ListenerView { hotkey: unicode_lowercase(name@), ..old(self)@ }),
    {
        self.hotkey_name = to_lowercase(name);
    }

    /// Hands the buttons to the poller. Returns whether a poller has to be
    /// started: `false`, with nothing changed, where one runs already or
    /// where a new hotkey is being captured, for the buttons are read by one
    /// of the two at a time.
    pub fn start(&mut self) -> (spawn: bool)
        ensures
            spawn == (!old(self)@.running && !old(self)@.capturing),
            final(self)@ == if spawn {
                ListenerView { running: true, ..old(self)@ }
            } else {
                old(self)@
            },
            exclusive(old(self)@) ==> exclusive(final(self)@),
    {
        if self.running || self.capturing {
            return false;
        }
        self.running = true;
        true
    }

    /// Tells the poller to stop.
    pub fn stop(&mut self)
        ensures
            final(self)@ == (ListenerView { running: false, ..old(self)@ }),
    {
        self.running = false;
    }

    /// Whether the poller is meant to run.
    pub fn is_running(&self) -> (b: bool)
        ensures
            b == self@.running,
    {
        self.running
    }

    /// One round of the poller: takes in a sample of the buttons. The hotkey
    /// is down if its button is; a press edge flips the toggle. Returns
    /// whether the poller goes on: a poller that was told to stop takes in
    /// nothing.
    pub fn poll(&mut self, states: &ButtonStates) -> (go_on: bool)
        ensures
            go_on == old(self)@.running,
            final(self)@ == if old(self)@.running {
                ListenerView {
                    pressed: hotkey_down(old(self)@.hotkey, *states),
                    toggle: toggle_after(
                        old(self)@.pressed,
                        old(self)@.toggle,
                        hotkey_down(old(self)@.hotkey, *states),
                    ),
                    ..old(self)@
                }
            } else {
                old(self)@
            },
    {
        if !self.running {
            return false;
        }
        let pressed = Self::check_hotkey(self.hotkey_name.as_str(), states);
        if !self.hotkey_pressed && pressed {
            self.toggle_state = !self.toggle_state;
        }
        self.hotkey_pressed = pressed;
        true
    }

    /// Whether the hotkey was down at the last sample.
    pub fn is_hotkey_pressed(&self) -> (b: bool)
        ensures
            b == self@.pressed,
    {
        self.hotkey_pressed
    }

    /// The toggle.
    pub fn get_toggle_state(&self) -> (b: bool)
        ensures
            b == self@.toggle,
    {
        self.toggle_state
    }

    /// Sets the toggle.
    pub fn set_toggle_state(&mut self, state: bool)
        ensures
            final(self)@ == (ListenerView { toggle: state, ..old(self)@ }),
    {
        self.toggle_state = state;
    }

    /// When the trigger last fired, in milliseconds.
    pub fn last_trigger(&self) -> (t: u64)
        ensures
            t == self@.last_trigger,
    {
        self.last_trigger
    }

    /// Fires if the cooldown has run out, and then starts it anew from
    /// `now_ms`.
    pub fn check_trigger_cooldown(&mut self, now_ms: u64, cooldown_ms: u64) -> (fire: bool)
        ensures
            fire == cooled_down(old(self)@.last_trigger, now_ms, cooldown_ms),
            final(self)@ == (ListenerView {
                last_trigger: if fire {
                    now_ms
                } else {
                    old(self)@.last_trigger
                },
                ..old(self)@
            }),
    {
        let elapsed: u64 = if now_ms >= self.last_trigger {
            now_ms - self.last_trigger
        } else {
            0
        };
        if elapsed >= cooldown_ms {
            self.last_trigger = now_ms;
            true
        } else {
            false
        }
    }

    /// Decides whether an actuation is permitted at `now_ms`: the trigger is
    /// armed and the cooldown has run out. A permit starts the cooldown anew;
    /// nothing else changes, and without a permit nothing changes at all.
    pub fn should_fire(&mut self, trigger: TriggerType, now_ms: u64, cooldown_ms: u64) -> (fire:
        bool)
        ensures
            fire == (armed(trigger, old(self)@.pressed, old(self)@.toggle) && cooled_down(
                old(self)@.last_trigger,
                now_ms,
                cooldown_ms,
            )),
            final(self)@ == (ListenerView {
                last_trigger: if fire {
                    now_ms
                } else {
                    old(self)@.last_trigger
                },
                ..old(self)@
            }),
    {
        let is_armed = match trigger {
            TriggerType::Hold => self.hotkey_pressed,
            TriggerType::Toggle => self.toggle_state,
        };
        is_armed && self.check_trigger_cooldown(now_ms, cooldown_ms)
    }

    /// Hands the buttons to the capture of a new hotkey and forgets the key
    /// captured before. Returns whether a capture has to be started: `false`,
    /// with nothing changed, while the poller runs.
    pub fn start_capture(&mut self) -> (spawn: bool)
        ensures
            spawn == !old(self)@.running,
            final(self)@ == if spawn {
                ListenerView { capturing: true, captured: None, ..old(self)@ }
            } else {
                old(self)@
            },
            exclusive(old(self)@) ==> exclusive(final(self)@),
    {
        if self.running {
            return false;
        }
        self.capturing = true;
        self.captured_key = None;
        true
    }

    /// One round of the capture: takes in a sample of the buttons. The first
    /// button found down is kept, and the capture ends. Returns whether the
    /// capture goes on.
    pub fn capture_poll(&mut self, states: &ButtonStates) -> (go_on: bool)
        ensures
            go_on == (old(self)@.capturing && first_down(*states) is None),
            final(self)@ == if old(self)@.capturing && first_down(*states) is Some {
                ListenerView {
                    capturing: false,
                    captured: Some(name_of(first_down(*states).unwrap())),
                    ..old(self)@
                }
            } else {
                old(self)@
            },
    {
        if !self.capturing {
            return false;
        }
        match Self::capture_any_key(states) {
            Some(key) => {
                self.captured_key = Some(key);
                self.capturing = false;
                false
            },
            None => true,
        }
    }

    /// Ends the capture of a new hotkey.
    pub fn stop_capture(&mut self)
        ensures
            final(self)@ == (ListenerView { capturing: false, ..old(self)@ }),
    {
        self.capturing = false;
    }

    /// The name of the key that the capture found, if it found one.
    pub fn get_captured_key(&self) -> (key: Option<String>)
        ensures
            match key {
                Some(k) => self@.captured == Some(k@),
                None => self@.captured is None,
            },
    {
        match &self.captured_key {
            Some(k) => Some(k.clone()),
            None => None,
        }
    }

    /// Whether a new hotkey is being captured.
    pub fn is_capturing(&self) -> (b: bool)
        ensures
            b == self@.capturing,
    {
        self.capturing
    }

    /// The hotkey to save: the key that the capture found, which ends the
    /// capture, else the one in use.
    pub fn settle_hotkey(&mut self, current: &str) -> (hotkey: String)
        ensures
            hotkey@ == match old(self)@.captured {
                Some(k) => k,
                None => current@,
            },
            final(self)@ == (ListenerView {
                capturing: old(self)@.capturing && old(self)@.captured is None,
                ..old(self)@
            }),
    {
        match self.get_captured_key() {
            Some(key) => {
                self.stop_capture();
                key
            },
            None => String::from_str(current),
        }
    }

    /// The name of the first button that is down, in the order left, right,
    /// middle, first side button, second side button.
    pub fn capture_any_key(states: &ButtonStates) -> (key: Option<String>)
        ensures
            match key {
                Some(k) => first_down(*states) matches Some(b) && k@ == name_of(b),
                None => first_down(*states) is None,
            },
    {
        if states.left {
            return Some(String::from_str("left"));
        }
        if states.right {
            return Some(String::from_str("right"));
        }
        if states.middle {
            return Some(String::from_str("middle"));
        }
        if states.x1 {
            return Some(String::from_str("x1"));
        }
        if states.x2 {
            return Some(String::from_str("x2"));
        }
        None
    }

    /// Whether the hotkey of that name is down. A name that stands for no
    /// button is never down.
    pub fn check_hotkey(name: &str, states: &ButtonStates) -> (down: bool)
        ensures
            down == hotkey_down(name@, *states),
    {
        match button_for(name) {
            Some(b) => button_down(b, states),
            None => false,
        }
    }
}

impl Default for InputListener {
    fn default() -> (l: InputListener)
        ensures
            l@ == fresh_listener(0),
    {
        InputListener::new(0)
    }
}

/// One call of `should_fire` as the cooldown sees it: whether the trigger
/// was armed, and the time of the call.
pub ghost struct GateTick {
    pub armed: bool,
    pub now: u64,
}

/// The time of the last trigger after the first `n` calls of a run that
/// started with the last trigger at `last`.
pub open spec fn last_trigger_after(last: u64, ticks: Seq<GateTick>, cooldown_ms: u64, n: int) -> u64
    decreases n,
{
    if n <= 0 {
        last
    } else {
        let before = last_trigger_after(last, ticks, cooldown_ms, n - 1);
        if ticks[n - 1].armed && cooled_down(before, ticks[n - 1].now, cooldown_ms) {
            ticks[n - 1].now
        } else {
            before
        }
    }
}

/// Whether call number `i` of the run permits an actuation.
pub open spec fn fires_at(last: u64, ticks: Seq<GateTick>, cooldown_ms: u64, i: int) -> bool {
    ticks[i].armed && cooled_down(
        last_trigger_after(last, ticks, cooldown_ms, i),
        ticks[i].now,
        cooldown_ms,
    )
}

/// With a cooldown that is not zero, the time of the last trigger never
/// goes back: once a call has fired, it is never before that call.
proof fn lemma_last_trigger_not_before(
    last: u64,
    ticks: Seq<GateTick>,
    cooldown_ms: u64,
    i: int,
    n: int,
)
    requires
        cooldown_ms > 0,
        0 <= i < n <= ticks.len(),
        fires_at(last, ticks, cooldown_ms, i),
    ensures
        last_trigger_after(last, ticks, cooldown_ms, n) >= ticks[i].now,
    decreases n,
{
    if n > i + 1 {
        lemma_last_trigger_not_before(last, ticks, cooldown_ms, i, n - 1);
    }
}

/// The trigger fires at most once per cooldown: of any two calls that fire,
/// the later call comes at least `cooldown_ms` after the earlier, however
/// many calls lie between them, whatever the key did meanwhile, and whatever
/// times the calls were given.
pub proof fn lemma_fires_once_per_cooldown(
    last: u64,
    ticks: Seq<GateTick>,
    cooldown_ms: u64,
    i: int,
    j: int,
)
    requires
        0 <= i < j < ticks.len(),
        fires_at(last, ticks, cooldown_ms, i),
        fires_at(last, ticks, cooldown_ms, j),
    ensures
        cooldown_ms > 0 ==> ticks[j].now - ticks[i].now >= cooldown_ms,
{
    if cooldown_ms > 0 {
        lemma_last_trigger_not_before(last, ticks, cooldown_ms, i, j);
    }
}

/// Whether the key was down after the first `n` samples.
pub open spec fn pressed_after(pressed: bool, samples: Seq<bool>, n: int) -> bool {
    if n <= 0 {
        pressed
    } else {
        samples[n - 1]
    }
}

/// The toggle after the first `n` samples of the key.
pub open spec fn toggle_after_samples(pressed: bool, toggle: bool, samples: Seq<bool>, n: int) -> bool
    decreases n,
{
    if n <= 0 {
        toggle
    } else {
        toggle_after(
            pressed_after(pressed, samples, n - 1),
            toggle_after_samples(pressed, toggle, samples, n - 1),
            samples[n - 1],
        )
    }
}

/// How many press edges the first `n` samples hold: samples at which the key
/// is down and was up at the sample before.
pub open spec fn press_edges(pressed: bool, samples: Seq<bool>, n: int) -> nat
    decreases n,
{
    if n <= 0 {
        0
    } else {
        let edge: nat = if !pressed_after(pressed, samples, n - 1) && samples[n - 1] {
            1
        } else {
            0
        };
        press_edges(pressed, samples, n - 1) + edge
    }
}

/// Each press edge flips the toggle once, and nothing else does: after any
/// run of samples the toggle differs from where it started exactly if the
/// number of press edges is odd.
pub proof fn lemma_toggle_counts_press_edges(
    pressed: bool,
    toggle: bool,
    samples: Seq<bool>,
    n: int,
)
    requires
        0 <= n <= samples.len(),
    ensures
        toggle_after_samples(pressed, toggle, samples, n) == (toggle != (press_edges(
            pressed,
            samples,
            n,
        ) % 2 == 1)),
    decreases n,
{
    if n > 0 {
        lemma_toggle_counts_press_edges(pressed, toggle, samples, n - 1);
    }
}

/// A key that is held down flips the toggle once at most: if the key is down
/// at every one of the samples, the toggle has flipped once where the key was
/// up before the first of them, and not at all where it was down already.
pub proof fn lemma_held_key_flips_once(pressed: bool, toggle: bool, samples: Seq<bool>, n: int)
    requires
        0 <= n <= samples.len(),
        forall|k: int| 0 <= k < n ==> samples[k],
    ensures
        press_edges(pressed, samples, n) == if !pressed && n > 0 {
            1nat
        } else {
            0nat
        },
        toggle_after_samples(pressed, toggle, samples, n) == if !pressed && n > 0 {
            !toggle
        } else {
            toggle
        },
    decreases n,
{
    if n > 0 {
        lemma_held_key_flips_once(pressed, toggle, samples, n - 1);
    }
}

} // verus!
