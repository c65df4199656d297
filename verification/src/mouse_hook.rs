//! Mouse clicks recorded for the click-highlight overlay: the last clicks,
//! kept while they are younger than the highlight's dissolve time.
//!
//! Times are milliseconds on one monotonic clock; the application reads the
//! clock and the operating system's mouse hook, and hands both in.
use vstd::prelude::*;
use crate::seq_lemmas::{lemma_filter_take_step, lemma_take_full};

verus! {

/// Which mouse button was pressed.
#[derive(Debug, Clone, Copy, PartialEq, Eq, Structural)]
pub enum MouseButton {
    Left,
    Right,
    Middle,
}

/// A recorded mouse click.
#[derive(Debug, Clone, Copy, PartialEq, Eq, Structural)]
pub struct ClickEvent {
    pub x: i32,
    pub y: i32,
    /// When the click happened, in milliseconds on the application's clock.
    pub timestamp_ms: u64,
    pub button: MouseButton,
}

/// Windows' message for a left button press.
pub const WM_LBUTTONDOWN: u32 = 0x0201;

/// Windows' message for a right button press.
pub const WM_RBUTTONDOWN: u32 = 0x0204;

/// Windows' message for a middle button press.
pub const WM_MBUTTONDOWN: u32 = 0x0207;

/// The most clicks kept.
pub const MAX_CLICKS: usize = 20;

/// The button that a low-level mouse message presses, if it is a press.
pub fn button_for_message(message: u32) -> (r: Option<MouseButton>)
    ensures
        r == (if message == WM_LBUTTONDOWN {
            Some(MouseButton::Left)
        } else if message == WM_RBUTTONDOWN {
            Some(MouseButton::Right)
        } else if message == WM_MBUTTONDOWN {
            Some(MouseButton::Middle)
        } else {
            None::<MouseButton>
        }),
{
    if message == WM_LBUTTONDOWN {
        Some(MouseButton::Left)
    } else if message == WM_RBUTTONDOWN {
        Some(MouseButton::Right)
    } else if message == WM_MBUTTONDOWN {
        Some(MouseButton::Middle)
    } else {
        None
    }
}

/// The age of a click at time `now`: zero for a click stamped later.
pub open spec fn age_ms(now: u64, stamp: u64) -> nat {
    if now > stamp {
        (now - stamp) as nat
    } else {
        0
    }
}

/// Whether a click is still younger than `max_age` at time `now`.
pub open spec fn is_recent(c: ClickEvent, now: u64, max_age: u64) -> bool {
    age_ms(now, c.timestamp_ms) < max_age
}

/// The clicks after one more is recorded: appended, and the oldest dropped
/// when there are more than `MAX_CLICKS`.
pub open spec fn record_spec(clicks: Seq<ClickEvent>, c: ClickEvent) -> Seq<ClickEvent> {
    let pushed = clicks.push(c);
    if pushed.len() > MAX_CLICKS {
        pushed.drop_first()
    } else {
        pushed
    }
}

/// The recorded clicks, oldest first.
pub struct ClickLog {
    clicks: Vec<ClickEvent>,
}

impl View for ClickLog {
    type V = Seq<ClickEvent>;

    closed spec fn view(&self) -> Seq<ClickEvent> {
        self.clicks@
    }
}

impl ClickLog {
    /// At most `MAX_CLICKS` clicks are kept.
    pub closed spec fn wf(&self) -> bool {
        self.clicks@.len() <= MAX_CLICKS
    }

    /// An empty log.
    pub fn new() -> (r: Self)
        ensures
            r@ == Seq::<ClickEvent>::empty(),
            r.wf(),
    {
        ClickLog { clicks: Vec::new() }
    }

    /// Record a click, dropping the oldest when more than twenty are kept.
    pub fn record_click(&mut self, click: ClickEvent)
        requires
            old(self).wf(),
        ensures
            final(self)@ == record_spec(old(self)@, click),
            final(self).wf(),
    {
        self.clicks.push(click);
        if self.clicks.len() > MAX_CLICKS {
            self.clicks.remove(0);
            assert(self.clicks@ =~= old(self)@.push(click).drop_first());
        }
    }

    /// Drop the clicks that are `max_age_ms` old or older at `now_ms`, and
    /// return the rest, oldest first.
    pub fn get_recent_clicks(&mut self, now_ms: u64, max_age_ms: u32) -> (r: Vec<ClickEvent>)
        requires
            old(self).wf(),
        ensures
            final(self)@ == old(self)@.filter(|c: ClickEvent| is_recent(c, now_ms, max_age_ms as u64)),
            r@ == final(self)@,
            final(self).wf(),
    {
        let ghost pred = |c: ClickEvent| is_recent(c, now_ms, max_age_ms as u64);
        let ghost before = self.clicks@;
        let mut kept: Vec<ClickEvent> = Vec::new();
        let mut i: usize = 0;
        while i < self.clicks.len()
            invariant
                0 <= i <= self.clicks@.len(),
                self.clicks@ == before,
                kept@ == before.take(i as int).filter(pred),
                pred == (|c: ClickEvent| is_recent(c, now_ms, max_age_ms as u64)),
            decreases self.clicks.len() - i,
        {
            let c = self.clicks[i];
            proof {
                lemma_filter_take_step(before, i as int, pred);
            }
            let age: u64 = if now_ms > c.timestamp_ms {
                now_ms - c.timestamp_ms
            } else {
                0
            };
            if age < max_age_ms as u64 {
                kept.push(c);
            }
            i = i + 1;
        }
        proof {
            lemma_take_full(before);
            before.lemma_filter_len(pred);
        }
        self.clicks = kept;
        let out = self.clicks.clone();
        out
    }

    /// The recorded clicks, oldest first.
    pub fn clicks(&self) -> (r: Vec<ClickEvent>)
        ensures
            r@ == self@,
    {
        self.clicks.clone()
    }

    /// Forget every click.
    pub fn clear(&mut self)
        ensures
            final(self)@ == Seq::<ClickEvent>::empty(),
            final(self).wf(),
    {
        self.clicks.clear();
    }
}

/// The click hook of a capture: whether it is installed, and the clicks it
/// recorded while it was.
pub struct MouseCapture {
    active: bool,
    log: ClickLog,
}

impl View for MouseCapture {
    type V = Seq<ClickEvent>;

    closed spec fn view(&self) -> Seq<ClickEvent> {
        self.log@
    }
}

impl MouseCapture {
    /// Whether the hook is installed.
    pub closed spec fn is_active(&self) -> bool {
        self.active
    }

    /// At most twenty clicks are kept, and none while the hook is not
    /// installed.
    pub closed spec fn wf(&self) -> bool {
        &&& self.log.wf()
        &&& !self.active ==> self.log@.len() == 0
    }

    /// No hook, no clicks.
    pub fn new() -> (r: Self)
        ensures
            !r.is_active(),
            r@ == Seq::<ClickEvent>::empty(),
            r.wf(),
    {
        MouseCapture { active: false, log: ClickLog::new() }
    }

    /// Install the hook; `hook_ok` tells whether the system accepted it.
    /// An installed hook stays installed. The result tells whether the hook
    /// is installed.
    pub fn start_capture(&mut self, hook_ok: bool) -> (r: bool)
        requires
            old(self).wf(),
        ensures
            r == (old(self).is_active() || hook_ok),
            final(self).is_active() == r,
            final(self)@ == old(self)@,
            final(self).wf(),
    {
        if self.active {
            return true;
        }
        if hook_ok {
            self.active = true;
        }
        hook_ok
    }

    /// A press the hook saw: recorded while the hook is installed.
    pub fn hook_click(&mut self, click: ClickEvent)
        requires
            old(self).wf(),
        ensures
            final(self).is_active() == old(self).is_active(),
            final(self)@ == (if old(self).is_active() {
                record_spec(old(self)@, click)
            } else {
                old(self)@
            }),
            final(self).wf(),
    {
        if self.active {
            self.log.record_click(click);
        }
    }

    /// Drop the clicks that are `max_age_ms` old or older at `now_ms`, and
    /// return the rest, oldest first.
    pub fn get_recent_clicks(&mut self, now_ms: u64, max_age_ms: u32) -> (r: Vec<ClickEvent>)
        requires
            old(self).wf(),
        ensures
            final(self)@ == old(self)@.filter(|c: ClickEvent| is_recent(c, now_ms, max_age_ms as u64)),
            r@ == final(self)@,
            final(self).is_active() == old(self).is_active(),
            final(self).wf(),
    {
        let r = self.log.get_recent_clicks(now_ms, max_age_ms);
        proof {
            if !self.active {
                assert(self.log@.len() <= old(self).log@.len());
            }
        }
        r
    }

    /// Remove the hook and forget every click.
    pub fn stop_capture(&mut self)
        requires
            old(self).wf(),
        ensures
            !final(self).is_active(),
            final(self)@ == Seq::<ClickEvent>::empty(),
            final(self).wf(),
    {
        if !self.active {
            return;
        }
        self.active = false;
        self.log.clear();
    }

    /// Whether the hook is installed.
    pub fn is_capture_active(&self) -> (r: bool)
        ensures
            r == self.is_active(),
    {
        self.active
    }
}

/// The log never holds more than twenty clicks, and the newest click is
/// always the last one kept.
pub proof fn lemma_record_bounded(clicks: Seq<ClickEvent>, c: ClickEvent)
    requires
        clicks.len() <= MAX_CLICKS,
    ensures
        record_spec(clicks, c).len() <= MAX_CLICKS,
        record_spec(clicks, c).last() == c,
        clicks.len() < MAX_CLICKS ==> record_spec(clicks, c) == clicks.push(c),
{
}

/// Reading the recent clicks keeps exactly the clicks younger than the
/// limit; reading again at the same time changes nothing.
pub proof fn lemma_recent_idempotent(clicks: Seq<ClickEvent>, now: u64, max_age: u64)
    ensures
        ({
            let pred = |c: ClickEvent| is_recent(c, now, max_age);
            let once = clicks.filter(pred);
            &&& once.filter(pred) == once
            &&& forall|i: int| 0 <= i < once.len() ==> is_recent(#[trigger] once[i], now, max_age)
        }),
{
    let pred = |c: ClickEvent| is_recent(c, now, max_age);
    let once = clicks.filter(pred);
    assert forall|i: int| 0 <= i < once.len() implies pred(#[trigger] once[i]) by {
        clicks.lemma_filter_pred(pred, i);
    }
    crate::seq_lemmas::lemma_filter_all_true(once, pred);
}

} // verus!
