//! Mouse clicks seen by the global click capture, and the state of the hook
//! that captures them.
//!
//! The operating system's hook (a Windows low-level mouse hook, a macOS event
//! tap) runs in the application; it hands every press to a `ClickStore`
//! together with the time on the application's millisecond clock.
use vstd::prelude::*;
pub use crate::mouse_hook::{ClickEvent, MouseButton};
use crate::mouse_hook::age_ms;
use crate::seq_lemmas::{lemma_filter_take_step, lemma_take_full};

verus! {

/// The most clicks the Windows hook keeps.
pub const HOOK_CLICK_LIMIT: usize = 100;

/// How often (in logged clicks) the macOS tap drops old clicks.
pub const PRUNE_EVERY: u64 = 100;

/// How old a click may grow before the macOS tap drops it, in milliseconds.
pub const PRUNE_AGE_MS: u64 = 5000;

/// The earliest time still counted as recent: `max_age` before `now`, or the
/// start of the clock.
pub open spec fn cutoff(now: u64, max_age: u64) -> u64 {
    if now >= max_age {
        (now - max_age) as u64
    } else {
        0
    }
}

/// The clicks after the Windows hook records one: appended, and the oldest
/// dropped when more than `HOOK_CLICK_LIMIT` are kept.
pub open spec fn hook_record_spec(clicks: Seq<ClickEvent>, c: ClickEvent) -> Seq<ClickEvent> {
    let pushed = clicks.push(c);
    if pushed.len() > HOOK_CLICK_LIMIT {
        pushed.drop_first()
    } else {
        pushed
    }
}

/// Whether a click was stamped at or after `from`.
pub open spec fn stamped_since(c: ClickEvent, from: u64) -> bool {
    c.timestamp_ms >= from
}

/// Whether a click lies in the region, and is recent; the region's right and
/// bottom edges are its position plus its size read as a signed 32-bit
/// number.
pub open spec fn click_selected(c: ClickEvent, rx: i32, ry: i32, rw: u32, rh: u32, from: u64) -> bool {
    &&& c.timestamp_ms >= from
    &&& c.x >= rx
    &&& c.x < rx + (rw as i32)
    &&& c.y >= ry
    &&& c.y < ry + (rh as i32)
}

/// The region's far edges fit in a signed 32-bit number.
pub open spec fn region_fits(rx: i32, ry: i32, rw: u32, rh: u32) -> bool {
    &&& i32::MIN <= rx + (rw as i32) <= i32::MAX
    &&& i32::MIN <= ry + (rh as i32) <= i32::MAX
}

/// The clicks seen by the global click capture, oldest first, and the number
/// of clicks the macOS tap has logged (it drops old clicks every hundredth).
pub struct ClickStore {
    clicks: Vec<ClickEvent>,
    logged: u64,
}

impl View for ClickStore {
    type V = Seq<ClickEvent>;

    closed spec fn view(&self) -> Seq<ClickEvent> {
        self.clicks@
    }
}

impl ClickStore {
    /// The number of clicks logged so far by the macOS tap, modulo 2^64.
    pub closed spec fn logged_count(&self) -> u64 {
        self.logged
    }

    /// An empty store.
    pub fn new() -> (r: Self)
        ensures
            r@ == Seq::<ClickEvent>::empty(),
            r.logged_count() == 0,
    {
        ClickStore { clicks: Vec::new(), logged: 0 }
    }

    /// Record a press seen by the Windows hook, keeping the last hundred.
    pub fn record_hook_click(&mut self, click: ClickEvent)
        ensures
            final(self)@ == hook_record_spec(old(self)@, click),
            final(self).logged_count() == old(self).logged_count(),
    {
        self.clicks.push(click);
        if self.clicks.len() > HOOK_CLICK_LIMIT {
            self.clicks.remove(0);
            assert(self.clicks@ =~= old(self)@.push(click).drop_first());
        }
    }

    /// Record a press seen by the macOS tap at `now_ms`. Every hundredth
    /// click (the first included), the clicks older than five seconds are
    /// dropped.
    pub fn log_click(&mut self, x: i32, y: i32, button: MouseButton, now_ms: u64)
        ensures
            ({
                let c = ClickEvent { x, y, timestamp_ms: now_ms, button };
                let pushed = old(self)@.push(c);
                final(self)@ == if old(self).logged_count() % PRUNE_EVERY == 0 {
                    pushed.filter(|e: ClickEvent| stamped_since(e, cutoff(now_ms, PRUNE_AGE_MS)))
                } else {
                    pushed
                }
            }),
            final(self).logged_count() == old(self).logged_count().wrapping_add(1),
    {
        let c = ClickEvent { x, y, timestamp_ms: now_ms, button };
        self.clicks.push(c);
        let count = self.logged;
        self.logged = self.logged.wrapping_add(1);
        if count % PRUNE_EVERY == 0 {
            let from = now_ms.saturating_sub(PRUNE_AGE_MS);
            let ghost pushed = self.clicks@;
            let ghost pred = |e: ClickEvent| stamped_since(e, cutoff(now_ms, PRUNE_AGE_MS));
            let mut kept: Vec<ClickEvent> = Vec::new();
            let mut i: usize = 0;
            while i < self.clicks.len()
                invariant
                    0 <= i <= self.clicks@.len(),
                    self.clicks@ == pushed,
                    from == cutoff(now_ms, PRUNE_AGE_MS),
                    kept@ == pushed.take(i as int).filter(pred),
                    pred == (|e: ClickEvent| stamped_since(e, cutoff(now_ms, PRUNE_AGE_MS))),
                decreases self.clicks.len() - i,
            {
                let e = self.clicks[i];
                proof {
                    lemma_filter_take_step(pushed, i as int, pred);
                }
                if e.timestamp_ms >= from {
                    kept.push(e);
                }
                i = i + 1;
            }
            proof {
                lemma_take_full(pushed);
            }
            self.clicks = kept;
        }
    }

    /// The clicks of the last `max_age_ms` at `now_ms` that lie inside the
    /// region, oldest first; the store is left as it was.
    pub fn get_recent_clicks(
        &self,
        region_x: i32,
        region_y: i32,
        region_width: u32,
        region_height: u32,
        max_age_ms: u64,
        now_ms: u64,
    ) -> (r: Vec<ClickEvent>)
        requires
            region_fits(region_x, region_y, region_width, region_height),
        ensures
            r@ == self@.filter(
                |c: ClickEvent|
                    click_selected(
                        c,
                        region_x,
                        region_y,
                        region_width,
                        region_height,
                        cutoff(now_ms, max_age_ms),
                    ),
            ),
    {
        let from = now_ms.saturating_sub(max_age_ms);
        let right = region_x + region_width as i32;
        let bottom = region_y + region_height as i32;
        let ghost pred = |c: ClickEvent|
            click_selected(c, region_x, region_y, region_width, region_height, cutoff(now_ms, max_age_ms));
        let mut out: Vec<ClickEvent> = Vec::new();
        let mut i: usize = 0;
        while i < self.clicks.len()
            invariant
                0 <= i <= self.clicks@.len(),
                from == cutoff(now_ms, max_age_ms),
                right == region_x + (region_width as i32),
                bottom == region_y + (region_height as i32),
                out@ == self.clicks@.take(i as int).filter(pred),
                pred == (|c: ClickEvent|
                    click_selected(c, region_x, region_y, region_width, region_height, cutoff(now_ms, max_age_ms))),
            decreases self.clicks.len() - i,
        {
            let c = self.clicks[i];
            proof {
                lemma_filter_take_step(self.clicks@, i as int, pred);
            }
            if c.timestamp_ms >= from && c.x >= region_x && c.x < right && c.y >= region_y && c.y < bottom {
                out.push(c);
            }
            i = i + 1;
        }
        proof {
            lemma_take_full(self.clicks@);
        }
        out
    }

    /// Forget every click.
    pub fn clear_clicks(&mut self)
        ensures
            final(self)@ == Seq::<ClickEvent>::empty(),
            final(self).logged_count() == old(self).logged_count(),
    {
        self.clicks.clear();
    }
}

/// Whether the click-capture hook runs, and the thread that runs its message
/// loop (0 when unknown).
pub struct ClickCaptureState {
    pub installed: bool,
    pub thread_id: isize,
}

impl ClickCaptureState {
    /// No hook installed.
    pub fn new() -> (r: Self)
        ensures
            !r.installed,
            r.thread_id == 0,
    {
        ClickCaptureState { installed: false, thread_id: 0 }
    }

    /// Mark the hook as installed; returns whether it was not installed
    /// before, that is, whether the caller must now start the hook thread.
    pub fn start_click_capture(&mut self) -> (r: bool)
        ensures
            r == !old(self).installed,
            final(self).installed,
            final(self).thread_id == old(self).thread_id,
    {
        let was = self.installed;
        self.installed = true;
        !was
    }

    /// The hook thread tells its id.
    pub fn set_thread(&mut self, thread_id: isize)
        ensures
            final(self).installed == old(self).installed,
            final(self).thread_id == thread_id,
    {
        self.thread_id = thread_id;
    }

    /// The hook thread ended, or the hook could not be installed.
    pub fn thread_exited(&mut self)
        ensures
            !final(self).installed,
            final(self).thread_id == 0,
    {
        self.installed = false;
        self.thread_id = 0;
    }

    /// Stop the click capture. Where a hook was installed and its thread is
    /// known, returns that thread, to which the caller posts a quit message.
    pub fn stop_click_capture(&mut self) -> (r: Option<isize>)
        ensures
            !final(self).installed,
            old(self).installed ==> final(self).thread_id == 0,
            !old(self).installed ==> final(self).thread_id == old(self).thread_id,
            r == (if old(self).installed && old(self).thread_id != 0 {
                Some(old(self).thread_id)
            } else {
                None::<isize>
            }),
    {
        if !self.installed {
            return None;
        }
        let tid = self.thread_id;
        self.installed = false;
        self.thread_id = 0;
        if tid != 0 {
            Some(tid)
        } else {
            None
        }
    }
}

/// The Windows hook keeps at most a hundred clicks, and the newest is always
/// the last one.
pub proof fn lemma_hook_record_bounded(clicks: Seq<ClickEvent>, c: ClickEvent)
    requires
        clicks.len() <= HOOK_CLICK_LIMIT,
    ensures
        hook_record_spec(clicks, c).len() <= HOOK_CLICK_LIMIT,
        hook_record_spec(clicks, c).last() == c,
{
}

/// A logged click is never dropped by the pruning that follows it.
pub proof fn lemma_logged_click_kept(clicks: Seq<ClickEvent>, c: ClickEvent, now: u64)
    requires
        c.timestamp_ms == now,
    ensures
        clicks.push(c).filter(|e: ClickEvent| stamped_since(e, cutoff(now, PRUNE_AGE_MS))).contains(c),
{
    let pred = |e: ClickEvent| stamped_since(e, cutoff(now, PRUNE_AGE_MS));
    crate::seq_lemmas::lemma_filter_push(clicks, c, pred);
    let f = clicks.push(c).filter(pred);
    assert(f.last() == c);
    assert(f[f.len() - 1] == c);
}

/// Every click returned lies in the region and is recent.
pub proof fn lemma_recent_clicks_selected(
    clicks: Seq<ClickEvent>,
    rx: i32,
    ry: i32,
    rw: u32,
    rh: u32,
    from: u64,
    i: int,
)
    requires
        0 <= i < clicks.filter(|c: ClickEvent| click_selected(c, rx, ry, rw, rh, from)).len(),
    ensures
        click_selected(clicks.filter(|c: ClickEvent| click_selected(c, rx, ry, rw, rh, from))[i], rx, ry, rw, rh, from),
{
    clicks.lemma_filter_pred(|c: ClickEvent| click_selected(c, rx, ry, rw, rh, from), i);
}

} // verus!
