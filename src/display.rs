use crate::bus::{human_readable_text, NetSpeed, SpeedField, WiFiConnectStatus};
use vstd::prelude::*;
use vstd::string::StringExecFns;

verus! {

/// Least time between two redraws of the connecting page, in milliseconds.
pub const CONNECTING_FRAME_MS: u64 = 200;

/// Highest signal level the connecting animation shows; the animation runs
/// through the levels from zero up to this one and starts over.
pub const TOP_SIGNAL_LEVEL: u8 = 3;

/// The connecting page's text: "Connecting" and one dot per animation step.
pub open spec fn connecting_label(dots: nat) -> Seq<char> {
    "Connecting"@ + Seq::new(dots, |i: int| '.')
}

/// State of the animated connecting page.
#[derive(Debug, Clone, Copy, PartialEq, Eq, Structural)]
pub struct WiFiConnectingPage {
    pub animation_frame_index: u8,
    /// When the page was last drawn; `None` before the first draw.
    pub last_draw_ms: Option<u64>,
}

/// State of the throughput page: the sample it drew last. The page redraws
/// only when the sample has changed since its last drawing; a page built
/// afresh has drawn nothing, so it draws the first sample it gets.
#[derive(Debug, Clone, Copy, PartialEq, Eq, Structural)]
pub struct NetDataTrafficSpeedPage {
    pub prev_speed: Option<NetSpeed>,
}

/// The page on screen with its own state. Switching to another page always
/// builds that page afresh.
#[derive(Debug, Clone, Copy, PartialEq, Eq, Structural)]
pub enum DisplayPage {
    Init,
    Connecting(WiFiConnectingPage),
    NetworkSpeed(NetDataTrafficSpeedPage),
}

/// A drawing of the connecting page.
#[derive(Debug, Clone, PartialEq, Eq)]
pub struct ConnectingFrame {
    /// Signal level of the icon, from 0 (no bar) to 3 (full).
    pub signal: u8,
    pub label: String,
}

/// A drawing of the throughput page: one label per rate.
#[derive(Debug, Clone, PartialEq, Eq)]
pub struct SpeedFrame {
    pub direct_up: String,
    pub direct_down: String,
    pub proxy_up: String,
    pub proxy_down: String,
    pub bypass_up: String,
    pub bypass_down: String,
}

/// What the renderer draws on one tick.
#[derive(Debug, Clone, PartialEq, Eq)]
pub enum Frame {
    Connecting(ConnectingFrame),
    NetworkSpeed(SpeedFrame),
}

impl WiFiConnectingPage {
    pub open spec fn fresh() -> WiFiConnectingPage {
        WiFiConnectingPage { animation_frame_index: 0, last_draw_ms: None }
    }

    /// Whether the page is drawn at time `now`: on its first tick, and then
    /// once at least the redraw interval has passed since the last draw.
    pub open spec fn due(self, now: u64) -> bool {
        self.last_draw_ms is None || now >= self.last_draw_ms.unwrap() + CONNECTING_FRAME_MS
    }

    /// The page after a tick at time `now`.
    pub open spec fn after_tick(self, now: u64) -> WiFiConnectingPage {
        if self.due(now) {
            WiFiConnectingPage {
                animation_frame_index: if self.animation_frame_index < TOP_SIGNAL_LEVEL {
                    (self.animation_frame_index + 1) as u8
                } else {
                    0
                },
                last_draw_ms: Some(now),
            }
        } else {
            self
        }
    }

    /// Whether `f` is the drawing of the page in this state.
    pub open spec fn shows(self, f: ConnectingFrame) -> bool {
        &&& f.signal == if self.animation_frame_index < TOP_SIGNAL_LEVEL {
            self.animation_frame_index
        } else {
            TOP_SIGNAL_LEVEL
        }
        &&& f.label@ == connecting_label(self.animation_frame_index as nat)
    }

    pub fn new() -> (r: Self)
        ensures
            r == Self::fresh(),
    {
        WiFiConnectingPage { animation_frame_index: 0, last_draw_ms: None }
    }

    /// One tick at time `now`: the drawing when one is due, which advances the
    /// animation by one step.
    pub fn frame(&mut self, now: u64) -> (r: Option<ConnectingFrame>)
        ensures
            *final(self) == old(self).after_tick(now),
            r is Some <==> old(self).due(now),
            r matches Some(f) ==> old(self).shows(f),
    {
        let due = match self.last_draw_ms {
            None => true,
            Some(t) => now >= t && now - t >= CONNECTING_FRAME_MS,
        };
        if !due {
            return None;
        }
        let index = self.animation_frame_index;
        let mut label = String::from_str("Connecting");
        let mut i: u8 = 0;
        while i < index
            invariant
                i <= index,
                label@ == connecting_label(i as nat),
            decreases index - i,
        {
            label.append(".");
            proof {
                reveal_strlit(".");
                assert(label@ =~= connecting_label((i + 1) as nat));
            }
            i = i + 1;
        }
        let signal = if index < TOP_SIGNAL_LEVEL {
            index
        } else {
            TOP_SIGNAL_LEVEL
        };
        self.animation_frame_index = if index < TOP_SIGNAL_LEVEL {
            index + 1
        } else {
            0
        };
        self.last_draw_ms = Some(now);
        Some(ConnectingFrame { signal, label })
    }
}

/// Whether `f` shows the six rates of `s`.
pub open spec fn speed_frame_shows(f: SpeedFrame, s: NetSpeed) -> bool {
    &&& f.direct_up@ == human_readable_text(s.direct_up_bps as nat)
    &&& f.direct_down@ == human_readable_text(s.direct_down_bps as nat)
    &&& f.proxy_up@ == human_readable_text(s.proxy_up_bps as nat)
    &&& f.proxy_down@ == human_readable_text(s.proxy_down_bps as nat)
    &&& f.bypass_up@ == human_readable_text(s.bypass_up_bps as nat)
    &&& f.bypass_down@ == human_readable_text(s.bypass_down_bps as nat)
}

impl NetDataTrafficSpeedPage {
    pub open spec fn fresh() -> NetDataTrafficSpeedPage {
        NetDataTrafficSpeedPage { prev_speed: None }
    }

    /// Whether a sample is drawn: only when it differs from the one drawn last.
    pub open spec fn due(self, speed: NetSpeed) -> bool {
        self.prev_speed != Some(speed)
    }

    pub fn new() -> (r: Self)
        ensures
            r == Self::fresh(),
    {
        NetDataTrafficSpeedPage { prev_speed: None }
    }

    /// One tick with the latest sample: its drawing, unless the page already
    /// shows that very sample.
    pub fn frame(&mut self, speed: NetSpeed) -> (r: Option<SpeedFrame>)
        ensures
            final(self).prev_speed == Some(speed),
            r is Some <==> old(self).due(speed),
            r matches Some(f) ==> speed_frame_shows(f, speed),
    {
        if let Some(prev) = self.prev_speed {
            if prev == speed {
                return None;
            }
        }
        self.prev_speed = Some(speed);
        Some(
            SpeedFrame {
                direct_up: speed.get_bps_str(SpeedField::DirectUp),
                direct_down: speed.get_bps_str(SpeedField::DirectDown),
                proxy_up: speed.get_bps_str(SpeedField::ProxyUp),
                proxy_down: speed.get_bps_str(SpeedField::ProxyDown),
                bypass_up: speed.get_bps_str(SpeedField::BypassUp),
                bypass_down: speed.get_bps_str(SpeedField::BypassDown),
            },
        )
    }
}

/// The page after a tick that finds the connection in `status`. `Connecting`
/// and `Connected` select their pages, built afresh if another one was on
/// screen; any other status leaves the page alone.
pub open spec fn page_after_tick(page: DisplayPage, status: WiFiConnectStatus, now: u64, speed: NetSpeed) -> DisplayPage {
    match status {
        WiFiConnectStatus::Connecting => {
            let p = match page {
                DisplayPage::Connecting(p) => p,
                _ => WiFiConnectingPage::fresh(),
            };
            DisplayPage::Connecting(p.after_tick(now))
        },
        WiFiConnectStatus::Connected => DisplayPage::NetworkSpeed(
            NetDataTrafficSpeedPage { prev_speed: Some(speed) },
        ),
        WiFiConnectStatus::Failed => page,
    }
}

/// Whether a tick draws anything.
pub open spec fn tick_draws(page: DisplayPage, status: WiFiConnectStatus, now: u64, speed: NetSpeed) -> bool {
    match status {
        WiFiConnectStatus::Connecting => match page {
            DisplayPage::Connecting(p) => p.due(now),
            _ => WiFiConnectingPage::fresh().due(now),
        },
        WiFiConnectStatus::Connected => match page {
            DisplayPage::NetworkSpeed(p) => p.due(speed),
            _ => NetDataTrafficSpeedPage::fresh().due(speed),
        },
        WiFiConnectStatus::Failed => false,
    }
}

/// The renderer: the page on screen, chosen from the connection status.
pub struct GUI {
    page: DisplayPage,
}

impl View for GUI {
    type V = DisplayPage;

    closed spec fn view(&self) -> DisplayPage {
        self.page
    }
}

impl GUI {
    /// A renderer showing the start-up splash.
    pub fn new() -> (r: Self)
        ensures
            r@ == DisplayPage::Init,
    {
        GUI { page: DisplayPage::Init }
    }

    pub fn page(&self) -> (r: DisplayPage)
        ensures
            r == self@,
    {
        self.page
    }

    /// A tick of the connecting page, which is built afresh if another page
    /// was on screen.
    pub fn wifi_connecting_display(&mut self, now: u64) -> (r: Option<ConnectingFrame>)
        ensures
            final(self)@ == page_after_tick(old(self)@, WiFiConnectStatus::Connecting, now, NetSpeed::zero()),
            r is Some <==> tick_draws(old(self)@, WiFiConnectStatus::Connecting, now, NetSpeed::zero()),
            r matches Some(f) ==> (match old(self)@ {
                DisplayPage::Connecting(p) => p,
                _ => WiFiConnectingPage::fresh(),
            }).shows(f),
    {
        let mut page = match self.page {
            DisplayPage::Connecting(p) => p,
            _ => WiFiConnectingPage::new(),
        };
        let f = page.frame(now);
        self.page = DisplayPage::Connecting(page);
        f
    }

    /// A tick of the throughput page with the latest sample, which is built
    /// afresh (so draws whatever it gets) if another page was on screen.
    pub fn network_speed(&mut self, speed: NetSpeed) -> (r: Option<SpeedFrame>)
        ensures
            final(self)@ == page_after_tick(old(self)@, WiFiConnectStatus::Connected, 0, speed),
            r is Some <==> tick_draws(old(self)@, WiFiConnectStatus::Connected, 0, speed),
            r matches Some(f) ==> speed_frame_shows(f, speed),
    {
        let mut page = match self.page {
            DisplayPage::NetworkSpeed(p) => p,
            _ => NetDataTrafficSpeedPage::new(),
        };
        let f = page.frame(speed);
        self.page = DisplayPage::NetworkSpeed(page);
        f
    }

    /// One tick of the renderer at time `now`, with the connection status and
    /// the latest sample read from their slots: what to draw, if anything.
    pub fn tick(&mut self, status: WiFiConnectStatus, now: u64, speed: NetSpeed) -> (r: Option<Frame>)
        ensures
            final(self)@ == page_after_tick(old(self)@, status, now, speed),
            r is Some <==> tick_draws(old(self)@, status, now, speed),
            r matches Some(Frame::Connecting(f)) ==> status == WiFiConnectStatus::Connecting && (
            match old(self)@ {
                DisplayPage::Connecting(p) => p,
                _ => WiFiConnectingPage::fresh(),
            }).shows(f),
            r matches Some(Frame::NetworkSpeed(f)) ==> status == WiFiConnectStatus::Connected
                && speed_frame_shows(f, speed),
    {
        match status {
            WiFiConnectStatus::Connecting => match self.wifi_connecting_display(now) {
                Some(f) => Some(Frame::Connecting(f)),
                None => None,
            },
            WiFiConnectStatus::Connected => match self.network_speed(speed) {
                Some(f) => Some(Frame::NetworkSpeed(f)),
                None => None,
            },
            WiFiConnectStatus::Failed => None,
        }
    }
}

/// A page switch resets the page's state: once the connecting page has been
/// on screen, the throughput page draws the next sample even if it is the
/// very sample it drew before the switch.
pub proof fn page_switch_resets(
    page: DisplayPage,
    drawn: NetSpeed,
    t1: u64,
    t2: u64,
    t3: u64,
    other: NetSpeed,
)
    ensures
        ({
            let shown = page_after_tick(page, WiFiConnectStatus::Connected, t1, drawn);
            let away = page_after_tick(shown, WiFiConnectStatus::Connecting, t2, other);
            &&& shown == DisplayPage::NetworkSpeed(NetDataTrafficSpeedPage { prev_speed: Some(drawn) })
            &&& !tick_draws(shown, WiFiConnectStatus::Connected, t3, drawn)
            &&& tick_draws(away, WiFiConnectStatus::Connected, t3, drawn)
        }),
{
}

} // verus!
