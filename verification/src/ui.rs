//! Window behaviour that does not depend on drawing: page navigation, the
//! chart history, closing to the tray, idle repaint pacing and the colour
//! level of a reading.
use vstd::prelude::*;
use std::collections::VecDeque;
use crate::curve::keep_last;
use crate::session::MetricsSnapshot;
use crate::platform::UiChrome;

verus! {

/// Samples kept per chart line.
pub const CHART_HISTORY_SIZE: usize = 60;

/// Closing the window hides it in the tray unless the program is quitting.
pub fn hide_on_close(close_to_tray: bool, quitting: bool) -> (r: bool)
    ensures
        r == (close_to_tray && !quitting),
{
    close_to_tray && !quitting
}

/// Whether to draw the window and how soon to wake up again.
#[derive(Clone, Copy, Debug, PartialEq, Eq, Structural)]
pub struct IdlePaintPolicy {
    pub paint_ui: bool,
    pub repaint_after_ms: u64,
}

/// Hidden in the tray: no drawing, one wake-up a second. Visible: live
/// refresh every 200 ms.
pub fn idle_paint_policy(hidden_to_tray: bool) -> (r: IdlePaintPolicy)
    ensures
        r.paint_ui == !hidden_to_tray,
        r.repaint_after_ms == (if hidden_to_tray { 1000u64 } else { 200u64 }),
{
    if hidden_to_tray {
        IdlePaintPolicy { paint_ui: false, repaint_after_ms: 1000 }
    } else {
        IdlePaintPolicy { paint_ui: true, repaint_after_ms: 200 }
    }
}

/// The window's pages.
#[derive(Clone, Copy, Debug, PartialEq, Eq, Structural)]
pub enum Page {
    Home,
    Settings,
    About,
    Diagnostics,
}

/// The current page and the pages to go back to.
#[derive(Clone, Debug)]
pub struct Nav {
    pub page: Page,
    pub stack: Vec<Page>,
}

/// Opening `dest`: the current page is remembered unless it is `dest`.
pub open spec fn go_spec(page: Page, stack: Seq<Page>, dest: Page) -> (Page, Seq<Page>) {
    if dest == page {
        (page, stack)
    } else {
        (dest, stack.push(page))
    }
}

/// Going back: the last remembered page, or home when there is none.
pub open spec fn back_spec(page: Page, stack: Seq<Page>) -> (Page, Seq<Page>) {
    if stack.len() > 0 {
        (stack.last(), stack.drop_last())
    } else {
        (Page::Home, stack)
    }
}

impl Nav {
    pub fn home() -> (r: Nav)
        ensures
            r.page == Page::Home,
            r.stack@ == Seq::<Page>::empty(),
    {
        Nav { page: Page::Home, stack: Vec::new() }
    }

    pub fn go(&mut self, dest: Page)
        ensures
            (final(self).page, final(self).stack@) == go_spec(old(self).page, old(self).stack@, dest),
    {
        if dest == self.page {
            return;
        }
        let current = self.page;
        self.stack.push(current);
        self.page = dest;
    }

    pub fn back(&mut self)
        ensures
            (final(self).page, final(self).stack@) == back_spec(old(self).page, old(self).stack@),
    {
        match self.stack.pop() {
            Some(p) => {
                self.page = p;
            },
            None => {
                self.page = Page::Home;
            },
        }
    }
}

/// Going to another page and back restores the page and the history.
pub proof fn lemma_go_back_restores(page: Page, stack: Seq<Page>, dest: Page)
    requires
        dest != page,
    ensures
        ({
            let (p, s) = go_spec(page, stack, dest);
            back_spec(p, s) == (page, stack)
        }),
{
    assert(stack.push(page).drop_last() =~= stack);
}

/// Appends a sample, dropping the oldest first once `CHART_HISTORY_SIZE`
/// or more are kept.
pub fn push_history(history: &mut VecDeque<i32>, value: i32)
    ensures
        old(history)@.len() >= CHART_HISTORY_SIZE ==> final(history)@ == old(history)@.drop_first().push(value),
        old(history)@.len() < CHART_HISTORY_SIZE ==> final(history)@ == old(history)@.push(value),
        old(history)@.len() <= CHART_HISTORY_SIZE ==> final(history)@ == keep_last(
            old(history)@.push(value),
            CHART_HISTORY_SIZE as nat,
        ),
        old(history)@.len() <= CHART_HISTORY_SIZE ==> final(history)@.len() <= CHART_HISTORY_SIZE,
{
    let ghost full = history@.push(value);
    let ghost before = history@;
    if history.len() >= CHART_HISTORY_SIZE {
        let _ = history.pop_front();
    }
    history.push_back(value);
    proof {
        if before.len() <= CHART_HISTORY_SIZE {
            assert(keep_last(full, CHART_HISTORY_SIZE as nat) =~= history@);
        }
    }
}

/// The recent temperature and fan speeds shown as charts.
pub struct ChartData {
    pub temperature: VecDeque<i32>,
    pub fan1: VecDeque<i32>,
    pub fan2: VecDeque<i32>,
    pub fan3: VecDeque<i32>,
}

impl ChartData {
    pub open spec fn bounded(&self) -> bool {
        &&& self.temperature@.len() <= CHART_HISTORY_SIZE
        &&& self.fan1@.len() <= CHART_HISTORY_SIZE
        &&& self.fan2@.len() <= CHART_HISTORY_SIZE
        &&& self.fan3@.len() <= CHART_HISTORY_SIZE
    }

    pub fn new() -> (r: ChartData)
        ensures
            r.temperature@.len() == 0,
            r.fan1@.len() == 0,
            r.fan2@.len() == 0,
            r.fan3@.len() == 0,
            r.bounded(),
    {
        ChartData {
            temperature: VecDeque::new(),
            fan1: VecDeque::new(),
            fan2: VecDeque::new(),
            fan3: VecDeque::new(),
        }
    }

    /// Adds one refresh: the temperature and each fan's speed.
    pub fn push(&mut self, metrics: &MetricsSnapshot)
        requires
            old(self).bounded(),
        ensures
            final(self).bounded(),
            final(self).temperature@ == keep_last(
                old(self).temperature@.push(metrics.temperature as i32),
                CHART_HISTORY_SIZE as nat,
            ),
            final(self).fan1@ == keep_last(old(self).fan1@.push(metrics.fans[0].rpm as i32), CHART_HISTORY_SIZE as nat),
            final(self).fan2@ == keep_last(old(self).fan2@.push(metrics.fans[1].rpm as i32), CHART_HISTORY_SIZE as nat),
            final(self).fan3@ == keep_last(old(self).fan3@.push(metrics.fans[2].rpm as i32), CHART_HISTORY_SIZE as nat),
    {
        push_history(&mut self.temperature, metrics.temperature as i32);
        push_history(&mut self.fan1, metrics.fans[0].rpm as i32);
        push_history(&mut self.fan2, metrics.fans[1].rpm as i32);
        push_history(&mut self.fan3, metrics.fans[2].rpm as i32);
    }
}

/// How alarming a reading looks.
#[derive(Clone, Copy, Debug, PartialEq, Eq, Structural)]
pub enum MetricLevel {
    Good,
    Warn,
    Bad,
}

/// Up to 50 °C is fine, up to 85 °C a warning, above that bad.
pub fn temp_level(temp: u8) -> (r: MetricLevel)
    ensures
        r == (if temp <= 50 { MetricLevel::Good } else if temp <= 85 { MetricLevel::Warn } else { MetricLevel::Bad }),
{
    if temp <= 50 {
        MetricLevel::Good
    } else if temp <= 85 {
        MetricLevel::Warn
    } else {
        MetricLevel::Bad
    }
}

/// Up to 1250 RPM is fine, up to 2500 RPM a warning, above that bad.
pub fn rpm_level(rpm: u16) -> (r: MetricLevel)
    ensures
        r == (if rpm <= 1250 { MetricLevel::Good } else if rpm <= 2500 { MetricLevel::Warn } else { MetricLevel::Bad }),
{
    if rpm <= 1250 {
        MetricLevel::Good
    } else if rpm <= 2500 {
        MetricLevel::Warn
    } else {
        MetricLevel::Bad
    }
}

/// A colour as premultiplied red, green, blue and alpha bytes.
#[derive(Clone, Copy, Debug, PartialEq, Eq, Structural)]
pub struct Rgba {
    pub r: u8,
    pub g: u8,
    pub b: u8,
    pub a: u8,
}

pub open spec fn rgb(r: u8, g: u8, b: u8) -> Rgba {
    Rgba { r, g, b, a: 255 }
}

/// Opaque colour.
pub fn from_rgb(r: u8, g: u8, b: u8) -> (c: Rgba)
    ensures
        c == rgb(r, g, b),
{
    Rgba { r, g, b, a: 255 }
}

/// Translucent white, premultiplied.
pub fn white_alpha(a: u8) -> (c: Rgba)
    ensures
        c == (Rgba { r: a, g: a, b: a, a }),
{
    Rgba { r: a, g: a, b: a, a }
}

/// Translucent black.
pub fn black_alpha(a: u8) -> (c: Rgba)
    ensures
        c == (Rgba { r: 0, g: 0, b: 0, a }),
{
    Rgba { r: 0, g: 0, b: 0, a }
}

/// The window's colours.
#[derive(Clone, Copy, Debug, PartialEq, Eq, Structural)]
pub struct Theme {
    pub dark: bool,
    pub bg: Rgba,
    pub surface: Rgba,
    pub text: Rgba,
    pub muted: Rgba,
    pub accent: Rgba,
    pub accent_fg: Rgba,
    pub control: Rgba,
    pub control_hover: Rgba,
    pub stroke: Rgba,
    pub ok: Rgba,
    pub warn: Rgba,
    pub bad: Rgba,
    pub shadow: Rgba,
}

/// Text on the accent colour: near-black on a light accent (channel sum at
/// least 500), white otherwise.
pub open spec fn accent_fg_spec(accent: (u8, u8, u8)) -> Rgba {
    if accent.0 as int + accent.1 as int + accent.2 as int >= 500 {
        rgb(26, 26, 26)
    } else {
        rgb(255, 255, 255)
    }
}

/// The Windows 11 style palette for the theme and accent in use.
pub open spec fn theme_spec(chrome: UiChrome) -> Theme {
    let accent = rgb(chrome.accent.0, chrome.accent.1, chrome.accent.2);
    if chrome.dark {
        Theme {
            dark: true,
            bg: rgb(32, 32, 32),
            surface: rgb(44, 44, 44),
            text: rgb(255, 255, 255),
            muted: rgb(197, 197, 197),
            accent,
            accent_fg: accent_fg_spec(chrome.accent),
            control: rgb(55, 55, 55),
            control_hover: rgb(68, 68, 68),
            stroke: Rgba { r: 20, g: 20, b: 20, a: 20 },
            ok: rgb(108, 203, 95),
            warn: rgb(252, 225, 0),
            bad: rgb(255, 153, 164),
            shadow: Rgba { r: 20, g: 20, b: 20, a: 20 },
        }
    } else {
        Theme {
            dark: false,
            bg: rgb(243, 243, 243),
            surface: rgb(255, 255, 255),
            text: rgb(26, 26, 26),
            muted: rgb(92, 92, 92),
            accent,
            accent_fg: accent_fg_spec(chrome.accent),
            control: rgb(251, 251, 251),
            control_hover: rgb(237, 237, 237),
            stroke: Rgba { r: 0, g: 0, b: 0, a: 15 },
            ok: rgb(16, 124, 16),
            warn: rgb(157, 93, 0),
            bad: rgb(196, 43, 28),
            shadow: Rgba { r: 0, g: 0, b: 0, a: 15 },
        }
    }
}

impl Theme {
    pub fn from_chrome(chrome: UiChrome) -> (t: Theme)
        ensures
            t == theme_spec(chrome),
    {
        let accent = from_rgb(chrome.accent.0, chrome.accent.1, chrome.accent.2);
        let sum: u16 = chrome.accent.0 as u16 + chrome.accent.1 as u16 + chrome.accent.2 as u16;
        let accent_fg = if sum >= 500 {
            from_rgb(26, 26, 26)
        } else {
            from_rgb(255, 255, 255)
        };
        if chrome.dark {
            Theme {
                dark: true,
                bg: from_rgb(32, 32, 32),
                surface: from_rgb(44, 44, 44),
                text: from_rgb(255, 255, 255),
                muted: from_rgb(197, 197, 197),
                accent,
                accent_fg,
                control: from_rgb(55, 55, 55),
                control_hover: from_rgb(68, 68, 68),
                stroke: white_alpha(20),
                ok: from_rgb(108, 203, 95),
                warn: from_rgb(252, 225, 0),
                bad: from_rgb(255, 153, 164),
                shadow: white_alpha(20),
            }
        } else {
            Theme {
                dark: false,
                bg: from_rgb(243, 243, 243),
                surface: from_rgb(255, 255, 255),
                text: from_rgb(26, 26, 26),
                muted: from_rgb(92, 92, 92),
                accent,
                accent_fg,
                control: from_rgb(251, 251, 251),
                control_hover: from_rgb(237, 237, 237),
                stroke: black_alpha(15),
                ok: from_rgb(16, 124, 16),
                warn: from_rgb(157, 93, 0),
                bad: from_rgb(196, 43, 28),
                shadow: black_alpha(15),
            }
        }
    }

    /// The colour of a reading's level.
    pub fn level_color(&self, level: MetricLevel) -> (c: Rgba)
        ensures
            c == (match level {
                MetricLevel::Good => self.ok,
                MetricLevel::Warn => self.warn,
                MetricLevel::Bad => self.bad,
            }),
    {
        match level {
            MetricLevel::Good => self.ok,
            MetricLevel::Warn => self.warn,
            MetricLevel::Bad => self.bad,
        }
    }
}

/// Colour of a temperature reading.
pub fn temp_color(theme: &Theme, temp: u8) -> (c: Rgba)
    ensures
        c == (if temp <= 50 { theme.ok } else if temp <= 85 { theme.warn } else { theme.bad }),
{
    theme.level_color(temp_level(temp))
}

/// Colour of a fan-speed reading.
pub fn rpm_color(theme: &Theme, rpm: u16) -> (c: Rgba)
    ensures
        c == (if rpm <= 1250 { theme.ok } else if rpm <= 2500 { theme.warn } else { theme.bad }),
{
    theme.level_color(rpm_level(rpm))
}

} // verus!
