//! The browser window as a state machine.
//!
//! [`ShellState`] is what the window shows, as a mathematical value.
//! [`ShellState::next`] and [`ShellState::effect_of`] say, for one state and
//! one [`Event`], what the window shows afterwards and what it asks of the
//! outside. [`BrowserShell`] is the executable form: one handler per
//! notification, each with the same meaning as the model.
use vstd::prelude::*;
use crate::config::{PAGE_URL, PROGRESS_RESET_DELAY_MS, TITLE};
use crate::progress::Fraction;
use crate::theme::{select_stylesheet, stylesheet_of, Stylesheet};

verus! {

/// The phases of a page load, as the web engine announces them. A load
/// starts, may be redirected, is committed, and finishes.
#[derive(Clone, Copy, Debug, PartialEq, Eq, Structural)]
pub enum LoadEvent {
    Started,
    Redirected,
    Committed,
    Finished,
}

/// What the shell asks of the outside in answer to an event.
#[derive(Clone, Copy, Debug, PartialEq, Eq, Structural)]
pub enum Effect {
    /// Tell the web engine to go back one entry in its history.
    GoBack,
    /// Start a timer that does not block, and deliver
    /// [`Event::ResetElapsed`] once `delay_ms` milliseconds have passed.
    ScheduleProgressReset { delay_ms: u64 },
    /// Put the given stylesheet on the whole display.
    ApplyStylesheet(Stylesheet),
}

/// A notification that reaches the shell.
#[derive(Debug)]
pub enum Event {
    /// The web engine reports a new estimate of the load progress.
    ProgressChanged(Fraction),
    /// The web engine announces a phase of a load. `can_go_back` says
    /// whether its backward history holds an entry at that moment.
    LoadChanged { phase: LoadEvent, can_go_back: bool },
    /// The address of the page in the web view has changed.
    UriChanged(String),
    /// The back button was activated.
    BackClicked,
    /// The platform's theme or its preference for dark applications has
    /// changed, or is read for the first time.
    ThemeChanged { theme_name: String, prefer_dark: bool },
    /// A timer started for [`Effect::ScheduleProgressReset`] has run out.
    ResetElapsed,
}

/// An [`Event`] with its strings as sequences of characters.
pub enum EventView {
    ProgressChanged(Fraction),
    LoadChanged { phase: LoadEvent, can_go_back: bool },
    UriChanged(Seq<char>),
    BackClicked,
    ThemeChanged { theme_name: Seq<char>, prefer_dark: bool },
    ResetElapsed,
}

impl View for Event {
    type V = EventView;

    open spec fn view(&self) -> EventView {
        match *self {
            Event::ProgressChanged(p) => EventView::ProgressChanged(p),
            Event::LoadChanged { phase, can_go_back } => EventView::LoadChanged {
                phase,
                can_go_back,
            },
            Event::UriChanged(uri) => EventView::UriChanged(uri@),
            Event::BackClicked => EventView::BackClicked,
            Event::ThemeChanged { theme_name, prefer_dark } => EventView::ThemeChanged {
                theme_name: theme_name@,
                prefer_dark,
            },
            Event::ResetElapsed => EventView::ResetElapsed,
        }
    }
}

/// What the window shows.
pub struct ShellState {
    /// Whether the back button can be activated.
    pub back_enabled: bool,
    /// The fraction that the progress indicator displays.
    pub progress: Fraction,
    /// The line beneath the title.
    pub subtitle: Seq<char>,
    /// The stylesheet on the display, once one has been applied.
    pub stylesheet: Option<Stylesheet>,
}

impl ShellState {
    /// The window as it is built: the back button disabled, no progress, the
    /// start page's address beneath the title, no stylesheet applied yet.
    pub open spec fn initial() -> ShellState {
        ShellState {
            back_enabled: false,
            progress: Fraction::spec_zero(),
            subtitle: PAGE_URL@,
            stylesheet: None,
        }
    }

    /// The indicator displays the reported value.
    pub open spec fn after_progress(self, progress: Fraction) -> ShellState {
        ShellState { progress, ..self }
    }

    /// The end of a load sets the back button by the engine's history; the
    /// other phases change nothing.
    pub open spec fn after_load(self, phase: LoadEvent, can_go_back: bool) -> ShellState {
        if phase == LoadEvent::Finished {
            ShellState { back_enabled: can_go_back, ..self }
        } else {
            self
        }
    }

    /// The subtitle follows the page's address.
    pub open spec fn after_uri(self, uri: Seq<char>) -> ShellState {
        ShellState { subtitle: uri, ..self }
    }

    /// The display wears the given stylesheet.
    pub open spec fn after_stylesheet(self, sheet: Stylesheet) -> ShellState {
        ShellState { stylesheet: Some(sheet), ..self }
    }

    /// The indicator is cleared.
    pub open spec fn after_reset(self) -> ShellState {
        ShellState { progress: Fraction::spec_zero(), ..self }
    }

    /// What the window shows after one event.
    pub open spec fn next(self, event: EventView) -> ShellState {
        match event {
            EventView::ProgressChanged(p) => self.after_progress(p),
            EventView::LoadChanged { phase, can_go_back } => self.after_load(phase, can_go_back),
            EventView::UriChanged(uri) => self.after_uri(uri),
            EventView::BackClicked => self,
            EventView::ThemeChanged { theme_name, prefer_dark } => self.after_stylesheet(
                stylesheet_of(theme_name, prefer_dark),
            ),
            EventView::ResetElapsed => self.after_reset(),
        }
    }

    /// What the shell asks of the outside in answer to one event.
    pub open spec fn effect_of(self, event: EventView) -> Option<Effect> {
        match event {
            EventView::ProgressChanged(_) => None,
            EventView::LoadChanged { phase, can_go_back } => load_effect(phase),
            EventView::UriChanged(_) => None,
            EventView::BackClicked => self.click_effect(),
            EventView::ThemeChanged { theme_name, prefer_dark } => Some(
                Effect::ApplyStylesheet(stylesheet_of(theme_name, prefer_dark)),
            ),
            EventView::ResetElapsed => None,
        }
    }

    /// A click on the enabled back button asks for one step back; a click on
    /// the disabled button asks for nothing.
    pub open spec fn click_effect(self) -> Option<Effect> {
        if self.back_enabled {
            Some(Effect::GoBack)
        } else {
            None
        }
    }
}

/// The end of a load asks for one reset of the indicator, after the fixed
/// delay; the other phases ask for nothing.
pub open spec fn load_effect(phase: LoadEvent) -> Option<Effect> {
    if phase == LoadEvent::Finished {
        Some(Effect::ScheduleProgressReset { delay_ms: PROGRESS_RESET_DELAY_MS })
    } else {
        None
    }
}

/// The state of one browser window, owned by whoever forwards the
/// notifications.
#[derive(Debug)]
pub struct BrowserShell {
    back_enabled: bool,
    progress: Fraction,
    subtitle: String,
    stylesheet: Option<Stylesheet>,
}

impl View for BrowserShell {
    type V = ShellState;

    closed spec fn view(&self) -> ShellState {
        ShellState {
            back_enabled: self.back_enabled,
            progress: self.progress,
            subtitle: self.subtitle@,
            stylesheet: self.stylesheet,
        }
    }
}

impl BrowserShell {
    /// The shell of a window that has just been built.
    pub fn new() -> (shell: BrowserShell)
        ensures
            shell@ == ShellState::initial(),
    {
        BrowserShell {
            back_enabled: false,
            progress: Fraction::zero(),
            subtitle: PAGE_URL.to_owned(),
            stylesheet: None,
        }
    }

    /// Whether the back button can be activated.
    pub fn back_enabled(&self) -> (r: bool)
        ensures
            r == self@.back_enabled,
    {
        self.back_enabled
    }

    /// The fraction that the progress indicator displays.
    pub fn progress(&self) -> (r: Fraction)
        ensures
            r == self@.progress,
    {
        self.progress
    }

    /// The title in the header bar.
    pub fn title(&self) -> (r: &'static str)
        ensures
            r@ == TITLE@,
    {
        TITLE
    }

    /// The line beneath the title.
    pub fn subtitle(&self) -> (r: &str)
        ensures
            r@ == self@.subtitle,
    {
        self.subtitle.as_str()
    }

    /// The stylesheet on the display, if one has been applied.
    pub fn stylesheet(&self) -> (r: Option<Stylesheet>)
        ensures
            r == self@.stylesheet,
    {
        self.stylesheet
    }

    /// The web engine reports a new estimate of the load progress: the
    /// shell holds exactly that value for the indicator. An indicator
    /// displays numbers of the unit interval as they are; what it makes of
    /// any other number is the toolkit's affair.
    pub fn on_progress_changed(&mut self, progress: Fraction)
        ensures
            final(self)@ == old(self)@.after_progress(progress),
    {
        self.progress = progress;
    }

    /// The web engine announces a phase of a load. When the load has
    /// finished, the back button is enabled exactly if the engine can go
    /// back, and one reset of the indicator is asked for; every other phase
    /// is ignored.
    pub fn on_load_changed(&mut self, phase: LoadEvent, can_go_back: bool) -> (effect: Option<
        Effect,
    >)
        ensures
            final(self)@ == old(self)@.after_load(phase, can_go_back),
            effect == load_effect(phase),
    {
        match phase {
            LoadEvent::Started => None,
            LoadEvent::Redirected => None,
            LoadEvent::Committed => None,
            LoadEvent::Finished => {
                self.back_enabled = can_go_back;
                Some(Effect::ScheduleProgressReset { delay_ms: PROGRESS_RESET_DELAY_MS })
            },
        }
    }

    /// A reset timer has run out: the indicator is cleared.
    pub fn on_reset_elapsed(&mut self)
        ensures
            final(self)@ == old(self)@.after_reset(),
    {
        self.progress = Fraction::zero();
    }

    /// The page's address has changed: the subtitle shows the new one.
    pub fn on_uri_changed(&mut self, uri: &str)
        ensures
            final(self)@ == old(self)@.after_uri(uri@),
    {
        self.subtitle = uri.to_owned();
    }

    /// The back button was activated. Nothing that the window shows
    /// changes; the engine is asked to go back if the button is enabled.
    pub fn on_back_clicked(&self) -> (effect: Option<Effect>)
        ensures
            effect == self@.click_effect(),
    {
        if self.back_enabled {
            Some(Effect::GoBack)
        } else {
            None
        }
    }

    /// Records that `sheet` is the stylesheet to wear, and asks for it to be
    /// applied.
    pub fn apply_stylesheet(&mut self, sheet: Stylesheet) -> (effect: Effect)
        ensures
            final(self)@ == old(self)@.after_stylesheet(sheet),
            effect == Effect::ApplyStylesheet(sheet),
    {
        self.stylesheet = Some(sheet);
        Effect::ApplyStylesheet(sheet)
    }

    /// The platform's theme or its preference for dark applications has
    /// changed: the stylesheet is chosen anew and applied again, whether or
    /// not the choice differs from the last one.
    pub fn on_theme_changed(&mut self, theme_name: &str, prefer_dark: bool) -> (effect: Effect)
        ensures
            final(self)@ == old(self)@.after_stylesheet(stylesheet_of(theme_name@, prefer_dark)),
            effect == Effect::ApplyStylesheet(stylesheet_of(theme_name@, prefer_dark)),
    {
        let sheet = select_stylesheet(theme_name, prefer_dark);
        self.apply_stylesheet(sheet)
    }

    /// Forwards an event to its handler.
    pub fn handle(&mut self, event: &Event) -> (effect: Option<Effect>)
        ensures
            final(self)@ == old(self)@.next(event@),
            effect == old(self)@.effect_of(event@),
    {
        match event {
            Event::ProgressChanged(p) => {
                self.on_progress_changed(*p);
                None
            },
            Event::LoadChanged { phase, can_go_back } => self.on_load_changed(
                *phase,
                *can_go_back,
            ),
            Event::UriChanged(uri) => {
                self.on_uri_changed(uri.as_str());
                None
            },
            Event::BackClicked => self.on_back_clicked(),
            Event::ThemeChanged { theme_name, prefer_dark } => Some(
                self.on_theme_changed(theme_name.as_str(), *prefer_dark),
            ),
            Event::ResetElapsed => {
                self.on_reset_elapsed();
                None
            },
        }
    }
}

} // verus!
