//! What holds of the window over whole sequences of events.
//!
//! The handlers of [`crate::shell::BrowserShell`] are specified one event at
//! a time. The functions here deliver sequences of events to the model, and
//! the laws below say what the window then shows and has asked for.
use vstd::prelude::*;
use crate::config::{PAGE_URL, PROGRESS_RESET_DELAY_MS};
use crate::progress::Fraction;
use crate::shell::{BrowserShell, Effect, Event, EventView, LoadEvent, ShellState};
use crate::theme::{lowercase_of, names_dark, stylesheet_of, Stylesheet};

verus! {

/// What the window shows after `events` have been delivered in order,
/// starting from `start`.
pub open spec fn run(start: ShellState, events: Seq<EventView>) -> ShellState
    decreases events.len(),
{
    if events.len() == 0 {
        start
    } else {
        run(start, events.drop_last()).next(events.last())
    }
}

/// What the shell has asked of the outside while `events` were delivered, in
/// the order of the asking.
pub open spec fn effects(start: ShellState, events: Seq<EventView>) -> Seq<Effect>
    decreases events.len(),
{
    if events.len() == 0 {
        Seq::empty()
    } else {
        let before = effects(start, events.drop_last());
        match run(start, events.drop_last()).effect_of(events.last()) {
            Some(effect) => before.push(effect),
            None => before,
        }
    }
}

/// The events of a queue as the model sees them.
pub open spec fn views(events: Seq<Event>) -> Seq<EventView> {
    Seq::new(events.len(), |i: int| events[i]@)
}

impl BrowserShell {
    /// Delivers the events of a queue in order, and returns what the shell
    /// asks for in answer, in the order of the asking.
    pub fn handle_all(&mut self, events: &Vec<Event>) -> (asked: Vec<Effect>)
        ensures
            final(self)@ == run(old(self)@, views(events@)),
            asked@ == effects(old(self)@, views(events@)),
    {
        let ghost start = self@;
        let ghost all = views(events@);
        let mut asked: Vec<Effect> = Vec::new();
        let mut i: usize = 0;
        while i < events.len()
            invariant
                i <= events.len(),
                all == views(events@),
                self@ == run(start, all.take(i as int)),
                asked@ == effects(start, all.take(i as int)),
            decreases events.len() - i,
        {
            let effect = self.handle(&events[i]);
            proof {
                assert(all.take(i + 1) =~= all.take(i as int).push(all[i as int]));
                lemma_run_push(start, all.take(i as int), all[i as int]);
            }
            match effect {
                Some(e) => {
                    asked.push(e);
                },
                None => {},
            }
            i += 1;
        }
        assert(all.take(events.len() as int) =~= all);
        asked
    }
}

/// The fraction on display after each of `events` in turn.
pub open spec fn displayed(start: ShellState, events: Seq<EventView>) -> Seq<Fraction> {
    Seq::new(events.len(), |k: int| run(start, events.take(k + 1)).progress)
}

/// One progress report for each of `values`, in order.
pub open spec fn reports(values: Seq<Fraction>) -> Seq<EventView> {
    Seq::new(values.len(), |i: int| EventView::ProgressChanged(values[i]))
}

/// Whether each value is at most the one after it.
pub open spec fn ascending(values: Seq<Fraction>) -> bool {
    forall|i: int, j: int| 0 <= i <= j < values.len() ==> values[i].spec_at_most(values[j])
}

/// Whether an event is the end of a load.
pub open spec fn is_finished_load(event: EventView) -> bool {
    event matches EventView::LoadChanged { phase, .. } && phase == LoadEvent::Finished
}

/// What the engine's backward history was at the last load among `events`
/// that finished: `Some(true)` if it held an entry, `None` if no load has
/// finished.
pub open spec fn last_finished(events: Seq<EventView>) -> Option<bool>
    decreases events.len(),
{
    if events.len() == 0 {
        None
    } else {
        match events.last() {
            EventView::LoadChanged { phase, can_go_back } => if phase == LoadEvent::Finished {
                Some(can_go_back)
            } else {
                last_finished(events.drop_last())
            },
            _ => last_finished(events.drop_last()),
        }
    }
}

/// The address of the page in the web view after `events`: the one of the
/// last change, or the start page's if the address never changed.
pub open spec fn current_uri(events: Seq<EventView>) -> Seq<char>
    decreases events.len(),
{
    if events.len() == 0 {
        PAGE_URL@
    } else {
        match events.last() {
            EventView::UriChanged(uri) => uri,
            _ => current_uri(events.drop_last()),
        }
    }
}

/// What the last of `events` that touches the indicator leaves on it: the
/// value of a progress report, zero for a reset, `None` if no event
/// touches it.
pub open spec fn last_progress_written(events: Seq<EventView>) -> Option<Fraction>
    decreases events.len(),
{
    if events.len() == 0 {
        None
    } else {
        match events.last() {
            EventView::ProgressChanged(p) => Some(p),
            EventView::ResetElapsed => Some(Fraction::spec_zero()),
            _ => last_progress_written(events.drop_last()),
        }
    }
}

/// How many of `events` are the end of a load.
pub open spec fn finished_loads(events: Seq<EventView>) -> nat
    decreases events.len(),
{
    if events.len() == 0 {
        0
    } else if is_finished_load(events.last()) {
        finished_loads(events.drop_last()) + 1
    } else {
        finished_loads(events.drop_last())
    }
}

/// How many of `asked` are requests for a reset of the indicator.
pub open spec fn resets_asked(asked: Seq<Effect>) -> nat
    decreases asked.len(),
{
    if asked.len() == 0 {
        0
    } else if asked.last() is ScheduleProgressReset {
        resets_asked(asked.drop_last()) + 1
    } else {
        resets_asked(asked.drop_last())
    }
}

/// Whether every progress report among `events` is a number of the unit
/// interval.
pub open spec fn reports_in_unit_interval(events: Seq<EventView>) -> bool {
    forall|i: int|
        0 <= i < events.len() ==> (#[trigger] events[i] matches EventView::ProgressChanged(p)
            ==> p.is_unit())
}

/// Right after the report of a progress value of the unit interval the
/// indicator displays that value, whatever it displayed before and whatever
/// else has happened. The report changes nothing else and asks for nothing,
/// and a second report of the same value leaves the window as the first one
/// did.
pub proof fn law_progress_shows_report(start: ShellState, events: Seq<EventView>, p: Fraction)
    requires
        p.is_unit(),
    ensures
        run(start, events.push(EventView::ProgressChanged(p))).progress == p,
        run(start, events.push(EventView::ProgressChanged(p))) == run(start, events).after_progress(
            p,
        ),
        effects(start, events.push(EventView::ProgressChanged(p))) == effects(start, events),
        run(start, events.push(EventView::ProgressChanged(p)).push(EventView::ProgressChanged(p)))
            == run(start, events.push(EventView::ProgressChanged(p))),
{
    let report = EventView::ProgressChanged(p);
    lemma_run_push(start, events, report);
    lemma_run_push(start, events.push(report), report);
}

/// Over a run of progress reports the indicator displays the reported values
/// one after the other: so where the reports ascend, what is displayed
/// ascends with them.
pub proof fn law_progress_keeps_order(start: ShellState, values: Seq<Fraction>)
    requires
        forall|i: int| 0 <= i < values.len() ==> (#[trigger] values[i]).is_unit(),
        ascending(values),
    ensures
        displayed(start, reports(values)) == values,
        ascending(displayed(start, reports(values))),
{
    let events = reports(values);
    assert forall|k: int| 0 <= k < values.len() implies #[trigger] displayed(start, events)[k]
        == values[k] by {
        let prefix = events.take(k + 1);
        assert(prefix.last() == EventView::ProgressChanged(values[k]));
    }
    assert(displayed(start, events) =~= values);
}

/// As long as every reported value lies in the unit interval, so does what
/// the indicator displays.
pub proof fn law_progress_stays_in_unit_interval(start: ShellState, events: Seq<EventView>)
    requires
        start.progress.is_unit(),
        reports_in_unit_interval(events),
    ensures
        run(start, events).progress.is_unit(),
    decreases events.len(),
{
    if events.len() > 0 {
        let before = events.drop_last();
        assert forall|i: int| 0 <= i < before.len() implies (#[trigger] before[i] matches EventView::ProgressChanged(
            p,
        ) ==> p.is_unit()) by {
            assert(before[i] == events[i]);
        }
        law_progress_stays_in_unit_interval(start, before);
        assert(events.last() == events[events.len() - 1]);
    }
}

/// When a reset timer runs out the indicator is cleared, whatever came
/// before: a progress report, one finished load, or several whose timers are
/// all still running. A reset changes nothing else and asks for nothing, and
/// a second reset leaves the window as the first one did.
pub proof fn law_reset_clears_progress(start: ShellState, events: Seq<EventView>)
    ensures
        run(start, events.push(EventView::ResetElapsed)).progress == Fraction::spec_zero(),
        run(start, events.push(EventView::ResetElapsed)) == run(start, events).after_reset(),
        effects(start, events.push(EventView::ResetElapsed)) == effects(start, events),
        run(start, events.push(EventView::ResetElapsed).push(EventView::ResetElapsed)) == run(
            start,
            events.push(EventView::ResetElapsed),
        ),
{
    lemma_run_push(start, events, EventView::ResetElapsed);
    lemma_run_push(start, events.push(EventView::ResetElapsed), EventView::ResetElapsed);
}

/// The indicator displays what was last written to it, by a progress report
/// or by a reset, and nothing else touches it. So once the timers of all
/// finished loads have run out it is clear, however many there were, until
/// the next report.
pub proof fn law_progress_is_last_written(start: ShellState, events: Seq<EventView>)
    ensures
        run(start, events).progress == match last_progress_written(events) {
            Some(p) => p,
            None => start.progress,
        },
    decreases events.len(),
{
    if events.len() > 0 {
        law_progress_is_last_written(start, events.drop_last());
    }
}

/// The end of a load asks for one reset of the indicator, after the fixed
/// delay, and for nothing else; no other phase of a load asks for anything.
pub proof fn law_finished_load_asks_for_one_reset(
    start: ShellState,
    events: Seq<EventView>,
    phase: LoadEvent,
    can_go_back: bool,
)
    ensures
        phase == LoadEvent::Finished ==> effects(
            start,
            events.push(EventView::LoadChanged { phase, can_go_back }),
        ) == effects(start, events).push(
            Effect::ScheduleProgressReset { delay_ms: PROGRESS_RESET_DELAY_MS },
        ),
        phase != LoadEvent::Finished ==> effects(
            start,
            events.push(EventView::LoadChanged { phase, can_go_back }),
        ) == effects(start, events),
        phase != LoadEvent::Finished ==> run(
            start,
            events.push(EventView::LoadChanged { phase, can_go_back }),
        ) == run(start, events),
{
    lemma_run_push(start, events, EventView::LoadChanged { phase, can_go_back });
}

/// As many resets are asked for as loads have finished: two loads that
/// finish shortly after one another get a reset each.
pub proof fn law_one_reset_per_finished_load(start: ShellState, events: Seq<EventView>)
    ensures
        resets_asked(effects(start, events)) == finished_loads(events),
    decreases events.len(),
{
    if events.len() > 0 {
        let before = events.drop_last();
        law_one_reset_per_finished_load(start, before);
        let asked = effects(start, before);
        match run(start, before).effect_of(events.last()) {
            Some(effect) => {
                assert(asked.push(effect).drop_last() =~= asked);
                assert(asked.push(effect).last() == effect);
            },
            None => {},
        }
    }
}

/// The back button is enabled exactly if the engine's backward history held
/// an entry when the last load finished. Until a load has finished it is as
/// it was at the start, and a window that has just been built has it
/// disabled.
pub proof fn law_back_button_follows_last_finished_load(start: ShellState, events: Seq<EventView>)
    ensures
        run(start, events).back_enabled == match last_finished(events) {
            Some(can_go_back) => can_go_back,
            None => start.back_enabled,
        },
        !ShellState::initial().back_enabled,
    decreases events.len(),
{
    if events.len() > 0 {
        law_back_button_follows_last_finished_load(start, events.drop_last());
    }
}

/// A click on the back button asks the engine for exactly one step back
/// when the button is enabled, and for nothing when it is disabled. What the
/// window shows stays as it is either way.
pub proof fn law_click_goes_back_once(start: ShellState, events: Seq<EventView>)
    ensures
        run(start, events.push(EventView::BackClicked)) == run(start, events),
        run(start, events).back_enabled ==> effects(start, events.push(EventView::BackClicked))
            == effects(start, events).push(Effect::GoBack),
        !run(start, events).back_enabled ==> effects(start, events.push(EventView::BackClicked))
            == effects(start, events),
{
    lemma_run_push(start, events, EventView::BackClicked);
}

/// The subtitle is the address of the page in the web view: the start
/// page's when the window is built, and from then on the one of the last
/// change.
pub proof fn law_subtitle_is_current_uri(events: Seq<EventView>)
    ensures
        run(ShellState::initial(), events).subtitle == current_uri(events),
    decreases events.len(),
{
    if events.len() > 0 {
        law_subtitle_is_current_uri(events.drop_last());
    }
}

/// When the platform comes to prefer dark applications, the dark stylesheet
/// is applied; when it no longer does, the light one is applied again. Both
/// happen in the running window, and each change of the preference applies
/// a stylesheet once. The theme's own name must not say "dark": such a
/// theme is dark whatever the preference.
pub proof fn law_preference_switches_stylesheet(
    start: ShellState,
    events: Seq<EventView>,
    theme_name: Seq<char>,
)
    requires
        !names_dark(lowercase_of(theme_name)),
    ensures
        ({
            let to_dark = EventView::ThemeChanged { theme_name, prefer_dark: true };
            let to_light = EventView::ThemeChanged { theme_name, prefer_dark: false };
            let darkened = events.push(to_dark);
            let reverted = darkened.push(to_light);
            &&& run(start, darkened).stylesheet == Some(Stylesheet::Dark)
            &&& effects(start, darkened) == effects(start, events).push(
                Effect::ApplyStylesheet(Stylesheet::Dark),
            )
            &&& run(start, reverted).stylesheet == Some(Stylesheet::Light)
            &&& effects(start, reverted) == effects(start, darkened).push(
                Effect::ApplyStylesheet(Stylesheet::Light),
            )
        }),
{
    let to_dark = EventView::ThemeChanged { theme_name, prefer_dark: true };
    let to_light = EventView::ThemeChanged { theme_name, prefer_dark: false };
    lemma_run_push(start, events, to_dark);
    lemma_run_push(start, events.push(to_dark), to_light);
}

/// Delivering one more event takes one more step.
pub proof fn lemma_run_push(start: ShellState, events: Seq<EventView>, event: EventView)
    ensures
        run(start, events.push(event)) == run(start, events).next(event),
        effects(start, events.push(event)) == match run(start, events).effect_of(event) {
            Some(effect) => effects(start, events).push(effect),
            None => effects(start, events),
        },
{
    assert(events.push(event).drop_last() =~= events);
    assert(events.push(event).last() == event);
}

} // verus!
