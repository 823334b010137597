//! The dispatch core: the game state, how input becomes actions, and how each action
//! changes the state.
use vstd::prelude::*;

use crate::events::{key_action, translate_key, AppEvent, Event, KeyInput, MouseInput};
use crate::game::{amount_for_round, amount_of, Data, ReloadAmount};
use crate::log_ring::{pushed, LogRing};
use crate::shotgun::{after_fire, fired, loaded_from, outcome_label, outcome_text, random_kinds, Shell};
use crate::widgets::{WidgetData, WidgetKind, WidgetsView};

verus! {

/// The widget stack after `event`.
pub open spec fn widgets_after(w: WidgetsView, event: AppEvent) -> WidgetsView {
    match event {
        AppEvent::ShowData => w.display_toggled(WidgetKind::Data),
        AppEvent::ShowLog => w.display_toggled(WidgetKind::Log),
        AppEvent::ShowInventory => w.display_toggled(WidgetKind::Inventory),
        AppEvent::ShowPlayer => w.display_toggled(WidgetKind::Player),
        AppEvent::FocusShotgun => w.focus_toggled(WidgetKind::Shotgun),
        AppEvent::ChangeFocus => w.focused_next(),
        AppEvent::ChangeFocusBack => w.focused_prev(),
        _ => w,
    }
}

/// The log after `event`, with `chamber` the shells loaded before it.
pub open spec fn log_after(log: Seq<Seq<char>>, chamber: Seq<Shell>, event: AppEvent) -> Seq<
    Seq<char>,
> {
    match event {
        AppEvent::Shoot => pushed(log, outcome_label(fired(chamber))),
        AppEvent::Unhandled => pushed(log, "Failure to catch event"@),
        _ => log,
    }
}

/// The log's scroll offset after `event`.
pub open spec fn offset_after(offset: u16, event: AppEvent) -> u16 {
    match event {
        AppEvent::ScrollUp => if offset > 0 {
            (offset - 1) as u16
        } else {
            0u16
        },
        AppEvent::ScrollDown => if offset < u16::MAX {
            (offset + 1) as u16
        } else {
            u16::MAX
        },
        _ => offset,
    }
}

/// The log after a mouse action.
pub open spec fn log_after_mouse(log: Seq<Seq<char>>, m: MouseInput) -> Seq<Seq<char>> {
    match m {
        MouseInput::ScrollUp => pushed(log, "scrolling up"@),
        MouseInput::DragLeft => pushed(log, "left dragging"@),
        MouseInput::DragOther => pushed(log, "some other dragging"@),
        MouseInput::Other => log,
    }
}

/// The whole game state, mutated only by the dispatch loop.
#[derive(Debug)]
pub struct App {
    /// Whether the dispatch loop goes on.
    pub running: bool,
    pub counter: u8,
    pub data: Data,
    pub widget_data: WidgetData,
    /// Narrative lines and diagnostics, with the log panel's scroll offset.
    pub log: LogRing,
}

impl App {
    pub open spec fn wf(&self) -> bool {
        self.widget_data@.wf() && self.log.wf()
    }

    /// A running game: empty shotgun at round 1, the starting panel layout and an empty log.
    pub fn new() -> (r: App)
        ensures
            r.wf(),
            r.running,
            r.counter == 0,
            r.data.shotgun.shells@.len() == 0,
            r.data.match_data.round() == 1,
            r.widget_data@.focus_coherent(),
            r.widget_data@.current_focus == Some(WidgetKind::Shotgun),
            r.widget_data@.render_stack.len() == 0,
            r.log@.len() == 0,
            r.log.offset() == 0,
    {
        App {
            running: true,
            counter: 0,
            data: Data::new(),
            widget_data: WidgetData::new(),
            log: LogRing::new(),
        }
    }

    /// Appends `message` to the log, if there is one.
    pub fn send_log(&mut self, message: Option<String>)
        ensures
            final(self).log@ == match message {
                Some(m) => pushed(old(self).log@, m@),
                None => old(self).log@,
            },
            final(self).log.offset() == old(self).log.offset(),
            old(self).log.wf() ==> final(self).log.wf(),
            final(self).running == old(self).running,
            final(self).counter == old(self).counter,
            final(self).data == old(self).data,
            final(self).widget_data == old(self).widget_data,
    {
        if let Some(msg) = message {
            self.log.push(msg);
        }
    }

    /// The action a key press asks for.
    pub fn handle_key_events(&self, key_event: KeyInput) -> (r: Option<AppEvent>)
        ensures
            r == key_action(key_event, self.widget_data@.focused(WidgetKind::Log)),
    {
        translate_key(key_event, self.widget_data.is_focused(WidgetKind::Log))
    }

    /// Logs a mouse action, and asks to scroll up on the wheel going up.
    pub fn handle_mouse_events(&mut self, mouse_event: MouseInput) -> (r: Option<AppEvent>)
        ensures
            r == if mouse_event == MouseInput::ScrollUp {
                Some(AppEvent::ScrollUp)
            } else {
                None
            },
            final(self).log@ == log_after_mouse(old(self).log@, mouse_event),
            final(self).log.offset() == old(self).log.offset(),
            old(self).log.wf() ==> final(self).log.wf(),
            final(self).running == old(self).running,
            final(self).counter == old(self).counter,
            final(self).data == old(self).data,
            final(self).widget_data == old(self).widget_data,
    {
        match mouse_event {
            MouseInput::ScrollUp => {
                self.send_log(Some(String::from_str("scrolling up")));
                Some(AppEvent::ScrollUp)
            },
            MouseInput::DragLeft => {
                self.send_log(Some(String::from_str("left dragging")));
                None
            },
            MouseInput::DragOther => {
                self.send_log(Some(String::from_str("some other dragging")));
                None
            },
            MouseInput::Other => None,
        }
    }

    /// The periodic timer's hook; nothing is time-driven yet.
    pub fn tick(&self) {
    }

    /// Stops the dispatch loop after the current event.
    pub fn quit(&mut self)
        ensures
            !final(self).running,
            final(self).counter == old(self).counter,
            final(self).data == old(self).data,
            final(self).widget_data == old(self).widget_data,
            final(self).log == old(self).log,
    {
        self.running = false;
    }

    /// Applies one action to the game state.
    pub fn dispatch(&mut self, event: AppEvent)
        ensures
            old(self).wf() ==> final(self).wf(),
            final(self).running == (old(self).running && event != AppEvent::Quit),
            final(self).counter == old(self).counter,
            final(self).data.match_data == old(self).data.match_data,
            event == AppEvent::Reload ==> final(self).data.shotgun.shells@.len() == amount_of(
                amount_for_round(old(self).data.match_data.round() as int),
            ),
            event == AppEvent::Reload ==> loaded_from(
                final(self).data.shotgun.shells@,
                random_kinds(),
                amount_of(amount_for_round(old(self).data.match_data.round() as int)),
            ),
            event == AppEvent::Shoot ==> final(self).data.shotgun.shells@ == after_fire(
                old(self).data.shotgun.shells@,
            ),
            event != AppEvent::Reload && event != AppEvent::Shoot ==> final(self).data.shotgun
                == old(self).data.shotgun,
            final(self).data.shotgun.state == old(self).data.shotgun.state,
            final(self).data.shotgun.model == old(self).data.shotgun.model,
            final(self).log@ == log_after(old(self).log@, old(self).data.shotgun.shells@, event),
            final(self).log.offset() == offset_after(old(self).log.offset(), event),
            final(self).widget_data@ == widgets_after(old(self).widget_data@, event),
            old(self).wf() && old(self).widget_data@.focus_coherent() && event
                != AppEvent::FocusShotgun ==> final(self).widget_data@.focus_coherent(),
    {
        match event {
            AppEvent::Quit => self.quit(),
            AppEvent::Reload => {
                let amount = ReloadAmount::for_round(self.data.match_data.count());
                self.data.shotgun.load_random_shells(amount.as_usize());
            },
            AppEvent::Shoot => {
                let outcome = self.data.shotgun.shoot();
                self.send_log(Some(outcome_text(outcome)));
            },
            AppEvent::ShowData => self.widget_data.toggle_widget(WidgetKind::Data),
            AppEvent::ShowLog => self.widget_data.toggle_widget(WidgetKind::Log),
            AppEvent::ShowInventory => self.widget_data.toggle_widget(WidgetKind::Inventory),
            AppEvent::ShowPlayer => self.widget_data.toggle_widget(WidgetKind::Player),
            AppEvent::FocusShotgun => self.widget_data.toggle_focus(WidgetKind::Shotgun),
            AppEvent::ScrollUp => self.log.scroll_up(),
            AppEvent::ScrollDown => self.log.scroll_down(),
            AppEvent::ChangeFocus => self.widget_data.focus_next(),
            AppEvent::ChangeFocusBack => self.widget_data.focus_prev(),
            AppEvent::Unhandled => {
                self.send_log(Some(String::from_str("Failure to catch event")));
            },
        }
    }

    /// Consumes one event of the merged stream. Input is translated into an action,
    /// which is returned for the caller to queue; a queued action is applied.
    pub fn step(&mut self, event: Event) -> (r: Option<AppEvent>)
        ensures
            old(self).wf() ==> final(self).wf(),
            match event {
                Event::Key(k) => r == key_action(k, old(self).widget_data@.focused(WidgetKind::Log))
                    && *final(self) == *old(self),
                Event::Mouse(m) => r == (if m == MouseInput::ScrollUp {
                    Some(AppEvent::ScrollUp)
                } else {
                    None
                }) && final(self).log@ == log_after_mouse(old(self).log@, m),
                Event::App(a) => r is None && final(self).widget_data@ == widgets_after(
                    old(self).widget_data@,
                    a,
                ) && final(self).running == (old(self).running && a != AppEvent::Quit),
                _ => r is None && *final(self) == *old(self),
            },
    {
        match event {
            Event::Tick => {
                self.tick();
                None
            },
            Event::Key(k) => self.handle_key_events(k),
            Event::Mouse(m) => self.handle_mouse_events(m),
            Event::Resize(_, _) => None,
            Event::App(a) => {
                self.dispatch(a);
                None
            },
        }
    }
}

} // verus!
