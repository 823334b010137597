use buckshot::widgets::{Color, MyWidget, WidgetData, WidgetKind, WidgetState, SHOTGUN_ART};

const ALL: [WidgetKind; 5] = [
    WidgetKind::Log,
    WidgetKind::Data,
    WidgetKind::Inventory,
    WidgetKind::Player,
    WidgetKind::Shotgun,
];

fn focused_count(w: &WidgetData) -> usize {
    ALL.iter().filter(|k| w.is_focused(**k)).count()
}

#[test]
fn starting_layout() {
    let w = WidgetData::new();
    assert!(w.is_displayed(WidgetKind::Shotgun));
    assert!(w.is_focused(WidgetKind::Shotgun));
    assert_eq!(focused_count(&w), 1);
    assert!(!w.is_displayed(WidgetKind::Data));
    assert!(w.render_stack().is_empty());
    assert_eq!(w.current_focus(), Some(WidgetKind::Shotgun));
    assert_eq!(w.get_color(&WidgetKind::Data), Some(Color::Green));
    assert_eq!(w.get_color(&WidgetKind::Log), Some(Color::White));
    assert_eq!(w.get_state(WidgetKind::Shotgun).content.as_deref(), Some(SHOTGUN_ART));
}

#[test]
fn show_show_hide_hide_scenario() {
    let mut w = WidgetData::new();
    w.show_widget(WidgetKind::Log);
    w.show_widget(WidgetKind::Data);
    assert_eq!(*w.render_stack(), vec![WidgetKind::Log, WidgetKind::Data]);
    assert!(w.is_focused(WidgetKind::Data));
    assert_eq!(focused_count(&w), 1);
    w.hide_widget(WidgetKind::Log);
    assert_eq!(*w.render_stack(), vec![WidgetKind::Data]);
    assert!(w.is_focused(WidgetKind::Data));
    assert_eq!(w.current_focus(), Some(WidgetKind::Data));
    w.hide_widget(WidgetKind::Data);
    assert!(w.render_stack().is_empty());
    assert_eq!(focused_count(&w), 0);
    assert_eq!(w.current_focus(), None);
}

#[test]
fn hiding_focused_widget_passes_focus_to_first_in_stack() {
    let mut w = WidgetData::new();
    w.show_widget(WidgetKind::Player);
    w.show_widget(WidgetKind::Log);
    w.show_widget(WidgetKind::Data);
    w.hide_widget(WidgetKind::Data);
    assert!(w.is_focused(WidgetKind::Player));
    assert_eq!(w.current_focus(), Some(WidgetKind::Player));
    assert_eq!(*w.render_stack(), vec![WidgetKind::Player, WidgetKind::Log]);
}

#[test]
fn show_twice_keeps_one_entry() {
    let mut w = WidgetData::new();
    w.show_widget(WidgetKind::Log);
    w.show_widget(WidgetKind::Data);
    w.show_widget(WidgetKind::Log);
    assert_eq!(*w.render_stack(), vec![WidgetKind::Log, WidgetKind::Data]);
    assert!(w.is_focused(WidgetKind::Log));
    assert_eq!(focused_count(&w), 1);
}

#[test]
fn focus_next_follows_declared_order() {
    let mut w = WidgetData::new();
    w.show_widget(WidgetKind::Player);
    w.show_widget(WidgetKind::Data);
    // Player, Data and Shotgun shown; focus on Data.
    w.focus_next();
    assert_eq!(w.current_focus(), Some(WidgetKind::Player));
    w.focus_next();
    assert_eq!(w.current_focus(), Some(WidgetKind::Shotgun));
    w.focus_next();
    assert_eq!(w.current_focus(), Some(WidgetKind::Data));
    assert_eq!(focused_count(&w), 1);
}

#[test]
fn focus_next_skips_shotgun_while_log_shown() {
    let mut w = WidgetData::new();
    w.show_widget(WidgetKind::Data);
    w.show_widget(WidgetKind::Log);
    w.focus_next();
    assert_eq!(w.current_focus(), Some(WidgetKind::Data));
    w.focus_next();
    assert_eq!(w.current_focus(), Some(WidgetKind::Log));
    assert!(!w.is_focused(WidgetKind::Shotgun));
}

#[test]
fn focus_next_cycles_back_after_eligible_count_steps() {
    let mut w = WidgetData::new();
    w.show_widget(WidgetKind::Inventory);
    w.show_widget(WidgetKind::Player);
    w.show_widget(WidgetKind::Log);
    // Eligible: Log, Inventory, Player (the shotgun is skipped while the log is shown).
    let start = w.current_focus();
    for _ in 0..3 {
        w.focus_next();
    }
    assert_eq!(w.current_focus(), start);
}

#[test]
fn focus_prev_walks_backward() {
    let mut w = WidgetData::new();
    w.show_widget(WidgetKind::Data);
    w.show_widget(WidgetKind::Player);
    w.focus_prev();
    assert_eq!(w.current_focus(), Some(WidgetKind::Data));
    w.focus_prev();
    assert_eq!(w.current_focus(), Some(WidgetKind::Shotgun));
    w.focus_prev();
    assert_eq!(w.current_focus(), Some(WidgetKind::Player));
}

#[test]
fn focus_prev_skips_shotgun_while_log_shown() {
    let mut w = WidgetData::new();
    w.show_widget(WidgetKind::Log);
    w.focus_prev();
    assert_eq!(w.current_focus(), Some(WidgetKind::Log));
    assert!(!w.is_focused(WidgetKind::Shotgun));
}

#[test]
fn focus_next_with_nothing_eligible_clears_focus() {
    let mut w = WidgetData::new();
    w.hide_widget(WidgetKind::Shotgun);
    assert_eq!(w.current_focus(), None);
    w.focus_next();
    assert_eq!(w.current_focus(), None);
    assert_eq!(focused_count(&w), 0);
}

#[test]
fn toggle_focus_flips_one_flag() {
    let mut w = WidgetData::new();
    w.toggle_focus(WidgetKind::Shotgun);
    assert!(!w.is_focused(WidgetKind::Shotgun));
    assert_eq!(w.current_focus(), None);
    w.toggle_focus(WidgetKind::Shotgun);
    assert!(w.is_focused(WidgetKind::Shotgun));
    assert_eq!(w.current_focus(), Some(WidgetKind::Shotgun));
}

#[test]
fn toggle_focus_does_not_clear_other_focus() {
    let mut w = WidgetData::new();
    w.show_widget(WidgetKind::Data);
    w.toggle_focus(WidgetKind::Log);
    assert!(w.is_focused(WidgetKind::Data));
    assert!(w.is_focused(WidgetKind::Log));
    assert_eq!(w.current_focus(), Some(WidgetKind::Log));
}

#[test]
fn toggle_widget_shows_then_hides() {
    let mut w = WidgetData::new();
    w.toggle_widget(WidgetKind::Player);
    assert!(w.is_displayed(WidgetKind::Player));
    w.toggle_widget(WidgetKind::Player);
    assert!(!w.is_displayed(WidgetKind::Player));
    assert!(w.render_stack().is_empty());
}

#[test]
fn set_widget_and_kind_focus() {
    let mut w = WidgetData::new();
    w.set_widget(WidgetKind::Inventory, true, true);
    assert!(w.is_focused(WidgetKind::Inventory));
    assert!(!w.is_focused(WidgetKind::Shotgun));
    assert_eq!(w.current_focus(), Some(WidgetKind::Inventory));
    w.set_widget(WidgetKind::Player, true, false);
    assert!(w.is_displayed(WidgetKind::Player));
    assert!(w.is_focused(WidgetKind::Inventory));
    w.kind_focus(&WidgetKind::Player);
    assert!(w.is_focused(WidgetKind::Player));
    assert_eq!(focused_count(&w), 1);
}

#[test]
fn shown_widgets_reports_first_focused() {
    let mut w = WidgetData::new();
    assert_eq!(w.shown_widgets(), Some(WidgetKind::Shotgun));
    w.toggle_focus(WidgetKind::Data);
    assert_eq!(w.shown_widgets(), Some(WidgetKind::Data));
}

#[test]
fn change_content_and_iter() {
    let mut w = WidgetData::new();
    w.change_content(WidgetKind::Log, Some("hello".to_string()));
    let entries = w.iter();
    assert_eq!(entries.len(), 5);
    for (i, (k, _)) in entries.iter().enumerate() {
        assert_eq!(*k, ALL[i]);
    }
    assert_eq!(entries[0].1.content.as_deref(), Some("hello"));
}

#[test]
fn widget_state_constructors() {
    let b = WidgetState::new_blank();
    assert!(!b.display && !b.focus);
    assert_eq!(b.color, Some(Color::White));
    let c = WidgetState::new_content("art");
    assert!(c.display && c.focus);
    assert_eq!(c.content.as_deref(), Some("art"));
    let d = c.change_state_content("other");
    assert_eq!(d.content.as_deref(), Some("other"));
    let mut e = WidgetState::new_color(Some(Color::Green));
    assert_eq!(e.color, Some(Color::Green));
    e.change_focus();
    assert!(!e.focus);
}

#[test]
fn kind_indices() {
    for (i, k) in ALL.iter().enumerate() {
        assert_eq!(k.index(), i);
        assert_eq!(WidgetKind::at(i), *k);
    }
}

#[test]
fn my_widget_keeps_text() {
    let m = MyWidget::new("hi".to_string());
    assert_eq!(m.content(), "hi");
}

#[test]
fn single_focus_through_a_call_sequence() {
    let mut w = WidgetData::new();
    let steps: Vec<Box<dyn Fn(&mut WidgetData)>> = vec![
        Box::new(|w| w.show_widget(WidgetKind::Log)),
        Box::new(|w| w.show_widget(WidgetKind::Player)),
        Box::new(|w| w.focus_next()),
        Box::new(|w| w.show_widget(WidgetKind::Data)),
        Box::new(|w| w.focus_prev()),
        Box::new(|w| w.hide_widget(WidgetKind::Player)),
        Box::new(|w| w.focus_next()),
        Box::new(|w| w.hide_widget(WidgetKind::Log)),
        Box::new(|w| w.focus_prev()),
        Box::new(|w| w.show_widget(WidgetKind::Inventory)),
        Box::new(|w| w.hide_widget(WidgetKind::Inventory)),
        Box::new(|w| w.hide_widget(WidgetKind::Data)),
        Box::new(|w| w.focus_next()),
    ];
    for step in steps.iter() {
        step(&mut w);
        assert!(focused_count(&w) <= 1);
        match w.current_focus() {
            Some(k) => {
                assert!(w.is_focused(k));
                assert!(w.is_displayed(k));
                assert_eq!(focused_count(&w), 1);
            }
            None => assert_eq!(focused_count(&w), 0),
        }
    }
}
