use buckshot::game::{Data, MatchData, Menu, ReloadAmount, TurnSystem};

#[test]
fn reload_amounts() {
    assert_eq!(ReloadAmount::One.as_usize(), 3);
    assert_eq!(ReloadAmount::Two.as_usize(), 5);
    assert_eq!(ReloadAmount::Three.as_usize(), 6);
    assert_eq!(ReloadAmount::Four.as_usize(), 8);
    assert_eq!(ReloadAmount::Five.as_usize(), 10);
    assert_eq!(ReloadAmount::default(), ReloadAmount::One);
}

#[test]
fn reload_amount_by_round() {
    assert_eq!(ReloadAmount::for_round(1), ReloadAmount::One);
    assert_eq!(ReloadAmount::for_round(2), ReloadAmount::Two);
    assert_eq!(ReloadAmount::for_round(3), ReloadAmount::Three);
    assert_eq!(ReloadAmount::for_round(4), ReloadAmount::Four);
    assert_eq!(ReloadAmount::for_round(5), ReloadAmount::Five);
    assert_eq!(ReloadAmount::for_round(9), ReloadAmount::Five);
    assert_eq!(ReloadAmount::for_round(0), ReloadAmount::Five);
}

#[test]
fn match_data_rounds() {
    let mut m = MatchData::new();
    assert_eq!(m.count(), 1);
    m.incr_round();
    m.incr_round();
    assert_eq!(m.count(), 3);
    m.reset_count();
    assert_eq!(m.count(), 0);
    assert_eq!(MatchData::default().count(), 0);
}

#[test]
fn data_starts_empty_at_round_one() {
    let d = Data::new();
    assert_eq!(d.shotgun.shell_count(), 0);
    assert_eq!(d.match_data.count(), 1);
    assert_eq!(Menu::default(), Menu::Off);
}

#[test]
fn every_third_turn_reloads_five() {
    let mut turns = TurnSystem::new();
    let mut data = Data::new();
    assert!(!turns.advance_turn(&mut data));
    assert!(!turns.advance_turn(&mut data));
    assert_eq!(data.shotgun.shell_count(), 0);
    assert!(turns.advance_turn(&mut data));
    assert_eq!(turns.current_turn, 3);
    assert_eq!(data.shotgun.shell_count(), 5);
    assert!(data.shotgun.has_blank());
}
