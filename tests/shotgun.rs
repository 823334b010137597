use buckshot::shotgun::{outcome_text, Shell, Shotgun, ShotgunModel, ShotgunState};

fn count_blanks(gun: &Shotgun) -> usize {
    gun.shells.iter().filter(|s| **s == Shell::Blank).count()
}

#[test]
fn new_shotgun_is_empty() {
    let gun = Shotgun::new();
    assert_eq!(gun.shell_count(), 0);
    assert_eq!(gun.state, ShotgunState::Default);
    assert_eq!(gun.model, ShotgunModel::Default);
}

#[test]
fn load_gives_exact_length_and_a_blank() {
    for n in 1..40usize {
        let mut gun = Shotgun::new();
        gun.load(vec![Shell::Live, Shell::Blank], vec![10, 14], n);
        assert_eq!(gun.shell_count(), n);
        assert!(gun.has_blank());
        assert!(gun.shells.iter().all(|s| *s == Shell::Live || *s == Shell::Blank));
    }
}

#[test]
fn load_zero_shells_leaves_empty_chamber() {
    let mut gun = Shotgun::new();
    gun.shells = vec![Shell::Live, Shell::Live];
    gun.load(vec![Shell::Live], vec![1], 0);
    assert_eq!(gun.shell_count(), 0);
    assert!(!gun.has_blank());
}

#[test]
fn load_replaces_previous_chamber() {
    let mut gun = Shotgun::new();
    gun.load_random_shells(10);
    gun.load_default_shells(3);
    assert_eq!(gun.shell_count(), 3);
}

#[test]
fn load_without_blank_candidates_repairs_exactly_one() {
    for n in 1..30usize {
        let mut gun = Shotgun::new();
        gun.load(vec![Shell::Live], vec![5], n);
        assert_eq!(gun.shell_count(), n);
        assert_eq!(count_blanks(&gun), 1);
        assert_eq!(gun.shells.iter().filter(|s| **s == Shell::Live).count(), n - 1);
    }
}

#[test]
fn load_draws_only_from_candidates() {
    let mut gun = Shotgun::new();
    gun.load(vec![Shell::Poison, Shell::Taser], vec![3, 1], 50);
    assert_eq!(gun.shell_count(), 50);
    assert_eq!(count_blanks(&gun), 1);
    assert!(gun
        .shells
        .iter()
        .all(|s| *s == Shell::Poison || *s == Shell::Taser || *s == Shell::Blank));
}

#[test]
fn fresh_shotgun_random_load_of_eight() {
    let mut gun = Shotgun::new();
    gun.load_random_shells(8);
    assert_eq!(gun.shell_count(), 8);
    assert!(gun.shells.contains(&Shell::Blank));
    assert!(!gun.shells.contains(&Shell::SelfDestruct));
}

#[test]
fn default_load_uses_live_and_blank_only() {
    let mut gun = Shotgun::new();
    gun.load_default_shells(12);
    assert_eq!(gun.shell_count(), 12);
    assert!(gun.has_blank());
    assert!(gun.shells.iter().all(|s| *s == Shell::Live || *s == Shell::Blank));
}

#[test]
fn shoot_pops_last_loaded_first() {
    let mut gun = Shotgun::new();
    gun.shells = vec![Shell::Live, Shell::Blank];
    assert_eq!(gun.shoot(), Some(Shell::Blank));
    assert_eq!(gun.shoot(), Some(Shell::Live));
    assert_eq!(gun.shoot(), None);
}

#[test]
fn n_shots_empty_a_load_of_n() {
    let mut gun = Shotgun::new();
    gun.load_random_shells(6);
    let loaded = gun.shells.clone();
    for k in 0..6 {
        assert_eq!(gun.shoot(), Some(loaded[5 - k]));
    }
    assert_eq!(gun.shell_count(), 0);
    assert_eq!(gun.shoot(), None);
}

#[test]
fn shooting_empty_chamber_is_not_fatal() {
    let mut gun = Shotgun::new();
    assert_eq!(gun.shoot(), None);
    assert_eq!(gun.shoot(), None);
    assert_eq!(gun.shell_count(), 0);
}

#[test]
fn outcome_texts() {
    assert_eq!(outcome_text(Some(Shell::Live)), "Popped shell: Live");
    assert_eq!(outcome_text(Some(Shell::BeanBag)), "Popped shell: BeanBag");
    assert_eq!(outcome_text(Some(Shell::SelfDestruct)), "Popped shell: SelfDestruct");
    assert_eq!(outcome_text(None), "No shell in shotgun.");
}

#[test]
fn blank_is_the_default_shell() {
    assert_eq!(Shell::default(), Shell::Blank);
    assert_eq!(Shotgun::default().shell_count(), 0);
}
