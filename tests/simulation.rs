use archery::{AimDelta, Config, FrameInput, Phase, Point, Simulation};

fn input(x: i32, y: i32, button_down: bool, pause_down: bool) -> FrameInput {
    FrameInput { pointer: Point { x, y }, button_down, pause_down }
}

fn launched() -> Simulation {
    let mut sim = Simulation::new(Config::standard());
    sim.update(input(40, 300, true, false));
    let act = sim.update(input(40, 300, false, false));
    assert!(act.launch);
    sim
}

#[test]
fn standard_config_values() {
    let c = Config::standard();
    assert_eq!(c.window_width, 640);
    assert_eq!(c.window_height, 480);
    assert_eq!(c.launch, Point { x: 100, y: 360 });
}

#[test]
fn new_session_is_aiming() {
    let sim = Simulation::new(Config::standard());
    assert_eq!(sim.phase(), Phase::Aiming { button_was_down: false });
    assert!(!sim.is_released());
    assert!(!sim.is_paused());
    assert!(!sim.has_ended());
    assert_eq!(sim.config(), Config::standard());
}

#[test]
fn aim_delta_is_offset_to_launch_point() {
    let c = Config::standard();
    assert_eq!(c.aim_delta(Point { x: 40, y: 300 }), AimDelta { dx: 60, dy: 60 });
    assert_eq!(c.aim_delta(Point { x: 0, y: 400 }), AimDelta { dx: 100, dy: -40 });
}

#[test]
fn aim_region_is_left_of_launch_point() {
    let c = Config::standard();
    assert!(c.is_aim_region(Point { x: 99, y: 0 }));
    assert!(c.is_aim_region(Point { x: 0, y: 479 }));
    assert!(!c.is_aim_region(Point { x: 100, y: 300 }));
    assert!(!c.is_aim_region(Point { x: 500, y: 300 }));
}

#[test]
fn held_button_aims_at_pointer() {
    let mut sim = Simulation::new(Config::standard());
    let act = sim.update(input(40, 300, true, false));
    assert_eq!(act.aim, Some(AimDelta { dx: 60, dy: 60 }));
    assert!(!act.launch);
    assert!(!act.integrate);
    assert!(!act.paused);
    let act = sim.update(input(70, 380, true, false));
    assert_eq!(act.aim, Some(AimDelta { dx: 30, dy: -20 }));
}

#[test]
fn pointer_outside_region_keeps_angle() {
    let mut sim = Simulation::new(Config::standard());
    let act = sim.update(input(100, 300, true, false));
    assert_eq!(act.aim, None);
    let act = sim.update(input(300, 100, true, false));
    assert_eq!(act.aim, None);
    assert!(!sim.is_released());
}

#[test]
fn button_up_does_not_aim() {
    let mut sim = Simulation::new(Config::standard());
    let act = sim.update(input(40, 300, false, false));
    assert_eq!(act.aim, None);
    assert!(!act.launch);
    assert_eq!(sim.phase(), Phase::Aiming { button_was_down: false });
}

#[test]
fn aiming_goes_on_while_paused() {
    let mut sim = Simulation::new(Config::standard());
    let act = sim.update(input(40, 300, true, true));
    assert!(act.paused);
    assert!(sim.is_paused());
    assert_eq!(act.aim, Some(AimDelta { dx: 60, dy: 60 }));
}

#[test]
fn launch_on_release_edge_only() {
    let mut sim = Simulation::new(Config::standard());
    for _ in 0..3 {
        let act = sim.update(input(40, 300, true, false));
        assert!(!act.launch);
        assert!(!act.integrate);
    }
    let act = sim.update(input(40, 300, false, false));
    assert!(act.launch);
    assert_eq!(act.aim, None);
    assert!(!act.integrate);
    assert!(sim.is_released());
    assert_eq!(sim.phase(), Phase::InFlight);
}

#[test]
fn button_never_pressed_never_launches() {
    let mut sim = Simulation::new(Config::standard());
    for _ in 0..5 {
        let act = sim.update(input(40, 300, false, false));
        assert!(!act.launch);
    }
    assert!(!sim.is_released());
}

#[test]
fn flight_integrates_and_never_relaunches() {
    let mut sim = launched();
    let act = sim.update(input(40, 300, true, false));
    assert!(act.integrate);
    assert_eq!(act.aim, None);
    let act = sim.update(input(40, 300, false, false));
    assert!(act.integrate);
    assert!(!act.launch);
    assert_eq!(sim.phase(), Phase::InFlight);
}

#[test]
fn pause_freezes_flight() {
    let mut sim = launched();
    for _ in 0..4 {
        let act = sim.update(input(40, 300, false, true));
        assert!(act.paused);
        assert!(!act.integrate);
        assert!(!act.launch);
        assert_eq!(act.aim, None);
    }
    let act = sim.update(input(40, 300, false, false));
    assert!(!act.paused);
    assert!(!sim.is_paused());
    assert!(act.integrate);
}

#[test]
fn ground_ends_session_once() {
    let mut sim = launched();
    sim.update(input(0, 0, false, false));
    assert!(!sim.observe_ground(false));
    sim.update(input(0, 0, false, false));
    assert!(sim.observe_ground(true));
    assert!(sim.has_ended());
    sim.update(input(0, 0, false, false));
    assert!(!sim.observe_ground(true));
    assert!(!sim.observe_ground(false));
    assert!(sim.has_ended());
}

#[test]
fn ground_ends_session_while_paused() {
    let mut sim = launched();
    let act = sim.update(input(0, 0, false, true));
    assert!(!act.integrate);
    assert!(sim.observe_ground(true));
    assert_eq!(sim.phase(), Phase::Landed);
}

#[test]
fn landed_session_does_nothing() {
    let mut sim = launched();
    assert!(sim.observe_ground(true));
    let act = sim.update(input(40, 300, true, false));
    assert_eq!(act.aim, None);
    assert!(!act.launch);
    assert!(!act.integrate);
    assert_eq!(sim.phase(), Phase::Landed);
}

#[test]
fn extreme_pointer_offsets_do_not_wrap() {
    let c = Config { window_width: 640, window_height: 480, launch: Point { x: i32::MAX, y: i32::MIN } };
    let d = c.aim_delta(Point { x: i32::MIN, y: i32::MAX });
    assert_eq!(d.dx, i32::MAX as i64 - i32::MIN as i64);
    assert_eq!(d.dy, i32::MIN as i64 - i32::MAX as i64);
}
