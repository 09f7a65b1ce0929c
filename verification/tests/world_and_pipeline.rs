use level_session::dispatcher::Dispatcher;
use level_session::dispatcher::DispatcherBuilder;
use level_session::dispatcher::System;
use level_session::dispatcher::create_optional_systems_dispatcher;
use level_session::dispatcher::create_systems_dispatcher;
use level_session::dispatcher::run_systems;
use level_session::input::KeyCode;
use level_session::input::StateEvent;
use level_session::input::WindowEvent;
use level_session::input::return_to_main_menu_on_escape;
use level_session::session::TransitionDecision;
use level_session::world::GameWorld;
use level_session::world::ScreenDimensions;
use level_session::world::init_camera;
use level_session::world::init_level_title;

fn fresh_world() -> GameWorld {
    GameWorld::new(ScreenDimensions { width: 800, height: 600 })
}

#[test]
fn camera_covers_the_viewport_and_stacks() {
    let mut world = fresh_world();
    init_camera(&mut world);
    assert_eq!(world.cameras.len(), 1);
    assert_eq!(world.cameras[0].width, 800);
    assert_eq!(world.cameras[0].height, 600);
    // A second call adds a second camera: the helper is deliberately
    // not idempotent.
    init_camera(&mut world);
    assert_eq!(world.cameras.len(), 2);
}

#[test]
fn title_creation_replaces_any_previous_title() {
    let mut world = fresh_world();
    assert!(world.level_title.is_none());
    init_level_title(&mut world, "hornets_title.png");
    init_level_title(&mut world, "wildfires_title.png");
    let title = world.level_title.as_ref().expect("one title must exist");
    assert_eq!(title.sprite, "wildfires_title.png");
}

#[test]
fn escape_press_alone_returns_to_the_menu() {
    let escape = StateEvent::Window(WindowEvent::KeyPressed(KeyCode::Escape));
    assert_eq!(return_to_main_menu_on_escape(escape), TransitionDecision::ReplaceMainMenu);

    let other_events = [
        StateEvent::Window(WindowEvent::KeyPressed(KeyCode::Return)),
        StateEvent::Window(WindowEvent::KeyPressed(KeyCode::Space)),
        StateEvent::Window(WindowEvent::KeyPressed(KeyCode::Left)),
        StateEvent::Window(WindowEvent::KeyPressed(KeyCode::Right)),
        StateEvent::Window(WindowEvent::KeyPressed(KeyCode::Up)),
        StateEvent::Window(WindowEvent::KeyPressed(KeyCode::Down)),
        StateEvent::Window(WindowEvent::KeyReleased(KeyCode::Escape)),
        StateEvent::Window(WindowEvent::CloseRequested),
        StateEvent::Window(WindowEvent::Resized),
        StateEvent::Ui,
        StateEvent::Input,
    ];
    for event in other_events {
        assert_eq!(return_to_main_menu_on_escape(event), TransitionDecision::Stay);
    }

    // Repeated calls with the same event agree: the trigger is pure.
    assert_eq!(return_to_main_menu_on_escape(escape), TransitionDecision::ReplaceMainMenu);
    assert_eq!(return_to_main_menu_on_escape(escape), TransitionDecision::ReplaceMainMenu);
}

struct CountingSystem {
    runs: u32,
}

impl System for CountingSystem {
    fn run(&mut self, _world: &mut GameWorld) {
        self.runs += 1;
    }
}

struct CameraSystem;

impl System for CameraSystem {
    fn run(&mut self, world: &mut GameWorld) {
        init_camera(world);
    }
}

#[test]
fn dispatcher_runs_each_registered_system_once() {
    let mut world = fresh_world();
    let dispatcher: Dispatcher<CountingSystem> = create_systems_dispatcher(&mut world, |b| {
        b.with(CountingSystem { runs: 0 }).with(CountingSystem { runs: 0 })
    });
    let mut slot = Some(dispatcher);
    run_systems(&mut world, &mut slot);
    let systems = slot.take().expect("the pipeline stays present").into_systems();
    assert_eq!(systems.len(), 2);
    assert!(systems.iter().all(|s| s.runs == 1));
}

#[test]
fn dispatched_systems_act_on_the_world() {
    let mut world = fresh_world();
    let dispatcher = create_optional_systems_dispatcher(&mut world, |b: DispatcherBuilder<
        CameraSystem,
    >| b.with(CameraSystem));
    let mut slot = dispatcher;
    assert_eq!(world.cameras.len(), 0);
    run_systems(&mut world, &mut slot);
    assert_eq!(world.cameras.len(), 1);
    run_systems(&mut world, &mut slot);
    assert_eq!(world.cameras.len(), 2);
}

#[test]
fn absent_pipeline_is_a_no_op() {
    let mut world = fresh_world();
    init_camera(&mut world);
    let mut slot: Option<Dispatcher<CountingSystem>> = None;
    run_systems(&mut world, &mut slot);
    assert!(slot.is_none());
    assert_eq!(world.cameras.len(), 1);
}
