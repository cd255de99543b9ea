use engine_shell::engine::{Engine, EngineStatus, LoopControl};
use engine_shell::log::LogMsg;
use engine_shell::messages::{Message, MessageQueue};
use engine_shell::renderer::{GraphicsContext, SurfaceCaps, SurfaceError};
use engine_shell::window::{InnerWindow, WebWindow};

fn drained(engine: &mut Engine, messages: Vec<Message>) {
    let mut queue = MessageQueue::new();
    for message in messages {
        queue.enqueue(message);
    }
    engine.handle_messages(&mut queue);
    assert_eq!(queue.len(), 0);
}

#[test]
fn platform() {
    let engine = Engine::new(String::from("engine"));
    println!("{:?}", engine.window.inner);
}

#[test]
fn fresh_engine_state() {
    let engine = Engine::new(String::from("Test"));
    assert_eq!(engine.status(), EngineStatus::Uninited);
    assert_eq!(engine.window.inner.title, String::from("Test"));
    assert_eq!(engine.window.inner.size, (800, 600));
    assert!(engine.window.surface_manager.is_none());
    assert!(engine.graphics_context.is_none());
    assert_eq!(engine.world.objects.len(), 0);
    let rendered: Vec<String> = engine.logger.entries.iter().map(|e| e.get_msg()).collect();
    assert_eq!(rendered, vec![String::from("info:starting the engine")]);
}

#[test]
fn drain_applies_effects_in_arrival_order_and_empties_queue() {
    let mut engine = Engine::new(String::from("Test"));
    drained(&mut engine, vec![
        Message::Say(String::from("first")),
        Message::ChangeTitle(String::from("Renamed")),
        Message::Log(LogMsg::Warn(String::from("second"))),
        Message::Start,
        Message::SetFrameRate(60.0f32.to_bits()),
        Message::Null,
    ]);
    assert_eq!(engine.status(), EngineStatus::Running);
    assert_eq!(engine.window.inner.title, String::from("Renamed"));
    let rendered: Vec<String> = engine.logger.entries.iter().map(|e| e.get_msg()).collect();
    assert_eq!(rendered, vec![
        String::from("info:starting the engine"),
        String::from("info:first"),
        String::from("warn:second"),
    ]);

    // A second drain of an empty queue applies nothing further.
    drained(&mut engine, vec![]);
    assert_eq!(engine.status(), EngineStatus::Running);
    assert_eq!(engine.logger.entries.len(), 3);
}

#[test]
fn drain_is_delivered_once_only() {
    let mut engine = Engine::new(String::from("Test"));
    let mut queue = MessageQueue::new();
    queue.enqueue(Message::Say(String::from("once")));
    engine.handle_messages(&mut queue);
    engine.handle_messages(&mut queue);
    let said: Vec<String> = engine
        .logger
        .entries
        .iter()
        .filter(|e| e.get_inner() == String::from("once"))
        .map(|e| e.get_msg())
        .collect();
    assert_eq!(said.len(), 1);
}

#[test]
fn kill_message_kills_from_any_prior_status() {
    let mut engine = Engine::new(String::from("Test"));
    drained(&mut engine, vec![Message::Kill]);
    assert_eq!(engine.status(), EngineStatus::Kill);

    let mut engine = Engine::new(String::from("Test"));
    drained(&mut engine, vec![Message::Start, Message::Kill]);
    assert_eq!(engine.status(), EngineStatus::Kill);

    let mut engine = Engine::new(String::from("Test"));
    drained(&mut engine, vec![Message::Stop, Message::Kill]);
    assert_eq!(engine.status(), EngineStatus::Kill);
}

#[test]
fn within_one_drain_message_order_decides_status() {
    // Order wins, not priority: a kill followed by a start leaves the
    // engine running.
    let mut engine = Engine::new(String::from("Test"));
    drained(&mut engine, vec![Message::Kill, Message::Start]);
    assert_eq!(engine.status(), EngineStatus::Running);
}

#[test]
fn change_title_round_trip() {
    let mut engine = Engine::new(String::from("Test"));
    drained(&mut engine, vec![Message::ChangeTitle(String::from("Foo"))]);
    assert_eq!(engine.window.inner.title, String::from("Foo"));
}

#[test]
fn say_start_stop_scenario() {
    let mut engine = Engine::new(String::from("Test"));
    drained(&mut engine, vec![
        Message::Say(String::from("hi")),
        Message::Start,
        Message::Stop,
    ]);
    let hi_infos: Vec<&LogMsg> = engine
        .logger
        .entries
        .iter()
        .filter(|e| e.get_msg() == String::from("info:hi"))
        .collect();
    assert_eq!(hi_infos.len(), 1);
    assert_eq!(engine.status(), EngineStatus::Stopped);
    // The blocking loop exits on its next check.
    assert_eq!(engine.loop_control(), LoopControl::Exit);
}

#[test]
fn set_canvas_id_is_a_no_op_on_the_native_window() {
    let mut engine = Engine::new(String::from("Test"));
    let title_before = engine.window.inner.title.clone();
    let log_len_before = engine.logger.entries.len();
    drained(&mut engine, vec![Message::SetCanvasId(String::from("canvas"))]);
    assert_eq!(engine.window.inner.title, title_before);
    assert_eq!(engine.logger.entries.len(), log_len_before);
    assert_eq!(engine.status(), EngineStatus::Uninited);
}

#[test]
fn poll_events_alters_nothing() {
    let mut engine = Engine::new(String::from("Test"));
    let title_before = engine.window.inner.title.clone();
    let size_before = engine.window.inner.size;
    let status_before = engine.status();
    let log_len_before = engine.logger.entries.len();
    engine.window.poll_events();
    assert_eq!(engine.window.inner.title, title_before);
    assert_eq!(engine.window.inner.size, size_before);
    assert_eq!(engine.status(), status_before);
    assert_eq!(engine.logger.entries.len(), log_len_before);
    assert!(engine.window.surface_manager.is_none());
}

#[test]
fn tick_without_graphics_plans_no_frame() {
    let mut engine = Engine::new(String::from("Test"));
    let mut queue = MessageQueue::new();
    let plan = engine.tick(&mut queue);
    assert!(plan.is_none());
    assert_eq!(engine.status(), EngineStatus::Uninited);
}

#[test]
fn graphics_init_runs_once_and_readies_the_engine() {
    let mut engine = Engine::new(String::from("Test"));
    assert!(engine.begin_graphics_init());
    assert_eq!(engine.status(), EngineStatus::Initializing);
    // Re-entry while one initialization is outstanding is rejected.
    assert!(!engine.begin_graphics_init());

    let caps = SurfaceCaps { format_is_srgb: vec![true] };
    let surface_manager = GraphicsContext::new().create_surface_manager(&engine.window, &caps);
    engine.finish_graphics_init(GraphicsContext::new(), surface_manager);
    assert_eq!(engine.status(), EngineStatus::Ready);
    assert!(engine.graphics_context.is_some());
    assert!(engine.window.surface_manager.is_some());
    // And never again once graphics exist.
    assert!(!engine.begin_graphics_init());

    let rendered: Vec<String> = engine.logger.entries.iter().map(|e| e.get_msg()).collect();
    assert_eq!(rendered, vec![
        String::from("info:starting the engine"),
        String::from("info:Initializing Graphics Context..."),
        String::from("info:Graphics Context Initialized!"),
        String::from("info:Window Surface Manager Initialized!"),
    ]);
}

#[test]
fn tick_with_graphics_plans_one_draw_per_object() {
    let mut engine = Engine::new(String::from("Test"));
    assert!(engine.begin_graphics_init());
    let caps = SurfaceCaps { format_is_srgb: vec![true] };
    let surface_manager = GraphicsContext::new().create_surface_manager(&engine.window, &caps);
    engine.finish_graphics_init(GraphicsContext::new(), surface_manager);

    engine.world.add_object((1, 2));
    engine.world.add_object((3, 4));
    engine.world.add_object((5, 6));

    let mut queue = MessageQueue::new();
    queue.enqueue(Message::Start);
    let plan = engine.tick(&mut queue).expect("graphics are up, a frame is planned");
    assert_eq!(plan.draws.len(), 3);
    assert_eq!(plan.draws[0].position, (1, 2));
    assert_eq!(plan.draws[1].position, (3, 4));
    assert_eq!(plan.draws[2].position, (5, 6));
    assert_eq!(engine.status(), EngineStatus::Running);
    assert_eq!(engine.loop_control(), LoopControl::Continue);
}

#[test]
fn render_errors_log_and_only_fatal_ones_kill() {
    let mut engine = Engine::new(String::from("Test"));
    engine.handle_render_error(&SurfaceError::Lost);
    let rendered: Vec<String> = engine.logger.entries.iter().map(|e| e.get_msg()).collect();
    assert_eq!(rendered, vec![
        String::from("info:starting the engine"),
        String::from("error:Render error: Lost"),
    ]);
    assert_eq!(engine.status(), EngineStatus::Uninited);

    engine.handle_render_error(&SurfaceError::Other);
    assert_eq!(engine.status(), EngineStatus::Kill);
    assert_eq!(engine.loop_control(), LoopControl::Terminate);
}

#[test]
fn engine_render_hook_changes_nothing() {
    let mut engine = Engine::new(String::from("Test"));
    let log_len_before = engine.logger.entries.len();
    engine.render();
    assert_eq!(engine.status(), EngineStatus::Uninited);
    assert_eq!(engine.logger.entries.len(), log_len_before);
}

#[test]
fn callback_reschedules_until_killed() {
    let mut engine = Engine::new(String::from("Test"));
    assert!(engine.callback_reschedule());
    drained(&mut engine, vec![Message::Kill]);
    assert!(!engine.callback_reschedule());
    let last = engine.logger.entries.last().expect("the kill was logged");
    assert_eq!(last.get_msg(), String::from("info:Killing the engine"));
}

#[test]
fn queue_drains_in_fifo_order() {
    let mut queue = MessageQueue::new();
    queue.enqueue(Message::Say(String::from("a")));
    queue.enqueue(Message::Say(String::from("b")));
    queue.enqueue(Message::Say(String::from("c")));
    assert_eq!(queue.len(), 3);
    let drained_batch = queue.drain_and_clear();
    assert_eq!(queue.len(), 0);
    let texts: Vec<String> = drained_batch
        .iter()
        .map(|m| match m {
            Message::Say(t) => t.clone(),
            _ => unreachable!(),
        })
        .collect();
    assert_eq!(texts, vec![String::from("a"), String::from("b"), String::from("c")]);

    // A message enqueued after a drain lands in the next one.
    queue.enqueue(Message::Say(String::from("d")));
    assert_eq!(queue.drain_and_clear().len(), 1);
}

#[test]
fn web_window_binds_canvas_and_reports_zero_extent() {
    let mut web = WebWindow::new(String::from("browser"));
    assert!(web.canvas_id.is_none());
    assert_eq!(web.title, String::from("browser"));
    web.set_canvas_id(String::from("main-canvas"));
    assert_eq!(web.canvas_id, Some(String::from("main-canvas")));
    web.set_title(String::from("renamed"));
    assert_eq!(web.title, String::from("renamed"));
    assert_eq!(web.canvas_id, Some(String::from("main-canvas")));
    assert_eq!(web.size(), (0, 0));
    let before = (web.title.clone(), web.canvas_id.clone());
    web.poll_events();
    assert_eq!((web.title.clone(), web.canvas_id.clone()), before);
}
