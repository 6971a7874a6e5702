use rusty_sandbox::camera::{CameraBufferData, Direction, KeyCode};
use rusty_sandbox::client::{CameraUpdate, Client, Event, FrameStep, Reaction, Redraw};
use rusty_sandbox::error::SurfaceError;
use rusty_sandbox::pod::encode_slice;
use rusty_sandbox::renderer::{AdapterOutcome, DeviceOutcome, Renderer};
use rusty_sandbox::surface::{Resolution, SurfaceConfiguration};
use rusty_sandbox::window::{ControlFlow, ElementState, Window, WindowEvent};

const WINDOW: u64 = 7;

fn client(width: u32, height: u32) -> Client {
    let window = Window::new(WINDOW, Resolution::new(width, height));
    let outcome = AdapterOutcome::Found(DeviceOutcome::Granted { formats: 1 });
    let renderer = Renderer::new(&window, outcome, CameraBufferData::new().mvp).unwrap();
    Client::init(window, renderer)
}

fn pressed(key: KeyCode) -> WindowEvent {
    WindowEvent::KeyboardInput { state: ElementState::Pressed, key: Some(key) }
}

fn ours(event: WindowEvent) -> Event {
    Event::WindowEvent { window_id: WINDOW, event }
}

const IDLE: Reaction = Reaction { reconfigure: None, camera: None, redraw: Redraw::Idle };

#[test]
fn a_client_is_its_window_and_its_renderer() {
    let mut client = client(800, 600);
    assert_eq!(client.window_id(), WINDOW);
    assert_eq!(client.window().id(), WINDOW);
    assert_eq!(*client.window().resolution(), Resolution { width: 800, height: 600 });
    assert_eq!(client.window_mut().id(), WINDOW);
    assert_eq!(client.renderer.viewport(), Resolution { width: 800, height: 600 });
}

#[test]
fn a_window_knows_its_number_and_its_size() {
    let window = Window::new(3, Resolution::new(640, 480));
    assert_eq!(window.id(), 3);
    assert_eq!(*window.resolution(), Resolution { width: 640, height: 480 });
}

#[test]
fn closing_the_window_leaves_the_loop() {
    let mut client = client(800, 600);
    let mut flow = ControlFlow::Poll;
    let config = client.renderer.surface_config();
    let reaction = client.dispatch(&ours(WindowEvent::CloseRequested), &mut flow);
    assert_eq!(flow, ControlFlow::Exit);
    assert_eq!(reaction, IDLE);
    assert_eq!(client.renderer.surface_config(), config);
}

#[test]
fn closing_another_window_is_not_ours() {
    let mut client = client(800, 600);
    let mut flow = ControlFlow::Wait;
    let event = Event::WindowEvent { window_id: WINDOW + 1, event: WindowEvent::CloseRequested };
    let reaction = client.dispatch(&event, &mut flow);
    assert_eq!(flow, ControlFlow::Wait);
    assert_eq!(reaction, IDLE);
    let event = Event::WindowEvent {
        window_id: WINDOW + 1,
        event: WindowEvent::Resized(Resolution::new(1, 2)),
    };
    let reaction = client.dispatch(&event, &mut flow);
    assert_eq!(reaction, IDLE);
    assert_eq!(client.renderer.viewport(), Resolution { width: 800, height: 600 });
}

#[test]
fn a_new_size_reconfigures_and_refreshes_the_camera() {
    let mut client = client(800, 600);
    let mut flow = ControlFlow::Poll;
    let reaction =
        client.dispatch(&ours(WindowEvent::Resized(Resolution::new(1024, 768))), &mut flow);
    assert_eq!(flow, ControlFlow::Poll);
    let config = client.renderer.surface_config();
    assert_eq!((config.width, config.height), (1024, 768));
    assert_eq!(
        reaction,
        Reaction {
            reconfigure: Some(config),
            camera: Some(CameraUpdate {
                motion: None,
                viewport: Resolution { width: 1024, height: 768 },
            }),
            redraw: Redraw::Idle,
        }
    );
}

#[test]
fn a_new_scale_factor_is_a_new_size() {
    let mut client = client(800, 600);
    let mut flow = ControlFlow::Poll;
    let event = WindowEvent::ScaleFactorChanged { new_inner_size: Resolution::new(1600, 1200) };
    let reaction = client.dispatch(&ours(event), &mut flow);
    let config = reaction.reconfigure.unwrap();
    assert_eq!((config.width, config.height), (1600, 1200));
    assert_eq!(config, client.renderer.surface_config());
    assert_eq!(
        reaction.camera,
        Some(CameraUpdate { motion: None, viewport: Resolution { width: 1600, height: 1200 } })
    );
}

#[test]
fn a_minimised_window_keeps_a_surface_of_one_by_one() {
    let mut client = client(800, 600);
    let mut flow = ControlFlow::Poll;
    let reaction = client.dispatch(&ours(WindowEvent::Resized(Resolution::new(0, 0))), &mut flow);
    let config = reaction.reconfigure.unwrap();
    assert_eq!((config.width, config.height), (1, 1));
    assert_eq!(reaction.camera.unwrap().viewport, Resolution { width: 1, height: 1 });
    assert_eq!(client.renderer.resolution(), Resolution { width: 0, height: 0 });
}

#[test]
fn a_key_moves_the_camera_and_refreshes_the_transform() {
    let mut client = client(800, 600);
    let mut flow = ControlFlow::Poll;
    let cases = [
        (KeyCode::W, Direction::Forward),
        (KeyCode::Up, Direction::Forward),
        (KeyCode::S, Direction::Backward),
        (KeyCode::Down, Direction::Backward),
        (KeyCode::D, Direction::Right),
        (KeyCode::Right, Direction::Right),
        (KeyCode::A, Direction::Left),
        (KeyCode::Left, Direction::Left),
    ];
    for (key, motion) in cases {
        let event = pressed(key);
        let reaction = client.dispatch(&ours(event), &mut flow);
        assert_eq!(
            reaction,
            Reaction {
                reconfigure: None,
                camera: Some(CameraUpdate {
                    motion: Some(motion),
                    viewport: Resolution { width: 800, height: 600 },
                }),
                redraw: Redraw::Idle,
            }
        );
        assert_eq!(client.update(&event), reaction.camera);
    }
    assert_eq!(flow, ControlFlow::Poll);
}

#[test]
fn the_transform_is_worked_out_for_the_surface_width_first() {
    let mut client = client(800, 600);
    let mut flow = ControlFlow::Poll;
    client.dispatch(&ours(WindowEvent::Resized(Resolution::new(300, 0))), &mut flow);
    let update = client.update(&pressed(KeyCode::W)).unwrap();
    assert_eq!(update.viewport, Resolution { width: 300, height: 1 });
}

#[test]
fn four_steps_to_the_right_are_four_motions_to_the_right() {
    let mut client = client(800, 600);
    let mut flow = ControlFlow::Poll;
    let event = ours(pressed(KeyCode::D));
    for _ in 0..4 {
        let reaction = client.dispatch(&event, &mut flow);
        assert_eq!(reaction.camera.unwrap().motion, Some(Direction::Right));
    }
}

#[test]
fn a_key_that_comes_up_does_nothing() {
    let mut client = client(800, 600);
    let mut flow = ControlFlow::Poll;
    for key in [KeyCode::W, KeyCode::A, KeyCode::S, KeyCode::D, KeyCode::Other] {
        let event =
            WindowEvent::KeyboardInput { state: ElementState::Released, key: Some(key) };
        assert_eq!(client.dispatch(&ours(event), &mut flow), IDLE);
        assert_eq!(client.update(&event), None);
    }
}

#[test]
fn a_key_without_a_motion_does_nothing() {
    let mut client = client(800, 600);
    let mut flow = ControlFlow::Poll;
    assert_eq!(client.dispatch(&ours(pressed(KeyCode::Other)), &mut flow), IDLE);
    let unknown = WindowEvent::KeyboardInput { state: ElementState::Pressed, key: None };
    assert_eq!(client.dispatch(&ours(unknown), &mut flow), IDLE);
    assert_eq!(client.update(&WindowEvent::Other), None);
    assert_eq!(client.update(&WindowEvent::CloseRequested), None);
    assert_eq!(flow, ControlFlow::Poll);
}

#[test]
fn the_loop_asks_for_a_redraw_and_then_draws() {
    let mut client = client(800, 600);
    let mut flow = ControlFlow::Poll;
    let reaction = client.dispatch(&Event::MainEventsCleared, &mut flow);
    assert_eq!(reaction, Reaction { redraw: Redraw::Request, ..IDLE });
    let reaction = client.dispatch(&Event::RedrawRequested, &mut flow);
    assert_eq!(reaction, Reaction { redraw: Redraw::Render, ..IDLE });
    let reaction = client.dispatch(&Event::Other, &mut flow);
    assert_eq!(reaction, IDLE);
    assert_eq!(flow, ControlFlow::Poll);
}

#[test]
fn a_frame_with_an_image_is_drawn() {
    let mut client = client(800, 600);
    let step = client.render(Ok(()));
    match step {
        FrameStep::Draw(frame) => {
            assert_eq!(frame.pass().draw.first_index, 0);
            assert_eq!(frame.pass().draw.index_count, 9);
            assert!(client.renderer.in_frame());
            client.renderer.finish_frame(frame);
        }
        other => panic!("{:?}", other),
    }
    assert!(!client.renderer.in_frame());
}

#[test]
fn a_lost_surface_is_configured_again_and_the_next_frame_is_drawn() {
    let mut client = client(800, 600);
    let config: SurfaceConfiguration = client.renderer.surface_config();
    let step = client.render(Err(SurfaceError::Lost));
    assert_eq!(step, FrameStep::Reconfigure(config));
    assert!(!client.renderer.in_frame());
    assert_eq!(client.renderer.surface_config(), config);
    match client.render(Ok(())) {
        FrameStep::Draw(frame) => client.renderer.finish_frame(frame),
        other => panic!("{:?}", other),
    }
    let step = client.render(Ok(()));
    assert!(matches!(step, FrameStep::Draw(_)));
}

#[test]
fn an_outdated_surface_is_configured_again_at_its_latest_size() {
    let mut client = client(800, 600);
    let mut flow = ControlFlow::Poll;
    client.dispatch(&ours(WindowEvent::Resized(Resolution::new(0, 480))), &mut flow);
    let step = client.render(Err(SurfaceError::Outdated));
    match step {
        FrameStep::Reconfigure(config) => {
            assert_eq!((config.width, config.height), (1, 480));
        }
        other => panic!("{:?}", other),
    }
}

#[test]
fn a_frame_that_timed_out_is_skipped() {
    let mut client = client(800, 600);
    assert_eq!(client.render(Err(SurfaceError::Timeout)), FrameStep::Skip);
    assert!(!client.renderer.in_frame());
    assert!(matches!(client.render(Ok(())), FrameStep::Draw(_)));
}

#[test]
fn a_frame_without_memory_ends_the_process() {
    let mut client = client(800, 600);
    assert_eq!(client.render(Err(SurfaceError::OutOfMemory)), FrameStep::Terminate);
}

#[test]
fn a_camera_transform_is_uploaded_at_the_start_of_the_uniform() {
    let mut client = client(800, 600);
    let mvp = [[1, 0, 0, 0], [0, 2, 0, 0], [0, 0, 3, 0], [0, 0, 0, 4]];
    let write = client.upload_camera(mvp);
    assert_eq!(write.offset, 0);
    assert_eq!(write.data, encode_slice(&[CameraBufferData::new_with_data(mvp)]));
    assert_eq!(client.renderer.camera_projection().mvp, mvp);
    assert_eq!(client.renderer.camera_buffer().data(), &write.data[..]);
}

#[test]
fn the_window_resizes_the_renderer_it_is_given() {
    let mut window = Window::new(WINDOW, Resolution::new(800, 600));
    let outcome = AdapterOutcome::Found(DeviceOutcome::Granted { formats: 1 });
    let mut renderer = Renderer::new(&window, outcome, CameraBufferData::new().mvp).unwrap();
    let mut flow = ControlFlow::Wait;

    let event = WindowEvent::Resized(Resolution::new(320, 0));
    let config = window.handle_window_events(&event, &mut flow, &mut renderer).unwrap();
    assert_eq!((config.width, config.height), (320, 1));
    assert_eq!(renderer.surface_config(), config);
    assert_eq!(flow, ControlFlow::Wait);
    assert_eq!(*window.resolution(), Resolution { width: 800, height: 600 });

    let event = pressed(KeyCode::W);
    assert_eq!(window.handle_window_events(&event, &mut flow, &mut renderer), None);
    assert_eq!(window.handle_window_events(&WindowEvent::Other, &mut flow, &mut renderer), None);
    assert_eq!(flow, ControlFlow::Wait);
    assert_eq!(renderer.surface_config(), config);

    let closed = window.handle_window_events(&WindowEvent::CloseRequested, &mut flow, &mut renderer);
    assert_eq!(closed, None);
    assert_eq!(flow, ControlFlow::Exit);
    window.on_close();
    assert_eq!(window.id(), WINDOW);
}
