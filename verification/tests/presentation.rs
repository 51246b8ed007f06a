use trance::config::DaemonConfig;
use trance::idle_logic::plan_presentation_update;
use trance::layout::{
    apply_topology, monitor_cell_bounds, normalize_layout_positions, pick_primary, primary_grid_bounds, span_grid_fits,
    span_viewports, viewport_cells, virtual_desktop, GridSession, MonitorCellBounds,
};
use trance::runner_protocol::{
    handshake_step, plan_sessions, runner_step, HandshakeStage, HandshakeStep, ReadFailure, RunnerAction, RunnerCommand, RunnerReply,
    SessionTarget,
};
use trance::topology::{MonitorTopology, OutputLayout};

fn out(id: u32, x: i32, y: i32, w: u32, h: u32) -> OutputLayout {
    OutputLayout { id, x, y, width: w, height: h, scale: 1, refresh_rate_hz: 60 }
}

#[test]
fn desktop_spans_outputs() {
    let ls = vec![out(1, 0, 0, 1920, 1080), out(2, 1920, -200, 1280, 1024)];
    assert_eq!(virtual_desktop(&ls), (0, -200, 3200, 1280));
    assert_eq!(virtual_desktop(&vec![]), (0, 0, 1, 1));
    assert_eq!(virtual_desktop(&vec![out(1, 5, 5, 0, 0)]), (5, 5, 1, 1));
}

#[test]
fn cells_of_an_output() {
    let b = monitor_cell_bounds(out(2, 1920, 0, 1920, 1080), 0, 0, 3840, 1080, 200, 50, false);
    assert_eq!(b, MonitorCellBounds { start_col: 100, end_col: 200, start_row: 0, end_row: 50, is_primary: false });
    assert_eq!(viewport_cells(b), (100, 50));
    let empty = MonitorCellBounds { start_col: 5, end_col: 5, start_row: 9, end_row: 3, is_primary: true };
    assert_eq!(viewport_cells(empty), (1, 1));
}

#[test]
fn primary_is_largest_last_on_tie() {
    let ls = vec![out(1, 0, 0, 100, 100), out(2, 100, 0, 50, 200), out(3, 0, 0, 10, 10)];
    assert_eq!(pick_primary(&ls).map(|l| l.id), Some(2));
    assert_eq!(pick_primary(&vec![]), None);
}

#[test]
fn outputs_at_origin_are_laid_side_by_side() {
    let mut ls = vec![out(1, 0, 0, 100, 10), out(2, 0, 0, 200, 10), out(3, 0, 0, 50, 10)];
    normalize_layout_positions(&mut ls);
    assert_eq!(ls.iter().map(|l| l.x).collect::<Vec<_>>(), vec![0, 100, 300]);
    let mut keep = vec![out(1, 0, 0, 100, 10), out(2, 5, 0, 200, 10)];
    normalize_layout_positions(&mut keep);
    assert_eq!(keep[1].x, 5);
}

#[test]
fn span_grid_cap() {
    assert!(span_grid_fits(100, 120));
    assert!(!span_grid_fits(100, 121));
    assert!(!span_grid_fits(usize::MAX, 2));
}

#[test]
fn topology_overrides_layouts() {
    let mut ls = vec![out(1, 0, 0, 100, 100), out(2, 100, 0, 100, 100)];
    let ms = vec![MonitorTopology { id: 2, x: 7, y: 8, width: 9, height: 10, scale: 2, refresh_rate_hz: 30 }];
    apply_topology(&mut ls, &ms);
    assert_eq!(ls[0], out(1, 0, 0, 100, 100));
    assert_eq!(ls[1], OutputLayout { id: 2, x: 7, y: 8, width: 9, height: 10, scale: 2, refresh_rate_hz: 60 });
}

#[test]
fn primary_grid_in_both_modes() {
    let ls = vec![out(1, 0, 0, 1000, 500), out(2, 1000, 0, 1000, 500)];
    let sessions = vec![GridSession { output_id: 1, cols: 80, rows: 40 }, GridSession { output_id: 2, cols: 60, rows: 30 }];
    let (b, c, r) = primary_grid_bounds(true, ls[1], &ls, &sessions);
    assert_eq!((b.start_col, b.end_col, b.start_row, b.end_row, b.is_primary), (0, 60, 0, 30, true));
    assert_eq!((c, r), (60, 30));
    let span = vec![GridSession { output_id: 0, cols: 200, rows: 50 }];
    let (b, c, r) = primary_grid_bounds(false, ls[1], &ls, &span);
    assert_eq!((b.start_col, b.end_col, b.start_row, b.end_row), (100, 200, 0, 50));
    assert_eq!((c, r), (200, 50));
    let views = span_viewports(&ls, 2, 200, 50);
    assert_eq!(views.len(), 2);
    assert_eq!((views[0].1, views[0].2, views[0].0.is_primary), (100, 50, false));
    assert!(views[1].0.is_primary);
}

#[test]
fn tick_plans() {
    let config = DaemonConfig::default();
    let mut current = String::new();
    let mut preview: Option<String> = None;
    let plan = plan_presentation_update(false, true, &mut current, &mut preview, &config, true, false, false, "beams");
    assert!(!plan.stop);
    assert_eq!(plan.start, Some(("beams".to_string(), "idle")));
    // The caller records the saver once it started.
    current = "beams".to_string();
    let plan = plan_presentation_update(true, true, &mut current, &mut preview, &config, true, false, false, "storm");
    assert!(!plan.stop && plan.start.is_none());
    let plan = plan_presentation_update(true, true, &mut current, &mut preview, &config, false, false, false, "storm");
    assert!(plan.stop && plan.log_activity_stop);
    assert_eq!(current, "");
    let mut pv = Some("storm".to_string());
    let mut cur = "beams".to_string();
    let plan = plan_presentation_update(true, true, &mut cur, &mut pv, &config, false, false, false, "beams");
    assert!(plan.stop);
    assert_eq!(plan.start, Some(("storm".to_string(), "preview")));
    let plan = plan_presentation_update(true, true, &mut cur, &mut pv, &config, false, true, false, "beams");
    assert!(plan.stop && !plan.log_activity_stop);
    assert_eq!(pv, None);
}

#[test]
fn sessions_per_output_or_spanning() {
    let ls = vec![out(1, 0, 0, 1920, 1080), out(2, 1920, -200, 1280, 1024)];
    assert_eq!(
        plan_sessions(true, &ls),
        vec![
            SessionTarget { output_id: 1, width: 1920, height: 1080 },
            SessionTarget { output_id: 2, width: 1280, height: 1024 },
        ]
    );
    assert_eq!(plan_sessions(false, &ls), vec![SessionTarget { output_id: 0, width: 3200, height: 1280 }]);
}

#[test]
fn runner_handshake() {
    let ready: Result<RunnerReply, String> = Ok(RunnerReply::Ready);
    let ack: Result<RunnerReply, String> = Ok(RunnerReply::Ack);
    assert_eq!(handshake_step(HandshakeStage::AwaitReady, &ready, 80, 24), HandshakeStep::SendInit { cols: 80, rows: 24 });
    assert_eq!(handshake_step(HandshakeStage::AwaitAck, &ack, 80, 24), HandshakeStep::Established);
    assert_eq!(
        handshake_step(HandshakeStage::AwaitReady, &ack, 80, 24),
        HandshakeStep::Fail("unexpected connection message: Ack".to_string())
    );
    assert_eq!(
        handshake_step(HandshakeStage::AwaitAck, &Ok(RunnerReply::Other("FrameReady".to_string())), 1, 1),
        HandshakeStep::Fail("unexpected response to Init: FrameReady".to_string())
    );
    assert_eq!(
        handshake_step(HandshakeStage::AwaitReady, &Err("eof".to_string()), 1, 1),
        HandshakeStep::Fail("failed to read connection message: eof".to_string())
    );
    assert_eq!(
        handshake_step(HandshakeStage::AwaitAck, &Err("eof".to_string()), 1, 1),
        HandshakeStep::Fail("failed to read Init Ack: eof".to_string())
    );
}

#[test]
fn runner_command_loop() {
    assert_eq!(runner_step(&Ok(RunnerCommand::Init { cols: 80, rows: 24 }), 7), (RunnerAction::InitGrid { cols: 80, rows: 24 }, 7));
    assert_eq!(runner_step(&Ok(RunnerCommand::TickAndDraw { dt_micros: 16_000 }), 7), (RunnerAction::DrawFrame { dt_micros: 16_000 }, 8));
    assert_eq!(runner_step(&Ok(RunnerCommand::TickAndDraw { dt_micros: 1 }), u64::MAX), (RunnerAction::DrawFrame { dt_micros: 1 }, 0));
    assert_eq!(runner_step(&Ok(RunnerCommand::SetSimulationRate { hz_bits: 30.0f32.to_bits() }), 3), (RunnerAction::SetRate { hz_bits: 30.0f32.to_bits() }, 3));
    assert_eq!(runner_step(&Ok(RunnerCommand::Stop), 3), (RunnerAction::Exit, 3));
    assert_eq!(runner_step(&Err(ReadFailure::Closed), 3), (RunnerAction::Exit, 3));
    assert_eq!(
        runner_step(&Err(ReadFailure::Error("broken pipe".to_string())), 3),
        (RunnerAction::Fail("failed to read IPC command: broken pipe".to_string()), 3)
    );
}
