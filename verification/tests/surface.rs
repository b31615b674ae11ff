use sensor_node::reading::{ReadOutcome, SensorErrorKind, SensorReading};
use sensor_node::surface::{
    render, render_failure, render_success, Alignment, DrawOp, Label, OutputSurface,
    LOWER_LINE_OFFSET, UPPER_LINE_OFFSET,
};

fn reading_of(temperature: f32, humidity: f32) -> SensorReading {
    SensorReading::new(temperature.to_bits(), humidity.to_bits())
}

fn label(text: &str, offset_y: i32, alignment: Alignment) -> Label {
    Label { text: text.to_string(), offset_y, alignment }
}

fn flushes(ops: &[DrawOp]) -> usize {
    ops.iter().filter(|op| matches!(op, DrawOp::Flush)).count()
}

#[test]
fn success_frame_shows_temperature_and_humidity() {
    let ops = render_success(&reading_of(23.4, 55.2));
    assert_eq!(
        ops,
        vec![
            DrawOp::Clear,
            DrawOp::Text(label("23.4 °C", -10, Alignment::Left)),
            DrawOp::Text(label("55.2 %", 20, Alignment::Left)),
            DrawOp::Flush,
        ]
    );
}

#[test]
fn success_frame_uses_the_line_offsets() {
    assert_eq!(UPPER_LINE_OFFSET, -10);
    assert_eq!(LOWER_LINE_OFFSET, 20);
    let ops = render_success(&reading_of(-3.25, 100.0));
    assert_eq!(ops[1], DrawOp::Text(label("-3.2 °C", UPPER_LINE_OFFSET, Alignment::Left)));
    assert_eq!(ops[2], DrawOp::Text(label("100.0 %", LOWER_LINE_OFFSET, Alignment::Left)));
}

#[test]
fn failure_frame_is_a_centred_two_line_message() {
    let ops = render_failure();
    assert_eq!(
        ops,
        vec![
            DrawOp::Clear,
            DrawOp::Text(label("Sensor", -10, Alignment::Center)),
            DrawOp::Text(label("read failed", 20, Alignment::Center)),
            DrawOp::Flush,
        ]
    );
}

#[test]
fn every_frame_clears_first_and_flushes_once_at_the_end() {
    let outcomes = [
        ReadOutcome::Success(reading_of(23.4, 55.2)),
        ReadOutcome::Success(reading_of(f32::NAN, f32::INFINITY)),
        ReadOutcome::Failure(SensorErrorKind::BusTimeout),
        ReadOutcome::Failure(SensorErrorKind::ChecksumOrProtocolError),
        ReadOutcome::Failure(SensorErrorKind::NotInitialized),
    ];
    for outcome in outcomes {
        let ops = render(&outcome);
        assert_eq!(ops.first(), Some(&DrawOp::Clear));
        assert_eq!(ops.last(), Some(&DrawOp::Flush));
        assert_eq!(flushes(&ops), 1);
        assert_eq!(ops.len(), 4);
    }
}

#[test]
fn render_picks_the_frame_of_the_outcome() {
    let reading = reading_of(19.9, 12.0);
    assert_eq!(render(&ReadOutcome::Success(reading)), render_success(&reading));
    assert_eq!(render(&ReadOutcome::Failure(SensorErrorKind::BusTimeout)), render_failure());
}

#[test]
fn presenting_replaces_the_whole_visible_frame() {
    let mut surface = OutputSurface::new();
    assert!(surface.visible.is_empty());
    assert!(surface.present(&ReadOutcome::Success(reading_of(23.4, 55.2))));
    assert_eq!(
        surface.visible,
        vec![label("23.4 °C", -10, Alignment::Left), label("55.2 %", 20, Alignment::Left)]
    );
    assert!(surface.present(&ReadOutcome::Failure(SensorErrorKind::BusTimeout)));
    assert_eq!(
        surface.visible,
        vec![label("Sensor", -10, Alignment::Center), label("read failed", 20, Alignment::Center)]
    );
    assert_eq!(surface.buffer, surface.visible);
    assert!(!surface.held);
}

#[test]
fn a_held_surface_is_left_alone() {
    let mut surface = OutputSurface::new();
    assert!(surface.present(&ReadOutcome::Success(reading_of(1.0, 2.0))));
    let before = surface.clone();
    surface.held = true;
    assert!(!surface.present(&ReadOutcome::Failure(SensorErrorKind::NotInitialized)));
    assert_eq!(surface.visible, before.visible);
    assert_eq!(surface.buffer, before.buffer);
    assert!(surface.held);
    let ran = surface.with_exclusive_access(|| Some(render_failure()));
    assert!(!ran);
    assert_eq!(surface.visible, before.visible);
}

#[test]
fn exclusive_access_draws_and_releases() {
    let mut surface = OutputSurface::new();
    let outcome = ReadOutcome::Success(reading_of(19.9, 12.0));
    let ran = surface.with_exclusive_access(|| Some(render(&outcome)));
    assert!(ran);
    assert!(!surface.held);
    assert_eq!(
        surface.visible,
        vec![label("19.9 °C", -10, Alignment::Left), label("12.0 %", 20, Alignment::Left)]
    );
}

#[test]
fn exclusive_access_releases_when_the_body_fails() {
    let mut surface = OutputSurface::new();
    assert!(surface.present(&ReadOutcome::Success(reading_of(23.4, 55.2))));
    let before = surface.clone();
    let ran = surface.with_exclusive_access(|| None);
    assert!(ran);
    assert!(!surface.held);
    assert_eq!(surface, before);
}

#[test]
fn drawing_without_a_flush_changes_nothing_visible() {
    let mut surface = OutputSurface::new();
    assert!(surface.present(&ReadOutcome::Success(reading_of(23.4, 55.2))));
    let shown = surface.visible.clone();
    let ran = surface.with_exclusive_access(|| {
        Some(vec![DrawOp::Clear, DrawOp::Text(label("half", 0, Alignment::Left))])
    });
    assert!(ran);
    assert_eq!(surface.visible, shown);
    assert_eq!(surface.buffer, vec![label("half", 0, Alignment::Left)]);
}
