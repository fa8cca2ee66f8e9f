use popshot::display::{
    bounds_for_output, valid_size, DesktopBounds, DisplayState, OutputEvent, OutputGeometry, OutputInfo,
};

#[test]
fn desktop_bounds_support_negative_coordinates() {
    let geometries = [
        OutputGeometry { position: (-1920, 0), size: (1920, 1080) },
        OutputGeometry { position: (0, 0), size: (2560, 1440) },
    ];

    let first = bounds_for_output(geometries[0]);
    let second = bounds_for_output(geometries[1]);

    let bounds = DesktopBounds {
        left: first.left.min(second.left),
        top: first.top.min(second.top),
        right: first.right.max(second.right),
        bottom: first.bottom.max(second.bottom),
    };

    assert_eq!(bounds.width(), Some(4480));
    assert_eq!(bounds.height(), Some(1440));
}

#[test]
fn image_region_uses_desktop_origin() {
    let bounds = DesktopBounds { left: -1920, top: 0, right: 2560, bottom: 1440 };

    let left_monitor = OutputGeometry { position: (-1920, 0), size: (1920, 1080) };

    let right_monitor = OutputGeometry { position: (0, 0), size: (2560, 1440) };

    assert_eq!(bounds.image_region(left_monitor), Some((0, 0, 1920, 1080)),);

    assert_eq!(bounds.image_region(right_monitor), Some((1920, 0, 2560, 1440)),);
}

#[test]
fn extents_outside_u32_are_refused() {
    let bounds = DesktopBounds { left: 10, top: 0, right: 5, bottom: 1 << 40 };
    assert_eq!(bounds.width(), None);
    assert_eq!(bounds.height(), None);
}

#[test]
fn region_left_of_the_desktop_is_refused() {
    let bounds = DesktopBounds { left: 0, top: 0, right: 100, bottom: 100 };
    let output = OutputGeometry { position: (-5, 0), size: (10, 10) };
    assert_eq!(bounds.image_region(output), None);
}

#[test]
fn sizes_must_be_positive() {
    assert_eq!(valid_size(Some((1920, 1080))), Some((1920, 1080)));
    assert_eq!(valid_size(Some((0, 1080))), None);
    assert_eq!(valid_size(Some((1920, -1))), None);
    assert_eq!(valid_size(None), None);
}

fn info(position: (i32, i32), size: (i32, i32)) -> OutputInfo {
    OutputInfo { logical_position: Some(position), logical_size: Some(size) }
}

#[test]
fn outputs_are_added_updated_and_removed() {
    let mut state = DisplayState::new();
    assert_eq!(state.bounds(), None);

    state.handle_output_event(OutputEvent::Created(Some(info((-1920, 0), (1920, 1080)))), 7);
    state.handle_output_event(OutputEvent::Created(Some(info((0, 0), (2560, 1440)))), 9);
    assert_eq!(state.len(), 2);
    assert!(state.single_output().is_none());
    assert_eq!(
        state.bounds(),
        Some(DesktopBounds { left: -1920, top: 0, right: 2560, bottom: 1440 })
    );

    let ids = state.overlay_ids();
    assert_eq!(ids.len(), 2);
    assert_ne!(ids[0], ids[1]);
    assert_eq!(state.output_for_overlay(ids[1]).unwrap().output, 9);
    assert_ne!(state.outputs()[0].dnd_id, state.outputs()[1].dnd_id);

    // A size update keeps the position; an invalid size is ignored.
    state.handle_output_event(
        OutputEvent::InfoUpdate(OutputInfo { logical_position: None, logical_size: Some((1280, 720)) }),
        9,
    );
    state.handle_output_event(
        OutputEvent::InfoUpdate(OutputInfo { logical_position: Some((10, 10)), logical_size: Some((0, 5)) }),
        7,
    );
    assert_eq!(state.outputs()[1].geometry, OutputGeometry { position: (0, 0), size: (1280, 720) });
    assert_eq!(state.outputs()[0].geometry, OutputGeometry { position: (10, 10), size: (1920, 1080) });

    // Creating a known output again only updates it.
    state.handle_output_event(OutputEvent::Created(Some(info((5, 5), (100, 100)))), 7);
    assert_eq!(state.len(), 2);
    assert_eq!(state.outputs()[0].overlay_id, ids[0]);

    state.handle_output_event(OutputEvent::Removed, 7);
    assert_eq!(state.len(), 1);
    assert_eq!(state.single_output().unwrap().output, 9);
    assert!(state.output_for_overlay(ids[0]).is_none());
    state.handle_output_event(OutputEvent::Other, 9);
    assert_eq!(state.len(), 1);
}

#[test]
fn incomplete_reports_add_nothing() {
    let mut state = DisplayState::new();
    state.handle_output_event(OutputEvent::Created(None), 1);
    state.handle_output_event(
        OutputEvent::Created(Some(OutputInfo { logical_position: None, logical_size: Some((10, 10)) })),
        1,
    );
    state.handle_output_event(
        OutputEvent::InfoUpdate(OutputInfo { logical_position: Some((0, 0)), logical_size: None }),
        1,
    );
    assert_eq!(state.len(), 0);
    state.handle_output_event(OutputEvent::InfoUpdate(info((0, 0), (10, 10))), 1);
    assert_eq!(state.len(), 1);
}
