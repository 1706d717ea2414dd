use emulator::surface::{
    FrameSurface, Presenter, Redraw, ScreenGeometry, SurfaceStatus, BYTES_PER_PIXEL,
};

fn geometry() -> ScreenGeometry {
    ScreenGeometry { width: 1024, height: 956, native_height: 239, visible_lines: 224 }
}

#[test]
fn new_surface_is_black_and_dirty() {
    let surface = FrameSurface::new(4, 3).unwrap();
    assert_eq!(surface.pixels().len(), 4 * 3 * BYTES_PER_PIXEL);
    assert!(surface.pixels().iter().all(|b| *b == 0));
    assert!(surface.is_dirty());
    let empty = FrameSurface::new(0, 7).unwrap();
    assert_eq!(empty.pixels().len(), 0);
}

#[test]
fn surface_too_large_to_count_is_refused() {
    assert!(FrameSurface::new(u32::MAX, u32::MAX).is_none());
}

#[test]
fn write_frame_replaces_pixels_and_marks_dirty() {
    let mut surface = FrameSurface::new(1, 2).unwrap();
    let mut presenter = Presenter::new(geometry());
    assert_eq!(
        presenter.redraw(&mut surface, SurfaceStatus::Ready),
        Redraw::Present { upload_frame: true, upload_geometry: true }
    );
    assert!(!surface.is_dirty());
    let frame = [1u8, 2, 3, 4, 5, 6, 7, 8];
    assert!(surface.write_frame(&frame));
    assert!(surface.is_dirty());
    assert_eq!(surface.pixels().as_slice(), &frame);
}

#[test]
fn frame_of_wrong_size_is_refused() {
    let mut surface = FrameSurface::new(1, 2).unwrap();
    let mut presenter = Presenter::new(geometry());
    presenter.redraw(&mut surface, SurfaceStatus::Ready);
    assert!(!surface.write_frame(&[1u8, 2, 3]));
    assert!(!surface.is_dirty());
    assert_eq!(surface.pixels().as_slice(), &[0u8; 8]);
}

#[test]
fn second_redraw_uploads_nothing() {
    let mut surface = FrameSurface::new(2, 2).unwrap();
    let mut presenter = Presenter::new(geometry());
    assert!(surface.write_frame(&[7u8; 16]));
    assert_eq!(
        presenter.redraw(&mut surface, SurfaceStatus::Ready),
        Redraw::Present { upload_frame: true, upload_geometry: true }
    );
    let shown = surface.pixels().clone();
    assert_eq!(
        presenter.redraw(&mut surface, SurfaceStatus::Ready),
        Redraw::Present { upload_frame: false, upload_geometry: false }
    );
    assert_eq!(surface.pixels(), &shown);
    assert!(!surface.is_dirty());
    assert!(!presenter.geometry_dirty);
}

#[test]
fn geometry_waits_for_the_next_dirty_frame() {
    let mut surface = FrameSurface::new(2, 2).unwrap();
    let mut presenter = Presenter::new(geometry());
    presenter.redraw(&mut surface, SurfaceStatus::Ready);
    presenter.resize(800, 600);
    assert!(presenter.geometry_dirty);
    assert_eq!(
        presenter.redraw(&mut surface, SurfaceStatus::Ready),
        Redraw::Present { upload_frame: false, upload_geometry: false }
    );
    assert!(presenter.geometry_dirty);
    assert!(surface.write_frame(&[1u8; 16]));
    assert_eq!(
        presenter.redraw(&mut surface, SurfaceStatus::Ready),
        Redraw::Present { upload_frame: true, upload_geometry: true }
    );
    assert!(!presenter.geometry_dirty);
}

#[test]
fn resize_to_same_size_marks_nothing() {
    let mut surface = FrameSurface::new(2, 2).unwrap();
    let mut presenter = Presenter::new(geometry());
    presenter.redraw(&mut surface, SurfaceStatus::Ready);
    presenter.resize(1024, 956);
    assert!(!presenter.geometry_dirty);
    presenter.resize(1024, 957);
    assert!(presenter.geometry_dirty);
    assert_eq!(presenter.geometry_words(), [1024, 957, 239, 224]);
}

#[test]
fn timeout_skips_and_failure_is_fatal() {
    let mut surface = FrameSurface::new(2, 2).unwrap();
    let mut presenter = Presenter::new(geometry());
    assert_eq!(presenter.redraw(&mut surface, SurfaceStatus::Timeout), Redraw::Skip);
    assert!(surface.is_dirty());
    assert!(presenter.geometry_dirty);
    assert_eq!(presenter.redraw(&mut surface, SurfaceStatus::Failed), Redraw::Fatal);
    assert!(surface.is_dirty());
    assert!(presenter.geometry_dirty);
    assert_eq!(
        presenter.redraw(&mut surface, SurfaceStatus::Ready),
        Redraw::Present { upload_frame: true, upload_geometry: true }
    );
}
