use ray_camera::frame::{recovery, FrameError, FramePhase, Recovery};
use ray_camera::surface::{tile_count, workgroup_grid, SurfaceSize, TILE_SIZE};

#[test]
fn phases_run_in_order_and_return_to_idle() {
    let mut p = FramePhase::Idle;
    let expected = [
        FramePhase::CameraUpdated,
        FramePhase::UniformUploaded,
        FramePhase::ComputeDispatched,
        FramePhase::Presented,
        FramePhase::Idle,
    ];
    for e in expected {
        p = p.advance();
        assert_eq!(p, e);
    }
}

#[test]
fn recovery_policy() {
    assert_eq!(recovery(FrameError::Lost), Recovery::Reconfigure);
    assert_eq!(recovery(FrameError::Outdated), Recovery::Reconfigure);
    assert_eq!(recovery(FrameError::OutOfMemory), Recovery::Exit);
    assert_eq!(recovery(FrameError::Timeout), Recovery::Skip);
}

#[test]
fn tiles_round_down() {
    assert_eq!(tile_count(800, 8), 100);
    assert_eq!(tile_count(805, 8), 100);
    assert_eq!(tile_count(7, 8), 0);
    assert_eq!(tile_count(0, 16), 0);
    assert_eq!(tile_count(u32::MAX, 16), 268435455);
}

#[test]
fn grid_covers_whole_tiles_only() {
    let size = SurfaceSize::new(450, 400);
    assert_eq!(workgroup_grid(size, 16), (28, 25));
    assert_eq!(workgroup_grid(size, TILE_SIZE), (56, 50));
}

#[test]
fn drawable_needs_both_dimensions() {
    assert!(SurfaceSize::new(1, 1).is_drawable());
    assert!(!SurfaceSize::new(0, 600).is_drawable());
    assert!(!SurfaceSize::new(800, 0).is_drawable());
}
