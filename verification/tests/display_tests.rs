use vrcbadge_core::bus::{panel_config, write_window, BusOp, SPI_BUFFER_SIZE};
use vrcbadge_core::framebuffer::{allocate_framebuffer, Framebuffer};
use vrcbadge_core::platform::{logical_window_size, DISPLAY_HEIGHT, DISPLAY_WIDTH};
use vrcbadge_core::region::{DirtyRegion, Rect};
use vrcbadge_core::transfer::{send_dirty_region, TransferEngine};

#[test]
fn window_size_is_landscape() {
    assert_eq!(logical_window_size(), (480, 320));
    assert_eq!(DISPLAY_WIDTH, 480);
    assert_eq!(DISPLAY_HEIGHT, 320);
}

#[test]
fn framebuffer_starts_zeroed() {
    let fb = allocate_framebuffer();
    assert_eq!(fb.width(), 480);
    assert_eq!(fb.height(), 320);
    assert_eq!(fb.get_pixel(0, 0), 0);
    assert_eq!(fb.get_pixel(479, 319), 0);
}

#[test]
fn framebuffer_set_then_get() {
    let mut fb = Framebuffer::new(16, 8);
    fb.set_pixel(3, 2, 0xABCD);
    assert_eq!(fb.get_pixel(3, 2), 0xABCD);
    assert_eq!(fb.get_pixel(2, 3), 0);
}

#[test]
fn region_wf_check_accepts_disjoint_rects() {
    let mut region = DirtyRegion::new();
    region.rects.push(Rect { x: 0, y: 0, width: 4, height: 4 });
    region.rects.push(Rect { x: 4, y: 0, width: 4, height: 4 });
    assert!(region.check_wf(16, 8));
}

#[test]
fn region_wf_check_rejects_overlap() {
    let mut region = DirtyRegion::new();
    region.rects.push(Rect { x: 0, y: 0, width: 4, height: 4 });
    region.rects.push(Rect { x: 3, y: 3, width: 4, height: 4 });
    assert!(!region.check_wf(16, 8));
}

#[test]
fn region_wf_check_rejects_out_of_bounds() {
    let mut region = DirtyRegion::new();
    region.rects.push(Rect { x: 14, y: 0, width: 4, height: 4 });
    assert!(!region.check_wf(16, 8));
}

/// A rectangle with zero width or height causes no transfer at all.
#[test]
fn zero_area_rects_issue_no_transfer() {
    let fb = Framebuffer::new(16, 8);
    let mut region = DirtyRegion::new();
    region.rects.push(Rect { x: 1, y: 1, width: 0, height: 4 });
    region.rects.push(Rect { x: 2, y: 2, width: 3, height: 0 });
    region.rects.push(Rect { x: 5, y: 5, width: 0, height: 0 });
    let plan = send_dirty_region(&fb, &region);
    assert_eq!(plan.len(), 0);
}

#[test]
fn zero_area_rects_are_skipped_among_real_ones() {
    let fb = Framebuffer::new(16, 8);
    let mut region = DirtyRegion::new();
    region.rects.push(Rect { x: 0, y: 0, width: 0, height: 2 });
    region.rects.push(Rect { x: 1, y: 1, width: 2, height: 2 });
    region.rects.push(Rect { x: 9, y: 0, width: 2, height: 0 });
    let plan = send_dirty_region(&fb, &region);
    assert_eq!(plan.len(), 1);
    assert_eq!((plan[0].x0, plan[0].y0, plan[0].x1, plan[0].y1), (1, 1, 2, 2));
}

/// A written pixel comes back out at the head of the transfer for a
/// rectangle anchored on it.
#[test]
fn write_then_flush_round_trips_the_pixel() {
    let mut fb = allocate_framebuffer();
    fb.set_pixel(42, 17, 0x1234);
    let mut region = DirtyRegion::new();
    region.rects.push(Rect { x: 42, y: 17, width: 3, height: 2 });
    let plan = send_dirty_region(&fb, &region);
    assert_eq!(plan.len(), 1);
    assert_eq!(plan[0].pixels[0], 0x1234);
}

/// One 5x5 rectangle of 0xFFFF gives exactly one window write of 25 such
/// pixels.
#[test]
fn five_by_five_rect_transfers_25_pixels() {
    let mut fb = allocate_framebuffer();
    for y in 10..15 {
        for x in 10..15 {
            fb.set_pixel(x, y, 0xFFFF);
        }
    }
    let mut region = DirtyRegion::new();
    region.rects.push(Rect { x: 10, y: 10, width: 5, height: 5 });
    let plan = send_dirty_region(&fb, &region);
    assert_eq!(plan.len(), 1);
    assert_eq!((plan[0].x0, plan[0].y0, plan[0].x1, plan[0].y1), (10, 10, 14, 14));
    assert_eq!(plan[0].pixels.len(), 25);
    assert!(plan[0].pixels.iter().all(|&p| p == 0xFFFF));
}

#[test]
fn transfer_pixels_are_row_major() {
    let mut fb = Framebuffer::new(8, 8);
    fb.set_pixel(2, 3, 1);
    fb.set_pixel(3, 3, 2);
    fb.set_pixel(2, 4, 3);
    fb.set_pixel(3, 4, 4);
    let mut region = DirtyRegion::new();
    region.rects.push(Rect { x: 2, y: 3, width: 2, height: 2 });
    let plan = send_dirty_region(&fb, &region);
    assert_eq!(plan[0].pixels, vec![1, 2, 3, 4]);
}

/// A failed bus write is counted but the remaining rectangles still flush.
#[test]
fn failed_write_does_not_stall_the_tick() {
    let fb = Framebuffer::new(16, 8);
    let mut region = DirtyRegion::new();
    region.rects.push(Rect { x: 0, y: 0, width: 2, height: 2 });
    region.rects.push(Rect { x: 4, y: 0, width: 2, height: 2 });
    region.rects.push(Rect { x: 8, y: 0, width: 2, height: 2 });
    let mut engine = TransferEngine::begin(&fb, &region);
    assert_eq!(engine.remaining(), 3);

    let first = engine.pending().expect("first transfer");
    assert_eq!(first.x0, 0);
    // The bus write for the first rectangle fails mid-tick.
    engine.record_failure();
    engine.advance();

    // The rest of the region is still flushed, in report order.
    let second = engine.pending().expect("second transfer");
    assert_eq!(second.x0, 4);
    engine.advance();
    let third = engine.pending().expect("third transfer");
    assert_eq!(third.x0, 8);
    engine.advance();
    assert!(engine.pending().is_none());
    assert_eq!(engine.failed_writes(), 1);
    assert_eq!(engine.remaining(), 0);
}

#[test]
fn panel_config_matches_the_wiring() {
    let c = panel_config();
    assert_eq!(c.native_width, 320);
    assert_eq!(c.native_height, 480);
    assert!(c.color_order_bgr);
    assert!(c.invert_colors);
    assert_eq!(c.rotation_degrees, 90);
    assert!(c.flip_vertical);
    assert_eq!(c.spi_baudrate_hz, 80_000_000);
    assert!(c.write_only);
}

/// One transfer is one window command and then the whole stream in
/// staging-sized chunks.
#[test]
fn window_write_chunks_the_stream() {
    let fb = Framebuffer::new(16, 8);
    let mut region = DirtyRegion::new();
    region.rects.push(Rect { x: 0, y: 0, width: 3, height: 1 });
    let plan = send_dirty_region(&fb, &region);
    let ops = write_window(&plan[0], 4);
    // 3 pixels = 6 bytes: one window command, one full 4-byte chunk, one
    // 2-byte tail.
    assert_eq!(ops.len(), 3);
    match &ops[0] {
        BusOp::SetWindow { x0, y0, x1, y1 } => {
            assert_eq!((*x0, *y0, *x1, *y1), (0, 0, 2, 0));
        }
        _ => panic!("first op must select the window"),
    }
    match &ops[1] {
        BusOp::WriteChunk { bytes } => assert_eq!(bytes.len(), 4),
        _ => panic!("expected a chunk"),
    }
    match &ops[2] {
        BusOp::WriteChunk { bytes } => assert_eq!(bytes.len(), 2),
        _ => panic!("expected a chunk"),
    }
}

#[test]
fn window_write_encodes_big_endian() {
    let mut fb = Framebuffer::new(4, 1);
    fb.set_pixel(0, 0, 0xABCD);
    fb.set_pixel(1, 0, 0x0102);
    let mut region = DirtyRegion::new();
    region.rects.push(Rect { x: 0, y: 0, width: 2, height: 1 });
    let plan = send_dirty_region(&fb, &region);
    let ops = write_window(&plan[0], SPI_BUFFER_SIZE);
    assert_eq!(ops.len(), 2);
    match &ops[1] {
        BusOp::WriteChunk { bytes } => assert_eq!(bytes, &vec![0xAB, 0xCD, 0x01, 0x02]),
        _ => panic!("expected a chunk"),
    }
}
