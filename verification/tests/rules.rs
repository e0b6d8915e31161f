use aim_trainer::blast::{blast_fuse, burn_fuse, BLAST_LIFETIME_NANOS};
use aim_trainer::sphere::{arrow_direction, ArrowKeys, Steer};
use aim_trainer::targets::{Kovaak, Spot, TARGET_ROLL_HIGH, TARGET_ROLL_LOW, TARGET_WALL_X_HUNDREDTHS};
use aim_trainer::view::next_hdr;
use std::time::Duration;

#[test]
fn fresh_fuse_has_half_a_second() {
    let fuse = blast_fuse();
    assert_eq!(fuse.duration(), Duration::from_millis(500));
    assert_eq!(fuse.elapsed(), Duration::ZERO);
    assert!(!fuse.finished());
    assert_eq!(BLAST_LIFETIME_NANOS, 500_000_000);
}

#[test]
fn fuse_burns_out_after_half_a_second() {
    let mut fuse = blast_fuse();
    assert!(!burn_fuse(&mut fuse, 200_000_000));
    assert_eq!(fuse.elapsed(), Duration::from_millis(200));
    assert!(!burn_fuse(&mut fuse, 299_999_999));
    assert_eq!(fuse.elapsed(), Duration::from_nanos(499_999_999));
    assert!(burn_fuse(&mut fuse, 1));
    assert_eq!(fuse.elapsed(), Duration::from_millis(500));
    assert!(fuse.finished());
}

#[test]
fn fuse_stops_at_its_lifetime() {
    let mut fuse = blast_fuse();
    assert!(burn_fuse(&mut fuse, 2_000_000_000));
    assert_eq!(fuse.elapsed(), Duration::from_millis(500));
    assert!(burn_fuse(&mut fuse, 5));
    assert_eq!(fuse.elapsed(), Duration::from_millis(500));
}

#[test]
fn fuse_burns_additively() {
    let mut split = blast_fuse();
    burn_fuse(&mut split, 120_000_000);
    burn_fuse(&mut split, 130_000_000);
    let mut whole = blast_fuse();
    burn_fuse(&mut whole, 250_000_000);
    assert_eq!(split.elapsed(), whole.elapsed());
    assert_eq!(split.finished(), whole.finished());
}

#[test]
fn zero_frame_leaves_fuse() {
    let mut fuse = blast_fuse();
    assert!(!burn_fuse(&mut fuse, 0));
    assert_eq!(fuse.elapsed(), Duration::ZERO);
}

#[test]
fn spot_from_rolls_is_on_the_wall() {
    let spot = Kovaak::spot_from_rolls(123, 877);
    assert_eq!(spot, Spot { x_hundredths: -1500, y_hundredths: 123, z_hundredths: 877 });
}

#[test]
fn respawned_targets_stay_in_range() {
    assert_eq!(TARGET_WALL_X_HUNDREDTHS, -1500);
    for _ in 0..2000 {
        let spot = Kovaak::respawn_spot();
        assert_eq!(spot.x_hundredths, TARGET_WALL_X_HUNDREDTHS);
        assert!(TARGET_ROLL_LOW <= spot.y_hundredths && spot.y_hundredths < TARGET_ROLL_HIGH);
        assert!(TARGET_ROLL_LOW <= spot.z_hundredths && spot.z_hundredths < TARGET_ROLL_HIGH);
    }
}

#[test]
fn respawned_targets_move() {
    let first = Kovaak::respawn_spot();
    let mut moved = false;
    for _ in 0..100 {
        if Kovaak::respawn_spot() != first {
            moved = true;
        }
    }
    assert!(moved);
}

#[test]
fn bloom_request_flips_hdr() {
    assert!(next_hdr(false, true));
    assert!(!next_hdr(true, true));
    assert!(next_hdr(true, false));
    assert!(!next_hdr(false, false));
}

#[test]
fn bloom_round_trip() {
    assert!(next_hdr(next_hdr(true, true), true));
    assert!(!next_hdr(next_hdr(false, true), true));
}

fn keys(up: bool, down: bool, left: bool, right: bool) -> ArrowKeys {
    ArrowKeys { up, down, left, right }
}

#[test]
fn arrow_directions() {
    assert_eq!(arrow_direction(keys(false, false, false, false)), Steer { x: 0, y: 0, z: 0 });
    assert_eq!(arrow_direction(keys(true, false, false, false)), Steer { x: 5, y: 0, z: 0 });
    assert_eq!(arrow_direction(keys(false, true, false, false)), Steer { x: -5, y: 0, z: 0 });
    assert_eq!(arrow_direction(keys(false, false, true, false)), Steer { x: 1, y: 0, z: -5 });
    assert_eq!(arrow_direction(keys(false, false, false, true)), Steer { x: 1, y: 0, z: 5 });
    assert_eq!(arrow_direction(keys(true, false, true, false)), Steer { x: 6, y: 0, z: -5 });
}

#[test]
fn opposite_arrows_cancel() {
    assert_eq!(arrow_direction(keys(true, true, false, false)), Steer { x: 0, y: 0, z: 0 });
    assert_eq!(arrow_direction(keys(false, false, true, true)), Steer { x: 2, y: 0, z: 0 });
    assert_eq!(arrow_direction(keys(true, true, true, true)), Steer { x: 2, y: 0, z: 0 });
}

#[test]
fn tiles_start_on_the_wall() {
    let first = Kovaak::first_tile_spot();
    let second = Kovaak::second_tile_spot();
    assert_eq!(first, Spot { x_hundredths: -1500, y_hundredths: 700, z_hundredths: 700 });
    assert_eq!(second, Spot { x_hundredths: -1500, y_hundredths: 300, z_hundredths: 300 });
    for spot in [first, second] {
        assert_eq!(spot.x_hundredths, TARGET_WALL_X_HUNDREDTHS);
        assert!(TARGET_ROLL_LOW <= spot.y_hundredths && spot.y_hundredths < TARGET_ROLL_HIGH);
        assert!(TARGET_ROLL_LOW <= spot.z_hundredths && spot.z_hundredths < TARGET_ROLL_HIGH);
    }
}
