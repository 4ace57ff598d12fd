use render_passes::objects::{coordinate_seed, cube_sites, rng_from_pos, Site};
use xorshift::{Rng, RngJump, SeedableRng, Xoroshiro128};

fn generator_by_hand(pos: [i32; 3], i: u64) -> Xoroshiro128 {
    let mut rng: Xoroshiro128 = SeedableRng::from_seed(&[1, i][..]);
    rng.jump(1);
    for d in pos.iter() {
        let v = (*d as i64 + i32::MAX as i64) as u64;
        let first = rng.next_u64();
        let second = rng.next_u64();
        let seed = [first, second.wrapping_add(v)];
        rng.reseed(&seed[..]);
        rng.jump(1);
    }
    rng
}

#[test]
fn generator_of_a_site_matches_the_recurrence() {
    let mut ours = rng_from_pos(Site { x: 3, y: 0, z: -2 }, 1);
    let mut theirs = generator_by_hand([3, 0, -2], 1);
    for _ in 0..16 {
        assert_eq!(ours.next_u64(), theirs.next_u64());
    }
}

#[test]
fn coordinate_seed_wraps() {
    assert_eq!(coordinate_seed(5, 7, 0), (5, 7 + 2147483647));
    assert_eq!(coordinate_seed(5, u64::MAX, 0), (5, 2147483646));
    assert_eq!(coordinate_seed(5, 7, i32::MIN), (5, 6));
    assert_eq!(coordinate_seed(5, 7, i32::MAX), (5, 7 + 4294967294));
}

#[test]
fn sites_fill_the_grid_row_by_row() {
    let sites = cube_sites(Site { x: 0, y: 0, z: 0 });
    assert_eq!(sites.len(), 54);
    assert_eq!(sites[0], Site { x: -3, y: 0, z: -3 });
    assert_eq!(sites[5], Site { x: 2, y: 0, z: -3 });
    assert_eq!(sites[6], Site { x: -3, y: 0, z: -2 });
    assert_eq!(sites[53], Site { x: 2, y: 0, z: 5 });
}

#[test]
fn generators_of_one_site_differ_by_stream() {
    let site = Site { x: 0, y: 0, z: 0 };
    let mut a = rng_from_pos(site, 1);
    let mut b = rng_from_pos(site, 2);
    let mut again = rng_from_pos(site, 1);
    let first = a.next_u64();
    assert_eq!(first, again.next_u64());
    assert!(first != b.next_u64());
    let mut theirs = generator_by_hand([0, 0, 0], 2);
    let mut ours = rng_from_pos(site, 2);
    assert_eq!(ours.next_u64(), theirs.next_u64());
}

#[test]
fn generators_differ_by_site() {
    let mut a = rng_from_pos(Site { x: 1, y: 0, z: 0 }, 1);
    let mut b = rng_from_pos(Site { x: 0, y: 0, z: 1 }, 1);
    assert!(a.next_u64() != b.next_u64());
    let mut ours = rng_from_pos(Site { x: i32::MIN, y: i32::MAX, z: -1 }, 7);
    let mut theirs = generator_by_hand([i32::MIN, i32::MAX, -1], 7);
    for _ in 0..4 {
        assert_eq!(ours.next_u64(), theirs.next_u64());
    }
}

#[test]
fn sites_mirror_the_position_and_saturate() {
    let sites = cube_sites(Site { x: 10, y: -4, z: 7 });
    assert_eq!(sites[0], Site { x: -13, y: 4, z: -10 });
    assert_eq!(sites[53], Site { x: -8, y: 4, z: -2 });
    let far = cube_sites(Site { x: i32::MIN, y: i32::MIN, z: i32::MAX });
    // -(i32::MIN) - 3 still fits; -(i32::MIN) + 2 does not
    assert_eq!(far[0], Site { x: 2147483645, y: i32::MAX, z: i32::MIN });
    assert_eq!(far[53], Site { x: i32::MAX, y: i32::MAX, z: -2147483642 });
}

/// The xoroshiro128+ recurrence, written out: the output is the wrapping sum
/// of the two words of the state.
fn step(state: &mut (u64, u64)) -> u64 {
    let (s0, s1) = *state;
    let out = s0.wrapping_add(s1);
    let x = s1 ^ s0;
    *state = (s0.rotate_left(55) ^ x ^ (x << 14), x.rotate_left(36));
    out
}

/// One jump of xoroshiro128+, written out over the recurrence.
fn jump_once(state: &mut (u64, u64)) {
    let polynomial: [u64; 2] = [0xbeac0467eba5facb, 0xd86b048b86aa9922];
    let (mut s0, mut s1) = (0u64, 0u64);
    for word in polynomial.iter() {
        for b in 0..64 {
            if word & (1u64 << b) != 0 {
                s0 ^= state.0;
                s1 ^= state.1;
            }
            step(state);
        }
    }
    *state = (s0, s1);
}

fn state_by_hand(pos: [i32; 3], i: u64) -> (u64, u64) {
    let mut state = (1u64, i);
    jump_once(&mut state);
    for d in pos.iter() {
        let first = step(&mut state);
        let second = step(&mut state);
        state = coordinate_seed(first, second, *d);
        jump_once(&mut state);
    }
    state
}

#[test]
fn generator_of_a_site_has_the_state_of_the_recurrence() {
    for (pos, i) in [([0, 0, 0], 1u64), ([3, 0, -2], 1), ([-7, 5, 100], 2), ([i32::MIN, 0, i32::MAX], 9)] {
        let mut state = state_by_hand(pos, i);
        let mut rng = rng_from_pos(Site { x: pos[0], y: pos[1], z: pos[2] }, i);
        for _ in 0..8 {
            assert_eq!(rng.next_u64(), step(&mut state));
        }
    }
}
