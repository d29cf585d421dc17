use azalea_graphics::hiz::{
    copy, dispatch_plan, group_count, halve, mip_levels, reduce, shift_down, DepthImage,
    HiZPyramid, LevelDispatch,
};

fn image(width: u32, height: u32, texels: Vec<u32>) -> DepthImage {
    let image = DepthImage { width, height, texels };
    assert!(image.check());
    image
}

fn scrambled(width: u32, height: u32) -> DepthImage {
    let mut texels = Vec::new();
    let mut seed: u32 = 12345;
    for _ in 0..(width * height) {
        seed = seed.wrapping_mul(1664525).wrapping_add(1013904223);
        texels.push(seed >> 8);
    }
    image(width, height, texels)
}

#[test]
fn level_count_is_the_bit_length_of_the_larger_extent() {
    assert_eq!(mip_levels(1, 1), 1);
    assert_eq!(mip_levels(0, 0), 1);
    assert_eq!(mip_levels(2, 1), 2);
    assert_eq!(mip_levels(3, 3), 2);
    assert_eq!(mip_levels(4, 1), 3);
    assert_eq!(mip_levels(1920, 1080), 11);
    assert_eq!(mip_levels(1080, 1920), 11);
    assert_eq!(mip_levels(1024, 1024), 11);
    assert_eq!(mip_levels(1023, 7), 10);
    assert_eq!(mip_levels(u32::MAX, 1), 32);
    for w in 1..300u32 {
        assert_eq!(mip_levels(w, 1), 32 - w.leading_zeros());
    }
}

#[test]
fn extents_halve_down_to_one() {
    assert_eq!(halve(1920), 960);
    assert_eq!(halve(1081), 540);
    assert_eq!(halve(3), 1);
    assert_eq!(halve(1), 1);
    assert_eq!(halve(0), 1);
    assert_eq!(shift_down(1000, 3), 125);
    assert_eq!(shift_down(7, 1), 3);
    assert_eq!(shift_down(7, 40), 0);
    assert_eq!(shift_down(u32::MAX, 31), 1);
    assert_eq!(shift_down(5, 0), 5);
}

#[test]
fn reduce_takes_the_smallest_of_four() {
    let src = image(
        4,
        4,
        vec![
            9, 8, 7, 6, //
            5, 4, 3, 2, //
            10, 20, 30, 40, //
            50, 60, 70, 80,
        ],
    );
    let dst = reduce(&src);
    assert_eq!((dst.width, dst.height), (2, 2));
    assert_eq!(dst.texels, vec![4, 2, 10, 30]);
    let top = reduce(&dst);
    assert_eq!((top.width, top.height), (1, 1));
    assert_eq!(top.texels, vec![2]);
    let again = reduce(&top);
    assert_eq!((again.width, again.height), (1, 1));
    assert_eq!(again.texels, vec![2]);
}

#[test]
fn reduce_of_odd_extents_leaves_the_last_texels_out() {
    let src = image(
        3,
        3,
        vec![
            5, 6, 1, //
            7, 8, 1, //
            1, 1, 0,
        ],
    );
    let dst = reduce(&src);
    assert_eq!((dst.width, dst.height), (1, 1));
    assert_eq!(dst.texels, vec![5]);
    let strip = image(5, 1, vec![9, 3, 7, 8, 1]);
    let half = reduce(&strip);
    assert_eq!((half.width, half.height), (2, 1));
    assert_eq!(half.texels, vec![3, 7]);
}

#[test]
fn copy_keeps_every_texel() {
    let src = scrambled(7, 5);
    let dst = copy(&src);
    assert_eq!((dst.width, dst.height), (7, 5));
    assert_eq!(dst.texels, src.texels);
}

#[test]
fn pyramid_has_a_level_for_every_halving() {
    let pyramid = HiZPyramid::build(&scrambled(20, 12));
    assert_eq!(pyramid.level_count(), 5);
    let extents: Vec<(u32, u32)> =
        pyramid.levels().iter().map(|l| (l.width, l.height)).collect();
    assert_eq!(extents, vec![(20, 12), (10, 6), (5, 3), (2, 1), (1, 1)]);
    for level in pyramid.levels() {
        assert!(level.check());
    }
}

#[test]
fn coarse_texel_is_at_most_every_texel_of_its_block() {
    let base = scrambled(16, 8);
    let pyramid = HiZPyramid::build(&base);
    assert_eq!(pyramid.level_count(), 5);
    for i in 0..pyramid.levels().len() {
        for j in i..pyramid.levels().len() {
            let fine = &pyramid.levels()[i];
            let coarse = &pyramid.levels()[j];
            let up = (j - i) as u32;
            for y in 0..fine.height {
                for x in 0..fine.width {
                    let (ax, ay) = (x >> up, y >> up);
                    if ax < coarse.width && ay < coarse.height && fine.width == coarse.width << up
                    {
                        assert!(coarse.texel(ax, ay).unwrap() <= fine.texel(x, y).unwrap());
                    }
                }
            }
        }
    }
    // the top is the smallest key of the whole image
    let least = *base.texels.iter().min().unwrap();
    assert_eq!(pyramid.levels()[4].texels, vec![least]);
}

#[test]
fn coarse_texel_is_the_minimum_of_its_block() {
    let base = scrambled(8, 8);
    let pyramid = HiZPyramid::build(&base);
    for j in 0..4u32 {
        let coarse = &pyramid.levels()[j as usize];
        for cy in 0..coarse.height {
            for cx in 0..coarse.width {
                let mut least = u32::MAX;
                for y in (cy << j)..((cy + 1) << j) {
                    for x in (cx << j)..((cx + 1) << j) {
                        least = least.min(base.texel(x, y).unwrap());
                    }
                }
                assert_eq!(coarse.texel(cx, cy), Some(least));
            }
        }
    }
}

#[test]
fn uniform_image_gives_a_uniform_pyramid() {
    let base = DepthImage::filled(13, 9, 777).unwrap();
    let pyramid = HiZPyramid::build(&base);
    for level in pyramid.levels() {
        assert!(level.texels.iter().all(|&d| d == 777));
    }
    assert!(DepthImage::filled(0, 4, 1).is_none());
    assert!(DepthImage::filled(4, 0, 1).is_none());
}

#[test]
fn texel_reads_are_kept_within_the_image() {
    let img = image(3, 2, vec![1, 2, 3, 4, 5, 6]);
    assert_eq!(img.texel(0, 0), Some(1));
    assert_eq!(img.texel(2, 1), Some(6));
    assert_eq!(img.texel(3, 0), None);
    assert_eq!(img.texel(0, 2), None);
    assert_eq!(img.texel_clamped(1, 1), 5);
    assert_eq!(img.texel_clamped(9, 0), 3);
    assert_eq!(img.texel_clamped(0, 9), 4);
    assert_eq!(img.texel_clamped(u32::MAX, u32::MAX), 6);
    let bad = DepthImage { width: 2, height: 2, texels: vec![1, 2, 3] };
    assert!(!bad.check());
    let empty = DepthImage { width: 0, height: 0, texels: vec![] };
    assert!(!empty.check());
}

#[test]
fn samples_read_the_texel_above() {
    let base = image(
        4,
        4,
        vec![
            9, 8, 7, 6, //
            5, 4, 3, 2, //
            10, 20, 30, 40, //
            50, 60, 70, 80,
        ],
    );
    let pyramid = HiZPyramid::build(&base);
    assert_eq!(pyramid.sample(0, 2, 1), 3);
    assert_eq!(pyramid.sample(0, 4, 4), 80);
    assert_eq!(pyramid.sample(1, 0, 0), 4);
    assert_eq!(pyramid.sample(1, 3, 1), 2);
    assert_eq!(pyramid.sample(1, 2, 3), 30);
    assert_eq!(pyramid.sample(1, 4, 4), 30);
    assert_eq!(pyramid.sample(2, 3, 3), 2);
    assert_eq!(pyramid.sample(7, 3, 3), 2);
    assert_eq!(pyramid.sample(u32::MAX, u32::MAX, u32::MAX), 2);
}

#[test]
fn work_groups_cover_every_level() {
    assert_eq!(group_count(0), 1);
    assert_eq!(group_count(1), 1);
    assert_eq!(group_count(8), 1);
    assert_eq!(group_count(9), 2);
    assert_eq!(group_count(1920), 240);
    assert_eq!(group_count(1080), 135);
    assert_eq!(group_count(u32::MAX), 536870912);
    let plan = dispatch_plan(1920, 1080, mip_levels(1920, 1080));
    assert_eq!(plan.len(), 11);
    assert_eq!(
        plan[0],
        LevelDispatch { level: 0, width: 1920, height: 1080, groups_x: 240, groups_y: 135 }
    );
    assert_eq!(
        plan[1],
        LevelDispatch { level: 1, width: 960, height: 540, groups_x: 120, groups_y: 68 }
    );
    assert_eq!(
        plan[4],
        LevelDispatch { level: 4, width: 120, height: 67, groups_x: 15, groups_y: 9 }
    );
    assert_eq!(
        plan[10],
        LevelDispatch { level: 10, width: 1, height: 1, groups_x: 1, groups_y: 1 }
    );
    let single = dispatch_plan(5, 3, 0);
    assert_eq!(
        single,
        vec![LevelDispatch { level: 0, width: 5, height: 3, groups_x: 1, groups_y: 1 }]
    );
}
