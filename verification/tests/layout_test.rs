use imagepipe::layout::{Layout, Plan, Tap};

fn plan(cpp: usize, layout: Layout) -> Plan {
    Plan { src_width: 20, src_height: 15, cpp, x: 2, y: 3, width: 12, height: 10, layout }
}

#[test]
fn layout_follows_samples_per_pixel_and_mosaic() {
    assert_eq!(Layout::select(1, false), Layout::Gray);
    assert_eq!(Layout::select(1, true), Layout::Native);
    assert_eq!(Layout::select(3, false), Layout::Rgb);
    assert_eq!(Layout::select(3, true), Layout::Rgb);
    assert_eq!(Layout::select(2, false), Layout::Native);
    assert_eq!(Layout::select(4, false), Layout::Native);
    assert_eq!(Layout::select(4, true), Layout::Native);
}

#[test]
fn output_channels_of_each_layout() {
    assert_eq!(Layout::Gray.out_channels(1), 4);
    assert_eq!(Layout::Rgb.out_channels(3), 4);
    assert_eq!(Layout::Native.out_channels(1), 1);
    assert_eq!(Layout::Native.out_channels(2), 2);
    assert_eq!(Layout::Native.out_channels(4), 4);
    assert_eq!(plan(1, Layout::Gray).out_channels(), 4);
    assert_eq!(plan(4, Layout::Native).out_channels(), 4);
    assert_eq!(plan(1, Layout::Native).out_channels(), 1);
}

#[test]
fn levels_read_by_each_layout() {
    assert_eq!(Layout::Gray.level_count(1), 1);
    assert_eq!(Layout::Rgb.level_count(3), 3);
    assert_eq!(Layout::Native.level_count(1), 1);
    assert_eq!(Layout::Native.level_count(4), 4);
}

#[test]
fn gray_repeats_one_sample_and_leaves_a_slot() {
    let p = plan(1, Layout::Gray);
    let at = (4 + 3) * 20 + (5 + 2);
    assert_eq!(p.source(4, 5, 0), Some(Tap { index: at, channel: 0 }));
    assert_eq!(p.source(4, 5, 1), Some(Tap { index: at, channel: 0 }));
    assert_eq!(p.source(4, 5, 2), Some(Tap { index: at, channel: 0 }));
    assert_eq!(p.source(4, 5, 3), None);
}

#[test]
fn rgb_takes_three_samples_and_leaves_a_slot() {
    let p = plan(3, Layout::Rgb);
    let at = ((4 + 3) * 20 + (5 + 2)) * 3;
    assert_eq!(p.source(4, 5, 0), Some(Tap { index: at, channel: 0 }));
    assert_eq!(p.source(4, 5, 1), Some(Tap { index: at + 1, channel: 1 }));
    assert_eq!(p.source(4, 5, 2), Some(Tap { index: at + 2, channel: 2 }));
    assert_eq!(p.source(4, 5, 3), None);
}

#[test]
fn native_keeps_every_sample() {
    let p = plan(4, Layout::Native);
    let at = ((4 + 3) * 20 + (5 + 2)) * 4;
    for k in 0..4 {
        assert_eq!(p.source(4, 5, k), Some(Tap { index: at + k, channel: k }));
    }
    let m = plan(1, Layout::Native);
    assert_eq!(m.source(0, 0, 0), Some(Tap { index: 3 * 20 + 2, channel: 0 }));
    assert_eq!(m.source(9, 11, 0), Some(Tap { index: 12 * 20 + 13, channel: 0 }));
}

#[test]
fn every_source_index_lies_inside_the_source() {
    for (cpp, layout) in [(1, Layout::Gray), (3, Layout::Rgb), (1, Layout::Native), (2, Layout::Native), (4, Layout::Native)] {
        let p = plan(cpp, layout);
        for row in 0..p.height {
            for col in 0..p.width {
                for k in 0..p.out_channels() {
                    if let Some(t) = p.source(row, col, k) {
                        assert!(t.index < 20 * 15 * cpp);
                        assert!(t.channel < cpp);
                    }
                }
            }
        }
    }
}
