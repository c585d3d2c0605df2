use freya::CompressionLevel;

#[test]
fn decrease_saturates_at_fast() {
    assert_eq!(CompressionLevel::Fast.decrease(), CompressionLevel::Fast);
}

#[test]
fn increase_saturates_at_best() {
    assert_eq!(CompressionLevel::Best.increase(), CompressionLevel::Best);
}

#[test]
fn two_increases_from_normal_reach_best() {
    assert_eq!(
        CompressionLevel::Normal.increase().increase(),
        CompressionLevel::Best
    );
}

#[test]
fn steps_stay_in_the_preset_set() {
    let all = [
        CompressionLevel::Fast,
        CompressionLevel::Normal,
        CompressionLevel::Best,
    ];
    for l in all {
        assert!(all.contains(&l.increase()));
        assert!(all.contains(&l.decrease()));
    }
}

#[test]
fn increase_and_decrease_move_one_step() {
    assert_eq!(CompressionLevel::Fast.increase(), CompressionLevel::Normal);
    assert_eq!(CompressionLevel::Normal.increase(), CompressionLevel::Best);
    assert_eq!(CompressionLevel::Best.decrease(), CompressionLevel::Normal);
    assert_eq!(CompressionLevel::Normal.decrease(), CompressionLevel::Fast);
}

#[test]
fn zstd_levels_match_presets() {
    assert_eq!(CompressionLevel::Fast.zstd_level(), 1);
    assert_eq!(CompressionLevel::Normal.zstd_level(), 3);
    assert_eq!(CompressionLevel::Best.zstd_level(), 19);
}

#[test]
fn labels_match_presets() {
    assert_eq!(CompressionLevel::Fast.label(), "Fast");
    assert_eq!(CompressionLevel::Normal.label(), "Normal");
    assert_eq!(CompressionLevel::Best.label(), "Best");
}
