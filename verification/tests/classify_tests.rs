use fastdl_mirror::classify::{classify, is_excluded, Classification, CrawlPolicy};

fn pol() -> CrawlPolicy {
    CrawlPolicy::standard()
}

#[test]
fn ordinary_directory_recurses() {
    let p = pol();
    assert_eq!(classify("/cstrike/sound/alpha/", &p), Classification::Recurse);
    assert_eq!(classify("/cstrike/sound/tune.wav", &p), Classification::Recurse);
}

#[test]
fn mirror_file_downloads() {
    let p = pol();
    assert_eq!(
        classify("/cstrike/gflfastdlv2/sound/tune.wav", &p),
        Classification::Download
    );
}

#[test]
fn mirror_directory_skips() {
    let p = pol();
    assert_eq!(
        classify("/cstrike/gflfastdlv2/sound/", &p),
        Classification::Skip
    );
}

#[test]
fn content_with_prefix_downloads() {
    let p = pol();
    assert_eq!(
        classify("/cstrike/maps/ze_tower.bsp", &p),
        Classification::Download
    );
}

#[test]
fn content_without_prefix_skips() {
    let p = pol();
    assert_eq!(classify("/cstrike/maps/de_dust.bsp", &p), Classification::Skip);
}

#[test]
fn mirror_content_with_prefix_downloads() {
    let p = pol();
    assert_eq!(
        classify("/gflfastdlv2/maps/ze_tower.bsp", &p),
        Classification::Download
    );
}

#[test]
fn excluded_markers_skip() {
    let p = pol();
    assert_eq!(classify("/cstrike/sound/index.html", &p), Classification::Skip);
    assert_eq!(classify("/cstrike/sound/tune.wav.tmp", &p), Classification::Skip);
    assert_eq!(classify("/cstrike/sound/tune.wav.ztmp", &p), Classification::Skip);
    assert!(is_excluded("/cstrike/sound/index.html", &p));
    assert!(is_excluded("/a/b.tmp", &p));
    assert!(is_excluded("/a/b.ztmp", &p));
    assert!(!is_excluded("/cstrike/sound/tune.wav", &p));
}

#[test]
fn excluded_marker_never_downloads() {
    // The exclusion filter runs before classification: a path carrying the
    // index marker or either temporary-file marker never classifies as a
    // download, wherever else it sits in the tree.
    let p = pol();
    for path in [
        "/gflfastdlv2/index.html",
        "/gflfastdlv2/tune.wav.tmp",
        "/gflfastdlv2/tune.wav.ztmp",
        "/maps/ze_index.html",
        "/maps/ze_tower.bsp.tmp",
        "/maps/ze_tower.bsp.ztmp",
    ] {
        assert_ne!(classify(path, &p), Classification::Download);
    }
}

#[test]
fn classification_is_deterministic() {
    // Identical arguments give identical results on repeated calls, in any
    // order.
    let p = pol();
    let paths = [
        "/cstrike/sound/alpha/",
        "/cstrike/gflfastdlv2/tune.wav",
        "/cstrike/maps/ze_tower.bsp",
        "/cstrike/sound/index.html",
    ];
    let first: Vec<Classification> = paths.iter().map(|s| classify(s, &p)).collect();
    let second: Vec<Classification> = paths.iter().rev().map(|s| classify(s, &p)).collect();
    for (i, path) in paths.iter().enumerate() {
        assert_eq!(first[i], second[paths.len() - 1 - i]);
        assert_eq!(first[i], classify(path, &pol()));
    }
}
