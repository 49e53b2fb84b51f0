use yas_scanner_genshin::game_info::{Platform, ResolutionFamily, Size, UI};
use yas_scanner_genshin::window_info::WindowInfoRepository;

#[test]
fn recognizes_rounded_common_resolutions() {
    assert_eq!(
        ResolutionFamily::new(Size {
            width: 1366,
            height: 768,
        }),
        Some(ResolutionFamily::Windows16x9)
    );
    assert_eq!(
        ResolutionFamily::new(Size {
            width: 2560,
            height: 1080,
        }),
        Some(ResolutionFamily::Windows43x18)
    );
}

#[test]
fn rejects_layouts_far_from_a_calibrated_family() {
    assert_eq!(
        ResolutionFamily::new(Size {
            width: 1000,
            height: 700,
        }),
        None
    );
}

#[test]
fn empty_sizes_have_no_family() {
    assert_eq!(ResolutionFamily::new(Size { width: 0, height: 900 }), None);
    assert_eq!(ResolutionFamily::new(Size { width: 1600, height: 0 }), None);
}

#[test]
fn exact_ratios_and_the_tolerance_edge() {
    assert_eq!(
        ResolutionFamily::new(Size { width: 1920, height: 1200 }),
        Some(ResolutionFamily::Windows8x5)
    );
    assert_eq!(
        ResolutionFamily::new(Size { width: 1024, height: 768 }),
        Some(ResolutionFamily::Windows4x3)
    );
    assert_eq!(
        ResolutionFamily::new(Size { width: 2100, height: 900 }),
        Some(ResolutionFamily::Windows7x3)
    );
    // 16:9 is 1600:900; 1.5 % of it is 24 pixels of width at this height.
    assert_eq!(
        ResolutionFamily::new(Size { width: 1624, height: 900 }),
        Some(ResolutionFamily::Windows16x9)
    );
    assert_eq!(ResolutionFamily::new(Size { width: 1625, height: 900 }), None);
}

#[test]
fn auto_scale_chooses_the_nearest_profile_deterministically() {
    let mut repository = WindowInfoRepository::new();
    repository.add(
        "row-count",
        Size {
            width: 1280,
            height: 720,
        },
        UI::Desktop,
        Platform::Windows,
        1,
    );
    repository.add(
        "row-count",
        Size {
            width: 1600,
            height: 900,
        },
        UI::Desktop,
        Platform::Windows,
        2,
    );

    let value: i32 = repository
        .get_auto_scale(
            "row-count",
            Size {
                width: 1366,
                height: 768,
            },
            UI::Desktop,
            Platform::Windows,
        )
        .unwrap()
        .value;
    assert_eq!(value, 1);
}

#[test]
fn auto_scale_preserves_row_counts_for_each_layout_family() {
    let mut repository = WindowInfoRepository::new();
    for (size, rows) in [
        ((1600, 900), 5),
        ((1440, 900), 6),
        ((1280, 960), 7),
        ((3440, 1440), 5),
    ] {
        repository.add(
            "row-count",
            Size {
                width: size.0,
                height: size.1,
            },
            UI::Desktop,
            Platform::Windows,
            rows,
        );
    }

    for (size, expected_rows) in [
        ((1366, 768), 5),
        ((1920, 1200), 6),
        ((1024, 768), 7),
        ((2560, 1080), 5),
    ] {
        let rows: i32 = repository
            .get_auto_scale(
                "row-count",
                Size {
                    width: size.0,
                    height: size.1,
                },
                UI::Desktop,
                Platform::Windows,
            )
            .unwrap()
            .value;
        assert_eq!(rows, expected_rows, "unexpected row count for {size:?}");
    }
}

#[test]
fn auto_scale_reports_the_source_layout_for_scaling() {
    let mut repository = WindowInfoRepository::new();
    repository.add("position", Size { width: 1600, height: 900 }, UI::Desktop, Platform::Windows, 7u8);
    let found = repository
        .get_auto_scale("position", Size { width: 1366, height: 768 }, UI::Desktop, Platform::Windows)
        .unwrap();
    assert_eq!(found.source_size, Size { width: 1600, height: 900 });
    assert_eq!(found.value, 7);

    let exact = repository
        .get_auto_scale("position", Size { width: 1600, height: 900 }, UI::Desktop, Platform::Windows)
        .unwrap();
    assert_eq!(exact.source_size, Size { width: 1600, height: 900 });
}

#[test]
fn auto_scale_ignores_other_interfaces_and_families() {
    let mut repository = WindowInfoRepository::new();
    repository.add("row-count", Size { width: 1600, height: 900 }, UI::Mobile, Platform::Windows, 1);
    repository.add("row-count", Size { width: 1440, height: 900 }, UI::Desktop, Platform::Windows, 2);
    assert!(repository
        .get_auto_scale("row-count", Size { width: 1366, height: 768 }, UI::Desktop, Platform::Windows)
        .is_none());
    assert!(repository
        .get_auto_scale("missing", Size { width: 1440, height: 900 }, UI::Desktop, Platform::Windows)
        .is_none());
    assert!(repository
        .get_auto_scale("row-count", Size { width: 1000, height: 700 }, UI::Desktop, Platform::Windows)
        .is_none());
}

#[test]
fn auto_scale_breaks_equal_scale_distance_by_width() {
    let mut repository = WindowInfoRepository::new();
    // 1600 / 1280 == 2000 / 1600: both profiles are one step of 5/4 away.
    repository.add("v", Size { width: 2000, height: 1125 }, UI::Desktop, Platform::Windows, 2);
    repository.add("v", Size { width: 1280, height: 720 }, UI::Desktop, Platform::Windows, 1);
    let found = repository
        .get_auto_scale("v", Size { width: 1600, height: 901 }, UI::Desktop, Platform::Windows)
        .unwrap();
    assert_eq!(found.value, 1);
}

#[test]
fn add_replaces_and_merge_prefers_the_other_repository() {
    let size = Size { width: 1600, height: 900 };
    let mut left = WindowInfoRepository::new();
    left.add("a", size, UI::Desktop, Platform::Windows, 1);
    left.add("a", size, UI::Desktop, Platform::Windows, 2);
    left.add("b", size, UI::Desktop, Platform::Windows, 3);
    assert_eq!(left.get_exact("a", size, UI::Desktop, Platform::Windows), Some(2));

    let mut right = WindowInfoRepository::new();
    right.add("b", size, UI::Desktop, Platform::Windows, 30);
    right.add("c", size, UI::Desktop, Platform::Windows, 40);

    let merged = left.merge(&right);
    assert_eq!(merged.get_exact("a", size, UI::Desktop, Platform::Windows), Some(2));
    assert_eq!(merged.get_exact("b", size, UI::Desktop, Platform::Windows), Some(30));
    assert_eq!(merged.get_exact("c", size, UI::Desktop, Platform::Windows), Some(40));
    assert_eq!(left.get_exact("c", size, UI::Desktop, Platform::Windows), None);

    left.merge_inplace(&right);
    assert_eq!(left.get_exact("b", size, UI::Desktop, Platform::Windows), Some(30));
    assert_eq!(left.get_exact("b", size, UI::Mobile, Platform::Windows), None);
}

#[test]
fn auto_scale_supports_rounded_aspect_ratios() {
    let mut repository = WindowInfoRepository::new();
    repository.add(
        "position",
        Size {
            width: 1600,
            height: 900,
        },
        UI::Desktop,
        Platform::Windows,
        (100.0f64, 50.0f64),
    );

    let found = repository
        .get_auto_scale(
            "position",
            Size {
                width: 1366,
                height: 768,
            },
            UI::Desktop,
            Platform::Windows,
        )
        .unwrap();
    assert_eq!(found.source_size, Size { width: 1600, height: 900 });
    // The profile is scaled by the ratio of the widths.
    let factor = 1366.0 / found.source_size.width as f64;
    let (x, y) = found.value;
    assert!((x * factor - 85.375).abs() < 0.001);
    assert!((y * factor - 42.6875).abs() < 0.001);
}
