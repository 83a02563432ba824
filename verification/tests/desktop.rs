use desktop_cat::desktop::{measurable, work_area_size, WorkArea, FALLBACK_HEIGHT, FALLBACK_WIDTH};

#[test]
fn measured_area_is_used() {
    let a = WorkArea { left: 0, top: 0, right: 2560, bottom: 1400 };
    assert!(measurable(&a));
    assert_eq!(work_area_size(Some(a)), (2560, 1400));
}

#[test]
fn inverted_sides_are_measured_by_distance() {
    let a = WorkArea { left: 1280, top: 900, right: -640, bottom: 0 };
    assert_eq!(work_area_size(Some(a)), (1920, 900));
}

#[test]
fn no_monitor_falls_back() {
    assert_eq!(work_area_size(None), (FALLBACK_WIDTH, FALLBACK_HEIGHT));
    assert_eq!(work_area_size(None), (1920, 1080));
}

#[test]
fn empty_area_falls_back() {
    let flat = WorkArea { left: 10, top: 5, right: 10, bottom: 700 };
    assert_eq!(work_area_size(Some(flat)), (1920, 1080));
    let thin = WorkArea { left: 0, top: 5, right: 800, bottom: 5 };
    assert_eq!(work_area_size(Some(thin)), (1920, 1080));
}

#[test]
fn oversized_areas_are_not_measurable() {
    assert!(!measurable(&WorkArea { left: i32::MIN, top: 0, right: i32::MAX, bottom: 10 }));
    assert!(!measurable(&WorkArea { left: 0, top: i32::MAX, right: 10, bottom: i32::MIN }));
    assert!(!measurable(&WorkArea { left: 0, top: 0, right: i32::MIN, bottom: 10 }));
    assert!(measurable(&WorkArea { left: 0, top: 0, right: i32::MIN + 1, bottom: 10 }));
}
