use desktop_cat::roll::{fold_into_range, rand_range};

#[test]
fn fold_lands_in_the_range() {
    assert_eq!(fold_into_range(0, 1, 18), 1);
    assert_eq!(fold_into_range(17, 1, 18), 18);
    assert_eq!(fold_into_range(18, 1, 18), 1);
    assert_eq!(fold_into_range(100, 19, 26), 19 + 100 % 8);
    assert_eq!(fold_into_range(u32::MAX, 19, 19), 19);
    assert_eq!(fold_into_range(u32::MAX, 0, u32::MAX - 1), u32::MAX % u32::MAX);
}

#[test]
fn rolls_stay_in_their_range() {
    for _ in 0..200 {
        let n = rand_range(1, 18);
        assert!((1..=18).contains(&n));
        let s = rand_range(19, 26);
        assert!((19..=26).contains(&s));
        assert_eq!(rand_range(19, 19), 19);
        assert_eq!(rand_range(1, 1), 1);
    }
}
