use tigershark3::frame_num::find_replace_frame_num;

#[test]
fn two_numbers_b() {
    let x = "/my/weird/path/test34.12.1234.bgeo.sc";
    let r = "/my/weird/path/test34.##.####.bgeo.sc";
    assert_eq!(find_replace_frame_num(x), r);
}

#[test]
fn missing_dot() {
    let x = "test.34exr";
    let r = "test.34exr";
    assert_eq!(find_replace_frame_num(x), r);
}

#[test]
fn noslash() {
    let x = "test.34.exr";
    let r = "test.##.exr";
    assert_eq!(find_replace_frame_num(x), r);
}

#[test]
fn test_regular_path() {
    let x = "/bob/joe/test.34.exr";
    let r = "/bob/joe/test.##.exr";
    assert_eq!(find_replace_frame_num(x), r);
}

#[test]
fn plus_sign_counts_as_part_of_the_number() {
    assert_eq!(find_replace_frame_num("shot.+12.exr"), "shot.###.exr");
}

#[test]
fn only_u32_numbers_are_masked() {
    assert_eq!(find_replace_frame_num("a.4294967295.b"), "a.##########.b");
    assert_eq!(find_replace_frame_num("a.4294967296.b"), "a.4294967296.b");
    assert_eq!(find_replace_frame_num("a.-1.b"), "a.-1.b");
    assert_eq!(find_replace_frame_num("a.+.b"), "a.+.b");
    assert_eq!(find_replace_frame_num("a.0007.b"), "a.####.b");
}

#[test]
fn empty_components_and_edges() {
    assert_eq!(find_replace_frame_num(""), "");
    assert_eq!(find_replace_frame_num("."), ".");
    assert_eq!(find_replace_frame_num("12"), "##");
    assert_eq!(find_replace_frame_num("..1.."), "..#..");
    assert_eq!(find_replace_frame_num("1.2.3"), "#.#.#");
}

#[test]
fn non_ascii_text_is_kept() {
    assert_eq!(find_replace_frame_num("é.12.ü"), "é.##.ü");
    assert_eq!(find_replace_frame_num("١٢.3"), "١٢.#");
}

#[test]
fn masking_twice_changes_nothing_more() {
    let once = find_replace_frame_num("/p/f.0012.v3.12.exr");
    assert_eq!(once, "/p/f.####.v3.##.exr");
    assert_eq!(find_replace_frame_num(&once), once);
}
