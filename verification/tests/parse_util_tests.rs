use golarion_compendium::parse_util::{
    clear_all_tags, clear_tag, comma_blocks, fill_array_from_available, fill_array_trace, flatten_str_list, get_from_byte,
    get_slice_inside_tags, get_until, skip_to, slice_between_inclusive, split_off, try_clear_tag,
};

#[test]
fn get_until_splits_at_the_first_marker() {
    assert_eq!(get_until("CA 16, PF 20", ", "), ("CA 16", "PF 20"));
    assert_eq!(get_until("abc", "x"), ("", "abc"));
    assert_eq!(get_until("abc", ""), ("abc", ""));
}

#[test]
fn skip_to_goes_past_the_tag() {
    assert_eq!(skip_to("uno <b>due", "<b>"), "due");
    assert_eq!(skip_to("uno due", "<b>"), "");
}

#[test]
fn slice_between_inclusive_gives_byte_offsets() {
    assert_eq!(slice_between_inclusive("xx[ab]yy", "[", "]"), Some(("[ab]", 2, 5)));
    assert_eq!(slice_between_inclusive("àà[ab]", "[", "]"), Some(("[ab]", 4, 7)));
    assert_eq!(slice_between_inclusive("]x[", "[", "]"), None);
    assert_eq!(slice_between_inclusive("x[", "[", "]"), None);
}

#[test]
fn split_off_at_the_first_listed_char_found() {
    assert_eq!(split_off("Morso +5 (1d6)", "(+"), Some(("Morso +5 ", "(1d6)")));
    assert_eq!(split_off("Morso", "(+"), None);
}

#[test]
fn clearing_tags() {
    assert_eq!(clear_all_tags("<b>CA</b>&#160;16"), "CA 16");
    assert_eq!(clear_all_tags("a > b"), "a > b");
    assert_eq!(clear_all_tags("x>y<z"), "");
    assert_eq!(clear_all_tags("a < b"), "");
    assert_eq!(clear_tag("x<div>y</div>z", "<div>", "</div>"), "x</div>z");
    assert_eq!(clear_tag("xyz", "<div>", "</div>"), "");
    assert_eq!(try_clear_tag("</div><div>", "<div>", "</div>"), None);
}

#[test]
fn slice_inside_tags() {
    assert_eq!(get_slice_inside_tags("a<p>b</p>c", "<p>", "</p>"), ("b", "c"));
    assert_eq!(get_slice_inside_tags("a</p><p>b", "<p>", "</p>"), ("", ""));
    assert_eq!(get_slice_inside_tags("a<p>b", "<p>", "</p>"), ("", ""));
}

#[test]
fn fill_array_fields_between_markers() {
    let r = fill_array_from_available("Nome GS 3 PE: 800", &["GS", "PE:"]);
    assert_eq!(r, vec!["Nome", "3", "800"]);
}

#[test]
fn fill_array_keeps_the_slot_of_a_missing_marker() {
    let r = fill_array_from_available("Nome PE: 800", &["GS", "PE:"]);
    assert_eq!(r, vec!["", "Nome", "800"]);
    let r = fill_array_from_available("A x: 1 z: 3", &["x:", "y:", "z:"]);
    assert_eq!(r, vec!["A", "1", "", "3"]);
}

#[test]
fn flatten_splits_one_element_in_place() {
    let mut v = vec!["a", "x, y, z", "b"];
    let n = flatten_str_list(&mut v, 1, ", ");
    assert_eq!(n, 3);
    assert_eq!(v, vec!["a", "x", "y", "z", "b"]);
    let mut v = vec!["solo"];
    assert_eq!(flatten_str_list(&mut v, 0, ", "), 1);
    assert_eq!(v, vec!["solo"]);
}

#[test]
fn comma_blocks_drop_a_short_tail() {
    assert_eq!(comma_blocks(" Schivare, Robustezza, ab."), vec!["Schivare", "Robustezza"]);
    assert_eq!(comma_blocks("Arma Focalizzata"), vec!["Arma Focalizzata"]);
}

#[test]
fn get_from_byte_needs_a_boundary() {
    assert_eq!(get_from_byte("àb", 2), Some("b"));
    assert_eq!(get_from_byte("àb", 1), None);
    assert_eq!(get_from_byte("ab", 3), None);
    assert_eq!(get_from_byte("ab", 2), Some(""));
}

#[test]
fn fill_array_trace_shows_each_step() {
    let t = fill_array_trace("A x: 1 z: 3", &["x:", "y:", "z:"]);
    assert_eq!(t, vec![vec!["A"], vec!["A", ""], vec!["A", "1", ""]]);
}

#[test]
fn cleared_text_holds_no_tag_opening() {
    for s in ["<b>CA</b> 16", "a <i>b</i> <br /> c", "x > y", "<<a>>", "a < b"] {
        assert!(!clear_all_tags(s).contains('<'));
    }
}
