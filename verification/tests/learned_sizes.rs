use komorebi::min_size;
use komorebi::min_size::AcceptedSizes;
use komorebi::min_size::MinSize;
use komorebi::min_size::Unreported;
use komorebi::min_width;
use komorebi::names::NameMap;

fn stored(entries: &[(&str, i32, i32)]) -> NameMap<MinSize> {
    let mut known = NameMap::new();
    for (name, width, height) in entries {
        known.insert(name.to_string(), MinSize { width: *width, height: *height });
    }
    known
}

#[test]
fn what_was_stored_is_known() {
    let sizes = min_size::load(Some(stored(&[("Xcode", 500, 0), ("Music", 0, 240)])));
    assert_eq!(min_size::get(&sizes, "Xcode"), Some(500));
    assert_eq!(min_size::get_height(&sizes, "Xcode"), None);
    assert_eq!(min_size::get(&sizes, "Music"), None);
    assert_eq!(min_size::get_height(&sizes, "Music"), Some(240));
    assert_eq!(min_size::get(&sizes, "WhatsApp"), Some(970));
    assert_eq!(min_size::get(&sizes, "Terminal"), None);
    assert_eq!(sizes.stored().len(), 4);
}

#[test]
fn a_missing_file_knows_what_was_measured() {
    let sizes = min_size::load(None);
    assert_eq!(sizes.stored().len(), 3);
    assert_eq!(min_size::get(&sizes, "Música"), Some(980));
    assert_eq!(min_size::get_height(&sizes, "WhatsApp"), Some(600));
    let widths = min_width::load(None);
    assert_eq!(min_width::get(&widths, "Music"), Some(980));
    assert_eq!(min_width::get(&widths, "Xcode"), None);
}

#[test]
fn an_opt_out_is_never_undone() {
    let mut sizes = min_size::load(Some(stored(&[("Xcode", 0, 0)])));
    assert!(!min_size::record(&mut sizes, "Xcode", 900, 900));
    assert_eq!(min_size::get(&sizes, "Xcode"), None);
    let mut opted_out = NameMap::new();
    opted_out.insert("Xcode".to_string(), 0);
    let mut widths = min_width::load(Some(opted_out));
    assert!(!min_width::record(&mut widths, "Xcode", 900));
    assert_eq!(min_width::get(&widths, "Xcode"), None);
}

#[test]
fn a_first_refusal_is_remembered() {
    let mut sizes = min_size::load(None);
    assert!(min_size::record(&mut sizes, "Xcode", 500, 300));
    assert_eq!(min_size::get(&sizes, "Xcode"), Some(500));
    assert_eq!(min_size::get_height(&sizes, "Xcode"), Some(300));
}

#[test]
fn minimum_sizes_only_grow() {
    let mut sizes = min_size::load(Some(stored(&[("Xcode", 500, 300)])));
    assert!(!min_size::record(&mut sizes, "Xcode", 400, 200));
    assert_eq!(min_size::get(&sizes, "Xcode"), Some(500));
    assert!(min_size::record(&mut sizes, "Xcode", 600, 200));
    assert_eq!(min_size::get(&sizes, "Xcode"), Some(600));
    assert_eq!(min_size::get_height(&sizes, "Xcode"), Some(300));
}

#[test]
fn refusals_are_order_independent() {
    let mut one = min_size::load(None);
    min_size::record(&mut one, "Xcode", 600, 200);
    min_size::record(&mut one, "Xcode", 500, 300);
    let mut other = min_size::load(None);
    min_size::record(&mut other, "Xcode", 500, 300);
    min_size::record(&mut other, "Xcode", 600, 200);
    assert_eq!(min_size::get(&one, "Xcode"), min_size::get(&other, "Xcode"));
    assert_eq!(min_size::get_height(&one, "Xcode"), min_size::get_height(&other, "Xcode"));
    assert_eq!(min_size::get(&one, "Xcode"), Some(600));
    assert_eq!(min_size::get_height(&one, "Xcode"), Some(300));
}

#[test]
fn accepted_sizes_need_no_asking() {
    let mut accepted = AcceptedSizes::new();
    assert!(min_size::worth_verifying(&accepted, "Xcode", 800, 600));
    min_size::note_accepted(&mut accepted, "Xcode", 800, 600);
    assert!(!min_size::worth_verifying(&accepted, "Xcode", 800, 600));
    assert!(!min_size::worth_verifying(&accepted, "Xcode", 900, 700));
    assert!(min_size::worth_verifying(&accepted, "Xcode", 700, 700));
    min_size::forget_accepted(&mut accepted, "Xcode");
    assert!(min_size::worth_verifying(&accepted, "Xcode", 800, 600));
}

#[test]
fn minimum_widths_only_grow() {
    let mut widths = min_width::load(None);
    assert!(min_width::record(&mut widths, "Xcode", 500));
    assert!(!min_width::record(&mut widths, "Xcode", 400));
    assert_eq!(min_width::get(&widths, "Xcode"), Some(500));
    assert!(min_width::record(&mut widths, "Xcode", 700));
    assert_eq!(min_width::get(&widths, "Xcode"), Some(700));
    assert_eq!(widths.stored().len(), 4);
}

#[test]
fn a_name_has_one_value() {
    let mut names: NameMap<i32> = NameMap::new();
    assert!(names.is_empty());
    names.insert("a".to_string(), 1);
    names.insert("b".to_string(), 2);
    names.insert("a".to_string(), 3);
    assert_eq!(names.len(), 2);
    assert_eq!(names.get("a"), Some(&3));
    let mut more: NameMap<i32> = NameMap::new();
    more.insert("b".to_string(), 5);
    more.insert("c".to_string(), 6);
    names.extend(more);
    assert_eq!(names.get("b"), Some(&5));
    assert_eq!(names.get("c"), Some(&6));
    names.remove("a");
    assert!(!names.contains_key("a"));
    assert_eq!(names.len(), 2);
}

#[test]
fn an_unreported_dimension_can_still_be_learned() {
    let mut sizes = min_size::load(None);
    assert!(min_size::record(&mut sizes, "Mail", 0, 600));
    assert_eq!(min_size::get(&sizes, "Mail"), None);
    assert_eq!(min_size::get_height(&sizes, "Mail"), Some(600));
    assert!(min_size::record(&mut sizes, "Mail", 757, 0));
    assert_eq!(min_size::get(&sizes, "Mail"), Some(757));
    assert_eq!(min_size::get_height(&sizes, "Mail"), Some(600));
    assert!(!min_size::record(&mut sizes, "Calendar", 0, 0));
    assert_eq!(sizes.stored().len(), 4);
}

#[test]
fn what_is_not_known_yet_survives_being_stored() {
    let mut sizes = min_size::load(None);
    min_size::record(&mut sizes, "Mail", 0, 600);
    let kept = *sizes.stored().get("Mail").unwrap();
    assert_eq!(kept, MinSize { width: 0, height: 600 });
    assert_eq!(sizes.unreported("Mail"), Unreported { width: true, height: false });
    let mut unreported = NameMap::new();
    unreported.insert("Mail".to_string(), sizes.unreported("Mail"));
    let mut again = min_size::load_with(Some(stored(&[("Mail", 0, 600)])), unreported);
    assert_eq!(min_size::get(&again, "Mail"), None);
    assert!(min_size::record(&mut again, "Mail", 757, 0));
    assert_eq!(min_size::get(&again, "Mail"), Some(757));
    assert_eq!(again.unreported("Mail"), Unreported { width: false, height: false });
}

#[test]
fn every_stored_number_but_zero_is_handed_out() {
    let sizes = min_size::load(Some(stored(&[("Mail", -1, -7), ("Notes", 0, -1)])));
    assert_eq!(min_size::get(&sizes, "Mail"), Some(-1));
    assert_eq!(min_size::get_height(&sizes, "Mail"), Some(-7));
    assert_eq!(min_size::get(&sizes, "Notes"), None);
    assert_eq!(min_size::get_height(&sizes, "Notes"), Some(-1));
}

#[test]
fn a_stored_zero_is_an_opt_out_in_that_dimension_alone() {
    let mut sizes = min_size::load(Some(stored(&[("Mail", 0, 600)])));
    assert!(!min_size::record(&mut sizes, "Mail", 757, 0));
    assert_eq!(min_size::get(&sizes, "Mail"), None);
    assert!(min_size::record(&mut sizes, "Mail", 757, 700));
    assert_eq!(min_size::get_height(&sizes, "Mail"), Some(700));
    assert_eq!(min_size::get(&sizes, "Mail"), None);
}
