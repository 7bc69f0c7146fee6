use db2_exporter::build_selection::{handle_build_selection, parse_build, parse_u32};
use db2_exporter::entities::Build;
use db2_exporter::locale::{
    available_locales, default_locale_selection, handle_locale_selection, is_default_locale,
};

fn names(list: &[&str]) -> Vec<String> {
    list.iter().map(|name| name.to_string()).collect()
}

#[test]
fn catalog_of_locales() {
    assert_eq!(
        available_locales(),
        names(&[
            "enUS", "deDE", "esES", "esMX", "frFR", "itIT", "koKR", "ptBR", "ruRU", "zhCN", "zhTW"
        ])
    );
}

#[test]
fn three_locales_are_selected_by_default() {
    assert_eq!(
        default_locale_selection(&available_locales()),
        vec![true, false, true, false, true, false, false, false, false, false, false]
    );
    assert!(is_default_locale("frFR"));
    assert!(is_default_locale("esES"));
    assert!(is_default_locale("enUS"));
    assert!(!is_default_locale("enus"));
    assert!(!is_default_locale("frFR "));
    assert!(!is_default_locale(""));
    assert!(default_locale_selection(&Vec::new()).is_empty());
}

#[test]
fn chosen_positions_become_locales() {
    let available = available_locales();
    assert_eq!(handle_locale_selection(&available, &vec![8, 0, 8]), names(&["ruRU", "enUS", "ruRU"]));
    assert!(handle_locale_selection(&available, &Vec::new()).is_empty());
}

#[test]
fn numbers_as_the_catalog_writes_them() {
    assert_eq!(parse_u32("57212"), Some(57212));
    assert_eq!(parse_u32("0"), Some(0));
    assert_eq!(parse_u32("007"), Some(7));
    assert_eq!(parse_u32("+12"), Some(12));
    assert_eq!(parse_u32("4294967295"), Some(u32::MAX));
    assert_eq!(parse_u32("4294967296"), None);
    assert_eq!(parse_u32("00000000000000000000004294967295"), Some(u32::MAX));
    assert_eq!(parse_u32("99999999999999999999999999"), None);
    assert_eq!(parse_u32(""), None);
    assert_eq!(parse_u32("+"), None);
    assert_eq!(parse_u32("-1"), None);
    assert_eq!(parse_u32("++1"), None);
    assert_eq!(parse_u32("12a"), None);
    assert_eq!(parse_u32(" 12"), None);
    assert_eq!(parse_u32("1_000"), None);
    assert_eq!(parse_u32("٣"), None);
    for text in ["57212", "007", "+12", "4294967296", "", "+", "-1", "12a", "٣"] {
        assert_eq!(parse_u32(text), text.parse::<u32>().ok());
    }
}

#[test]
fn builds_as_the_catalog_writes_them() {
    assert_eq!(parse_build("11.0.5.57212"), Some(Build::new("11.0.5", 57212)));
    assert_eq!(parse_build("11.0.5.57212").unwrap().format_full_version(), "11.0.5.57212");
    assert_eq!(parse_build("1.2.3.4.5"), Some(Build::new("1.2.3", 4)));
    assert_eq!(parse_build("1.2.3.x"), Some(Build::new("1.2.3", 0)));
    assert_eq!(parse_build("1.2.3."), Some(Build::new("1.2.3", 0)));
    assert_eq!(parse_build("...9"), Some(Build::new("..", 9)));
    assert_eq!(parse_build("a.b.c.4294967296"), Some(Build::new("a.b.c", 0)));
    assert_eq!(parse_build("1.2.3"), None);
    assert_eq!(parse_build("1.2"), None);
    assert_eq!(parse_build(""), None);
    assert_eq!(parse_build("11057212"), None);
}

#[test]
fn chosen_positions_become_builds() {
    let available = names(&["11.0.5.57212", "11.0.7.58000", "10.2.7.54000"]);
    assert_eq!(
        handle_build_selection(&available, &vec![2, 0]),
        vec![Build::new("10.2.7", 54000), Build::new("11.0.5", 57212)]
    );
    assert!(handle_build_selection(&available, &Vec::new()).is_empty());
}
