use keepmeawake::config::{is_development, locale_directory, APP_ID};

#[test]
fn release_app_id_is_not_development() {
    assert_eq!(APP_ID, "de.swsnr.keepmeawake");
    assert!(!is_development());
}

#[test]
fn locale_directory_per_sandbox() {
    assert_eq!(locale_directory(true), "/app/share/locale");
    assert_eq!(locale_directory(false), "/usr/share/locale");
}
