use sweetalert::SwalIcon;
use sweetalert::SwalIconLike;
use sweetalert::SwalOptions;
use sweetalert::SwalViewDescriptor;

#[test]
fn test_default_swal() {
    let opts = SwalOptions::<SwalIcon>::default();
    assert_eq!(opts.title, "");
    assert_eq!(opts.text, "");
    assert_eq!(opts.icon, SwalIcon::NONE);
    assert_eq!(opts.show_confirm_button, true);
}

#[test]
fn test_basic() {
    let opts = SwalOptions::<SwalIcon>::basic(String::from("Hello"));
    assert_eq!(opts.title, "Hello");
    assert_eq!(opts.text, "");
}

#[test]
fn test_basic_icon() {
    let opts = SwalOptions::basic_icon(String::from("Hello"), SwalIcon::ERROR);
    assert_eq!(opts.icon, SwalIcon::ERROR);
}

#[test]
fn test_common() {
    let opts = SwalOptions::common(String::from("Hello"), String::from("World"), SwalIcon::ERROR);
    assert_eq!(opts.title, "Hello");
    assert_eq!(opts.text, "World");
    assert_eq!(opts.icon, SwalIcon::ERROR);
}

#[test]
fn test_has_icon() {
    let opts = SwalOptions::basic_icon(String::from("Hello"), SwalIcon::SUCCESS);
    assert!(opts.icon.is_defined());
    let opts = SwalOptions::basic_icon(String::from("Hello"), SwalIcon::NONE);
    assert!(!opts.icon.is_defined());
}

#[test]
fn test_has_text() {
    let opts = SwalOptions::common(String::from("Hello"), String::from("Some text"), SwalIcon::INFO);
    assert!(opts.has_text());
    let opts = SwalOptions::<SwalIcon>::basic(String::from("Hello"));
    assert!(!opts.has_text());
}

#[test]
fn test_has_title() {
    let opts = SwalOptions::<SwalIcon>::basic(String::from("Hello"));
    assert!(opts.has_title());
    let opts = SwalOptions::<SwalIcon> {
        title: String::from(""),
        text: String::from("Hello"),
        ..SwalOptions::default()
    };
    assert!(!opts.has_title());
}

#[test]
fn test_has_button_texts() {
    let opts = SwalOptions::<SwalIcon>::default();
    assert!(!opts.has_confirm_button_text());
    assert!(!opts.has_deny_button_text());
    assert!(!opts.has_cancel_button_text());
    let opts = SwalOptions::<SwalIcon> {
        confirm_button_text: String::from("Go"),
        deny_button_text: String::from("No"),
        cancel_button_text: String::from("Back"),
        ..SwalOptions::default()
    };
    assert!(opts.has_confirm_button_text());
    assert!(opts.has_deny_button_text());
    assert!(opts.has_cancel_button_text());
}

#[test]
fn test_descriptor_label_fallbacks() {
    let opts = SwalOptions::<SwalIcon> {
        show_deny_button: true,
        show_cancel_button: true,
        ..SwalOptions::default()
    };
    assert!(!opts.has_confirm_button_text());
    let d = SwalViewDescriptor::from_options(&opts);
    assert_eq!(d.confirm_label, Some(String::from("Ok")));
    assert_eq!(d.deny_label, Some(String::from("Deny")));
    assert_eq!(d.cancel_label, Some(String::from("Cancel")));
}

#[test]
fn test_descriptor_keeps_given_labels() {
    let opts = SwalOptions::<SwalIcon> {
        confirm_button_text: String::from("LETS GO"),
        deny_button_text: String::from("Don't click that"),
        show_deny_button: true,
        ..SwalOptions::default()
    };
    let d = SwalViewDescriptor::from_options(&opts);
    assert_eq!(d.confirm_label, Some(String::from("LETS GO")));
    assert_eq!(d.deny_label, Some(String::from("Don't click that")));
    assert_eq!(d.cancel_label, None);
}

#[test]
fn test_descriptor_blocks() {
    let opts = SwalOptions::common(
        String::from("This is a title"),
        String::from("This is some text"),
        SwalIcon::SUCCESS,
    );
    let d = SwalViewDescriptor::from_options(&opts);
    assert_eq!(d.title, "This is a title");
    assert_eq!(d.text, Some(String::from("This is some text")));
    assert_eq!(d.icon, Some(sweetalert::IconFragment::Success));
    assert!(d.animation);

    let bare = SwalOptions::<SwalIcon>::basic(String::from("Hi"));
    let d = SwalViewDescriptor::from_options(&bare);
    assert_eq!(d.text, None);
    assert_eq!(d.icon, None);
    assert_eq!(d.deny_label, None);
    assert_eq!(d.cancel_label, None);
}
