use ebina::choice::{ChoiceSet, ConfigError, PresentationConfig, RgbColour};
use ebina::options::Options;
use ebina::presenter::render_choice_body;

fn choices_of(labels: &[&str]) -> ChoiceSet {
    let labels: Vec<String> = labels.iter().map(|s| s.to_string()).collect();
    ChoiceSet::new(labels).unwrap()
}

#[test]
fn body_numbers_options_and_appends_cancel() {
    assert_eq!(render_choice_body(&choices_of(&["Naruto"])), "1. Naruto\nCancel");
    assert_eq!(
        render_choice_body(&choices_of(&["Naruto", "One Piece"])),
        "1. Naruto\n2. One Piece\nCancel"
    );
}

#[test]
fn body_numbers_run_past_nine() {
    let labels: Vec<String> = (0..12).map(|i| format!("option{}", i)).collect();
    let body = render_choice_body(&ChoiceSet::new(labels).unwrap());
    let lines: Vec<&str> = body.split('\n').collect();
    assert_eq!(lines.len(), 13);
    assert_eq!(lines[9], "10. option9");
    assert_eq!(lines[11], "12. option11");
    assert_eq!(lines[12], "Cancel");
}

#[test]
fn empty_option_lists_are_rejected() {
    assert_eq!(ChoiceSet::new(Vec::new()).err(), Some(ConfigError::NoOptions));
    let labels = vec!["ok".to_string(), String::new()];
    assert_eq!(ChoiceSet::new(labels).err(), Some(ConfigError::EmptyOption));
}

#[test]
fn titles_are_validated_against_the_platform_limit() {
    assert_eq!(
        PresentationConfig::new(String::new(), None, None, false).err(),
        Some(ConfigError::EmptyTitle)
    );
    let at_limit = "a".repeat(256);
    assert!(PresentationConfig::new(at_limit, None, None, false).is_ok());
    let over_limit = "a".repeat(257);
    assert_eq!(
        PresentationConfig::new(over_limit, None, None, false).err(),
        Some(ConfigError::TitleTooLong)
    );
}

#[test]
fn builder_collects_settings_and_validates_on_build() {
    let (choices, config) = Options::new()
        .title("Enter the number corresponding the Manga you want info about!".to_string())
        .option("option1".to_string())
        .option("option2".to_string())
        .colour(RgbColour { red: 255, green: 0, blue: 0 })
        .edit()
        .build()
        .unwrap();
    assert_eq!(choices.len(), 2);
    assert_eq!(
        config.title_text(),
        "Enter the number corresponding the Manga you want info about!"
    );
    assert_eq!(config.colour_value(), Some(RgbColour { red: 255, green: 0, blue: 0 }));
    assert!(config.edits_after_choice());
}

#[test]
fn builder_rejects_missing_title_and_options() {
    assert_eq!(
        Options::new().options(vec!["a".to_string()]).build().err(),
        Some(ConfigError::EmptyTitle)
    );
    assert_eq!(
        Options::new().title("Pick!".to_string()).build().err(),
        Some(ConfigError::NoOptions)
    );
}
