use cast_ui::font::{
    font_weight, google_fonts_slug, is_italic, is_license_file, is_weight_variable, parse_weights,
    select_fonts, GitHubFile,
};

fn github_file(name: &str) -> GitHubFile {
    GitHubFile {
        name: name.to_owned(),
        download_url: format!("https://example.test/{name}"),
    }
}

#[test]
fn google_fonts_slug_removes_separators() {
    assert_eq!(google_fonts_slug("JetBrains Mono"), "jetbrainsmono");
    assert_eq!(google_fonts_slug("Source Sans 3"), "sourcesans3");
}

#[test]
fn parse_weights_splits_comma_list() {
    assert_eq!(parse_weights("400, 500,600").unwrap(), vec![400, 500, 600]);
}

#[test]
fn font_weight_detects_weight_names_in_order() {
    assert_eq!(font_weight("Inter-SemiBold.ttf"), Some(600));
    assert_eq!(font_weight("Inter-ExtraBold.ttf"), Some(800));
    assert_eq!(font_weight("Inter-Bold.ttf"), Some(700));
}

#[test]
fn select_fonts_filters_weights_and_italics() {
    let files = vec![
        github_file("Family-Regular.ttf"),
        github_file("Family-Medium.ttf"),
        github_file("Family-SemiBold.ttf"),
        github_file("Family-Italic.ttf"),
    ];

    let selected = select_fonts(&files, &[400, 600], false)
        .into_iter()
        .map(|file| file.name.as_str())
        .collect::<Vec<_>>();

    assert_eq!(selected, vec!["Family-Regular.ttf", "Family-SemiBold.ttf"]);
}

#[test]
fn select_fonts_falls_back_to_variable_weight_file() {
    let files = vec![github_file("Family[wght].ttf")];

    let selected = select_fonts(&files, &[400, 700], false)
        .into_iter()
        .map(|file| file.name.as_str())
        .collect::<Vec<_>>();

    assert_eq!(selected, vec!["Family[wght].ttf"]);
}

#[test]
fn parse_weights_reports_the_bad_field() {
    let err = parse_weights("400,bold").unwrap_err();
    assert_eq!(err.field, "bold");
    assert!(parse_weights("").is_err());
    assert!(parse_weights("70000").is_err());
    assert_eq!(parse_weights(" 100 ").unwrap(), vec![100]);
}

#[test]
fn font_weight_defaults_and_names() {
    assert_eq!(font_weight("Inter-Regular.ttf"), Some(400));
    assert_eq!(font_weight("Inter-Thin.ttf"), Some(100));
    assert_eq!(font_weight("Inter-ExtraLight.ttf"), Some(200));
    assert_eq!(font_weight("Inter-Light.ttf"), Some(300));
    assert_eq!(font_weight("Inter-Medium.ttf"), Some(500));
    assert_eq!(font_weight("Inter-Black.ttf"), Some(900));
}

#[test]
fn file_name_predicates() {
    assert!(is_italic("Family-BoldItalic.ttf"));
    assert!(!is_italic("Family-Bold.ttf"));
    assert!(is_weight_variable("Family[wght].ttf"));
    assert!(!is_weight_variable("Family-Bold.ttf"));
    assert!(is_license_file("OFL.txt"));
    assert!(!is_license_file("Family.ttf"));
}

#[test]
fn select_fonts_keeps_italics_when_asked_and_all_weights_when_none() {
    let files = vec![
        github_file("Family-Regular.ttf"),
        github_file("Family-Italic.ttf"),
        github_file("Family-Bold.ttf"),
    ];
    let selected = select_fonts(&files, &[], true)
        .into_iter()
        .map(|file| file.name.as_str())
        .collect::<Vec<_>>();
    assert_eq!(
        selected,
        vec!["Family-Regular.ttf", "Family-Bold.ttf", "Family-Italic.ttf"]
    );
}
