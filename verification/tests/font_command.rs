use cast_ui::font::{
    collect_entry, contents_url, license_dirs, usage, Command, FontToolError, GitHubContent,
    GitHubFile, GoogleFontOptions, IntErrorKind,
};

fn args(items: &[&str]) -> Vec<String> {
    items.iter().map(|s| s.to_string()).collect()
}

#[test]
fn options_read_family_out_weights_and_italics() {
    let options = GoogleFontOptions::parse(&args(&[
        "Inter",
        "--out",
        "assets/fonts",
        "--weights",
        "400,700",
        "--include-italics",
    ]))
    .unwrap();
    assert_eq!(options.family, "Inter");
    assert_eq!(options.out, "assets/fonts");
    assert_eq!(options.weights, vec![400, 700]);
    assert!(options.include_italics);

    let named = GoogleFontOptions::parse(&args(&["--family", "Source Sans 3", "--out", "x"])).unwrap();
    assert_eq!(named.family, "Source Sans 3");
    assert!(named.weights.is_empty());
    assert!(!named.include_italics);
}

#[test]
fn options_refuse_what_the_usage_line_does_not_allow() {
    assert!(matches!(
        GoogleFontOptions::parse(&args(&["Inter"])),
        Err(FontToolError::Usage)
    ));
    assert!(matches!(
        GoogleFontOptions::parse(&args(&["Inter", "--out", "x", "--bogus"])),
        Err(FontToolError::Usage)
    ));
    assert!(matches!(
        GoogleFontOptions::parse(&args(&["Inter", "Other", "--out", "x"])),
        Err(FontToolError::Usage)
    ));
    assert!(matches!(
        GoogleFontOptions::parse(&args(&["Inter", "--out", "x", "--weights"])),
        Err(FontToolError::Usage)
    ));
    match GoogleFontOptions::parse(&args(&["Inter", "--out", "x", "--weights", "400,heavy"])) {
        Err(FontToolError::Weight(e)) => {
            assert_eq!(e.field, "heavy");
            assert_eq!(e.kind, IntErrorKind::InvalidDigit);
        }
        other => panic!("unexpected {other:?}"),
    }
}

#[test]
fn command_needs_the_google_font_verb() {
    assert!(matches!(Command::parse(args(&[])), Err(FontToolError::Usage)));
    assert!(matches!(
        Command::parse(args(&["install", "Inter", "--out", "x"])),
        Err(FontToolError::Usage)
    ));
    match Command::parse(args(&["google-font", "Inter", "--out", "x"])) {
        Ok(Command::GoogleFont(o)) => assert_eq!(o.family, "Inter"),
        other => panic!("unexpected {other:?}"),
    }
    assert!(usage().starts_with("Usage: cargo run -p cast-font-tool -- google-font"));
}

#[test]
fn directory_entries_are_sorted_into_fonts_and_license() {
    let mut files = Vec::new();
    let mut license = None;
    let entry = |name: &str, kind: &str, url: Option<&str>| GitHubContent {
        name: name.to_owned(),
        kind: kind.to_owned(),
        url: format!("https://api.test/{name}"),
        download_url: url.map(str::to_owned),
    };
    assert_eq!(
        collect_entry(entry("static", "dir", None), &mut files, &mut license),
        Some("https://api.test/static".to_owned())
    );
    assert_eq!(collect_entry(entry("A.ttf", "file", Some("u1")), &mut files, &mut license), None);
    collect_entry(entry("B.ttf", "file", None), &mut files, &mut license);
    collect_entry(entry("OFL.txt", "file", Some("u2")), &mut files, &mut license);
    collect_entry(entry("README.md", "file", Some("u3")), &mut files, &mut license);
    assert_eq!(files.len(), 1);
    assert_eq!(files[0].name, "A.ttf");
    let GitHubFile { name, download_url } = license.unwrap();
    assert_eq!((name.as_str(), download_url.as_str()), ("OFL.txt", "u2"));
}

#[test]
fn contents_urls_follow_the_github_api() {
    assert_eq!(license_dirs(), vec!["ofl", "apache", "ufl"]);
    assert_eq!(
        contents_url("ofl", "inter"),
        "https://api.github.com/repos/google/fonts/contents/ofl/inter?ref=main"
    );
}
