use metaagent::theme::{Rgb, Theme, ThemeError};

#[test]
fn parses_theme_from_toml() {
    let input = r#"
[colors]
left_top_bg = { r = 1, g = 2, b = 3 }
chat_bg = { r = 4, g = 5, b = 6 }
right_bg = { r = 7, g = 8, b = 9 }
input_bg = { r = 10, g = 11, b = 12 }
status_bg = { r = 13, g = 14, b = 15 }
text_fg = { r = 16, g = 17, b = 18 }
muted_fg = { r = 19, g = 20, b = 21 }
active_fg = { r = 22, g = 23, b = 24 }
"#;

    let theme = Theme::from_toml_str(input).expect("theme should parse");
    assert_eq!(theme.left_top_bg, Rgb { r: 1, g: 2, b: 3 });
    assert_eq!(theme.chat_bg, Rgb { r: 4, g: 5, b: 6 });
    assert_eq!(theme.right_bg, Rgb { r: 7, g: 8, b: 9 });
    assert_eq!(theme.input_bg, Rgb { r: 10, g: 11, b: 12 });
    assert_eq!(theme.status_bg, Rgb { r: 13, g: 14, b: 15 });
    assert_eq!(theme.text_fg, Rgb { r: 16, g: 17, b: 18 });
    assert_eq!(theme.muted_fg, Rgb { r: 19, g: 20, b: 21 });
    assert_eq!(theme.active_fg, Rgb { r: 22, g: 23, b: 24 });
}

#[test]
fn uses_default_on_missing_file() {
    let theme = Theme::load_or_default(None);
    assert_eq!(theme.left_top_bg, Theme::default().left_top_bg);
}

#[test]
fn load_or_default_round_trips_valid_theme_file() {
    let input = r#"
[colors]
left_top_bg = { r = 11, g = 12, b = 13 }
chat_bg = { r = 14, g = 15, b = 16 }
right_bg = { r = 17, g = 18, b = 19 }
input_bg = { r = 20, g = 21, b = 22 }
status_bg = { r = 23, g = 24, b = 25 }
text_fg = { r = 26, g = 27, b = 28 }
muted_fg = { r = 29, g = 30, b = 31 }
active_fg = { r = 32, g = 33, b = 34 }
"#;
    let theme = Theme::load_or_default(Some(input));
    assert_eq!(theme.left_top_bg, Rgb { r: 11, g: 12, b: 13 });
    assert_eq!(theme.active_fg, Rgb { r: 32, g: 33, b: 34 });
}

#[test]
fn load_or_default_falls_back_for_malformed_theme_file() {
    let theme = Theme::load_or_default(Some("[colors]\nleft_top_bg = { r = \"nope\" }\n"));
    assert_eq!(theme.chat_bg, Theme::default().chat_bg);
    assert_eq!(theme, Theme::default());
}

#[test]
fn default_theme_is_grey_with_white_for_the_active() {
    let theme = Theme::default();
    assert_eq!(theme.left_top_bg, Rgb { r: 44, g: 44, b: 44 });
    assert_eq!(theme.chat_bg, Rgb { r: 54, g: 54, b: 54 });
    assert_eq!(theme.right_bg, Rgb { r: 48, g: 48, b: 48 });
    assert_eq!(theme.input_bg, Rgb { r: 62, g: 62, b: 62 });
    assert_eq!(theme.status_bg, Rgb { r: 36, g: 36, b: 36 });
    assert_eq!(theme.text_fg, Rgb { r: 225, g: 225, b: 225 });
    assert_eq!(theme.muted_fg, Rgb { r: 185, g: 185, b: 185 });
    assert_eq!(theme.active_fg, Rgb { r: 255, g: 255, b: 255 });
}

fn theme_text(left_top_bg: &str) -> String {
    format!(
        "[colors]\nleft_top_bg = {left_top_bg}\nchat_bg = {{ r = 4, g = 5, b = 6 }}\n\
         right_bg = {{ r = 7, g = 8, b = 9 }}\ninput_bg = {{ r = 10, g = 11, b = 12 }}\n\
         status_bg = {{ r = 13, g = 14, b = 15 }}\ntext_fg = {{ r = 16, g = 17, b = 18 }}\n\
         muted_fg = {{ r = 19, g = 20, b = 21 }}\nactive_fg = {{ r = 22, g = 23, b = 24 }}\n"
    )
}

#[test]
fn colour_parts_have_to_be_integers_from_0_to_255() {
    let ok = Theme::from_toml_str(&theme_text("{ r = 0, g = 255, b = 7, extra = \"x\" }"))
        .expect("bounds are allowed");
    assert_eq!(ok.left_top_bg, Rgb { r: 0, g: 255, b: 7 });
    for bad in [
        "{ r = 256, g = 0, b = 0 }",
        "{ r = -1, g = 0, b = 0 }",
        "{ r = 1.0, g = 0, b = 0 }",
        "{ r = 1, g = 0 }",
        "\"red\"",
    ] {
        let err = Theme::from_toml_str(&theme_text(bad)).expect_err("should be refused");
        assert!(matches!(err, ThemeError::Shape), "for {bad}");
    }
}

#[test]
fn theme_text_errors_tell_syntax_from_shape() {
    assert!(matches!(Theme::from_toml_str("[colors"), Err(ThemeError::Syntax(_))));
    assert!(matches!(Theme::from_toml_str(""), Err(ThemeError::Shape)));
    assert!(matches!(Theme::from_toml_str("colors = 1"), Err(ThemeError::Shape)));
    assert!(matches!(
        Theme::from_toml_str("[colors]\nleft_top_bg = { r = 1, g = 2, b = 3 }\n"),
        Err(ThemeError::Shape)
    ));
}

#[test]
fn a_theme_that_was_read_is_used_and_a_failure_gives_the_default() {
    let read = Theme::from_toml_str("[colors");
    assert!(read.is_err());
    assert_eq!(Theme::or_default(read), Theme::default());
    let mut theme = Theme::default();
    theme.chat_bg.r = theme.chat_bg.r.wrapping_add(1);
    assert_eq!(Theme::or_default(Ok(theme.clone())), theme);
}
