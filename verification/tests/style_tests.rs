//! Tests of style resolution, painting and describing.

use ls_colorize::ansi::paint_text;
use ls_colorize::describe::ansi_style_to_record;
use ls_colorize::resolver::{fallback_target, get_style};
use ls_colorize::rules::ruleset_from_env_string;
use nu_ansi_term::{Color, Style};

fn ruleset(text: &str) -> lscolors::LsColors {
    ruleset_from_env_string(Some(text.to_string()))
}

#[test]
fn test_get_style_with_different_file_types() {
    let ls_colors = ruleset("*.txt=31:*.sh=32:*.py=33:di=34:ex=35");
    let cwd = "/";

    // Test different file extensions
    let txt_style = get_style("test.txt", cwd, &ls_colors);
    let sh_style = get_style("script.sh", cwd, &ls_colors);
    let py_style = get_style("program.py", cwd, &ls_colors);

    // Ensure styles are applied (not empty/default)
    assert!(!paint_text(txt_style, "test.txt").is_empty());
    assert!(!paint_text(sh_style, "script.sh").is_empty());
    assert!(!paint_text(py_style, "program.py").is_empty());

    // Test relative paths
    let relative_style = get_style("./test.txt", cwd, &ls_colors);
    assert!(!paint_text(relative_style, "./test.txt").is_empty());
}

#[test]
fn test_get_style_with_directories() {
    let ls_colors = ruleset("di=34:*.txt=31");
    let cwd = "/";

    // Test directory-like names (since we can't create actual directories in unit tests)
    let dir_style = get_style("some_directory", cwd, &ls_colors);
    assert!(!paint_text(dir_style, "some_directory").is_empty());
}

#[test]
fn test_plugin_basic_functionality() {
    let ls_colors = ruleset("*.txt=31:*.sh=32:di=34");
    let cwd = "/";

    // Test that styles are properly applied to different file types
    let txt_style = get_style("document.txt", cwd, &ls_colors);
    let sh_style = get_style("script.sh", cwd, &ls_colors);
    let generic_style = get_style("readme", cwd, &ls_colors);

    // Verify that painted strings are not empty (meaning styling was applied)
    let painted_txt = paint_text(txt_style, "document.txt");
    let painted_sh = paint_text(sh_style, "script.sh");
    let painted_generic = paint_text(generic_style, "readme");

    assert!(!painted_txt.is_empty());
    assert!(!painted_sh.is_empty());
    assert!(!painted_generic.is_empty());

    // The painted strings should contain the original text
    assert!(painted_txt.contains("document.txt"));
    assert!(painted_sh.contains("script.sh"));
    assert!(painted_generic.contains("readme"));
}

#[test]
fn test_color_utils_ansi_style_to_record() {
    // Test bold red on blue
    let style = Style::new().bold().fg(Color::Red).on(Color::Blue);
    let record = ansi_style_to_record(style);

    assert!(record.fg.is_some());
    assert!(record.bg.is_some());
    assert!(record.attr.is_some());

    // Test default style
    let default_style = Style::default();
    let default_record = ansi_style_to_record(default_style);

    // Default style should still create a valid record, with every field empty
    assert!(default_record.fg.is_none());
    assert!(default_record.bg.is_none());
    assert!(default_record.attr.is_none());
}

#[test]
fn bold_red_on_blue_record_values() {
    let style = Style::new().bold().fg(Color::Red).on(Color::Blue);
    let record = ansi_style_to_record(style);

    assert_eq!(record.fg.as_deref(), Some("red"));
    assert_eq!(record.bg.as_deref(), Some("blue"));
    assert_eq!(record.attr.as_deref(), Some("b"));
}

#[test]
fn palette_and_rgb_color_names() {
    let fixed = Style::new().fg(Color::Fixed(81)).on(Color::Fixed(0));
    let record = ansi_style_to_record(fixed);
    assert_eq!(record.fg.as_deref(), Some("fixed_81"));
    assert_eq!(record.bg.as_deref(), Some("fixed_0"));

    let rgb = Style::new().fg(Color::Rgb(255, 0, 100)).on(Color::Default);
    let record = ansi_style_to_record(rgb);
    assert_eq!(record.fg.as_deref(), Some("#ff0064"));
    assert_eq!(record.bg.as_deref(), Some("default"));
    assert!(record.attr.is_none());
}

#[test]
fn all_attributes_in_order() {
    let style = Style::new()
        .bold()
        .dimmed()
        .italic()
        .underline()
        .blink()
        .reverse()
        .hidden()
        .strikethrough();
    let record = ansi_style_to_record(style);
    assert_eq!(record.attr.as_deref(), Some("bdiulrhs"));
    assert!(record.fg.is_none());
    assert!(record.bg.is_none());
}

#[test]
fn describing_default_style_twice_is_identical() {
    let first = ansi_style_to_record(Style::default());
    let second = ansi_style_to_record(Style::default());
    assert_eq!(first, second);

    let styled = Style::new().bold().fg(Color::Green);
    assert_eq!(ansi_style_to_record(styled), ansi_style_to_record(styled));
}

#[test]
fn matched_suffix_paints_exact_escape_codes() {
    let ls_colors = ruleset("*.txt=31:*.sh=32:di=34");
    let cwd = "/";

    let txt_style = get_style("test.txt", cwd, &ls_colors);
    assert_eq!(
        paint_text(txt_style, "test.txt"),
        "\u{1b}[31mtest.txt\u{1b}[0m"
    );

    let sh_style = get_style("script.sh", cwd, &ls_colors);
    assert_eq!(
        paint_text(sh_style, "script.sh"),
        "\u{1b}[32mscript.sh\u{1b}[0m"
    );
}

#[test]
fn unmatched_unresolvable_path_gets_plain_style() {
    let ls_colors = ruleset("*.txt=31:*.sh=32:di=34");
    let cwd = "/";
    let path = "no_such_entry_on_any_disk_qzx";

    let style = get_style(path, cwd, &ls_colors);
    // Painting with the default style yields the path unchanged.
    assert_eq!(paint_text(style, path), path);
    // Describing it yields a record with every field empty.
    let record = ansi_style_to_record(style);
    assert!(record.fg.is_none());
    assert!(record.bg.is_none());
    assert!(record.attr.is_none());
}

#[test]
fn default_ruleset_styles_the_root_directory() {
    // With no LS_COLORS text the built-in default ruleset applies; its
    // directory rule styles `/`, whose metadata is always available.
    let ls_colors = ruleset_from_env_string(None);
    let style = get_style("/", "/", &ls_colors);
    let record = ansi_style_to_record(style);
    assert_eq!(record.fg.as_deref(), Some("fixed_81"));
}

#[test]
fn fallback_target_joins_relative_names_to_cwd() {
    assert_eq!(fallback_target("test.txt", "/tmp"), "/tmp/test.txt");
    assert_eq!(fallback_target("a/b.txt", "/var"), "/var/a/b.txt");
}
