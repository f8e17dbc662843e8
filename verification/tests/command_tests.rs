//! Tests of the command: input shapes, ordering, the shape error, and the
//! capability declaration.

use ls_colorize::command::{
    shape_error_title, CallInput, IoShape, LsColorize, LsColorizePlugin, PathItem, Rendered,
    RunOutput, ShapeError, TypeShape,
};
use ls_colorize::rules::ruleset_from_env_string;

fn ruleset(text: &str) -> lscolors::LsColors {
    ruleset_from_env_string(Some(text.to_string()))
}

#[test]
fn test_type_error_macro() {
    let error = ShapeError {
        got: "int".to_string(),
    };

    assert_eq!(shape_error_title(), "Expected String or List of Strings");
    assert!(error
        .label_message()
        .contains("requires string or list of strings; got int"));
}

#[test]
fn run_rejects_non_string_input() {
    let ls_colors = ruleset("*.txt=31");
    let input = CallInput::Other("int".to_string());
    let result = LsColorize.run(&input, "/", &ls_colors, false);

    let error = result.unwrap_err();
    assert_eq!(error.got, "int");
    assert_eq!(
        error.label_message(),
        "requires string or list of strings; got int"
    );
}

#[test]
fn run_rejects_list_with_first_non_string_element() {
    let ls_colors = ruleset("*.txt=31");
    let input = CallInput::Many(vec![
        PathItem::Text("a.txt".to_string()),
        PathItem::NotText("bool".to_string()),
        PathItem::NotText("int".to_string()),
    ]);
    let result = LsColorize.run(&input, "/", &ls_colors, false);

    let error = result.unwrap_err();
    assert_eq!(error.got, "bool");
}

#[test]
fn run_single_string_paints_it() {
    let ls_colors = ruleset("*.txt=31:*.sh=32:di=34");
    let input = CallInput::One("test.txt".to_string());
    let result = LsColorize.run(&input, "/", &ls_colors, false).unwrap();

    assert_eq!(
        result,
        RunOutput::Single(Rendered::Painted("\u{1b}[31mtest.txt\u{1b}[0m".to_string()))
    );
}

#[test]
fn run_single_string_describes_it() {
    let ls_colors = ruleset("*.txt=31:*.sh=32:di=34");
    let input = CallInput::One("test.txt".to_string());
    let result = LsColorize.run(&input, "/", &ls_colors, true).unwrap();

    match result {
        RunOutput::Single(Rendered::Described(record)) => {
            assert_eq!(record.fg.as_deref(), Some("red"));
            assert!(record.bg.is_none());
            assert!(record.attr.is_none());
        }
        other => panic!("expected a single described output, got {:?}", other),
    }
}

#[test]
fn run_preserves_list_order() {
    let ls_colors = ruleset("*.txt=31:*.sh=32:di=34");
    let input = CallInput::Many(vec![
        PathItem::Text("a.txt".to_string()),
        PathItem::Text("b.sh".to_string()),
        PathItem::Text("c".to_string()),
    ]);
    let result = LsColorize.run(&input, "/", &ls_colors, false).unwrap();

    match result {
        RunOutput::List(outs) => {
            assert_eq!(outs.len(), 3);
            assert_eq!(
                outs[0],
                Rendered::Painted("\u{1b}[31ma.txt\u{1b}[0m".to_string())
            );
            assert_eq!(
                outs[1],
                Rendered::Painted("\u{1b}[32mb.sh\u{1b}[0m".to_string())
            );
            // `c` matches no rule and no filesystem entry: painted unchanged.
            assert_eq!(outs[2], Rendered::Painted("c".to_string()));
        }
        other => panic!("expected a list output, got {:?}", other),
    }
}

#[test]
fn run_describes_lists_in_order() {
    let ls_colors = ruleset("*.txt=31:*.sh=32");
    let input = CallInput::Many(vec![
        PathItem::Text("a.txt".to_string()),
        PathItem::Text("b.sh".to_string()),
    ]);
    let result = LsColorize.run(&input, "/", &ls_colors, true).unwrap();

    match result {
        RunOutput::List(outs) => {
            assert_eq!(outs.len(), 2);
            match (&outs[0], &outs[1]) {
                (Rendered::Described(first), Rendered::Described(second)) => {
                    assert_eq!(first.fg.as_deref(), Some("red"));
                    assert_eq!(second.fg.as_deref(), Some("green"));
                }
                other => panic!("expected described outputs, got {:?}", other),
            }
        }
        other => panic!("expected a list output, got {:?}", other),
    }
}

#[test]
fn plugin_declares_the_one_command() {
    assert_eq!(LsColorizePlugin.version(), "0.1.0");
    assert_eq!(LsColorizePlugin.commands().len(), 1);
    assert_eq!(LsColorize.name(), "ls-colorize");
    assert_eq!(
        LsColorize.description(),
        "Color a path based on LS_COLORS environment variable"
    );
}

#[test]
fn signature_declares_shapes_and_switch() {
    let signature = LsColorize.signature();
    assert_eq!(signature.name, "ls-colorize");
    assert_eq!(signature.category, "path");
    assert_eq!(signature.switch_name, "get-color");
    assert_eq!(
        signature.switch_desc,
        "Return the color instead of the colored string"
    );
    assert_eq!(signature.switch_short, 'c');
    assert_eq!(
        signature.io_shapes,
        vec![
            IoShape {
                input: TypeShape::Text,
                output: TypeShape::Text
            },
            IoShape {
                input: TypeShape::TextList,
                output: TypeShape::TextList
            },
            IoShape {
                input: TypeShape::Text,
                output: TypeShape::Record
            },
            IoShape {
                input: TypeShape::TextList,
                output: TypeShape::RecordList
            },
        ]
    );
}

#[test]
fn examples_show_both_modes() {
    let examples = LsColorize.examples();
    assert_eq!(examples.len(), 4);
    assert_eq!(examples[0].example, "\"file.txt\" | ls-colorize");
    assert_eq!(
        examples[0].description,
        "Color a single file path based on LS_COLORS"
    );
    assert_eq!(
        examples[1].example,
        "[\"file.txt\" \"directory\" \"script.sh\"] | ls-colorize"
    );
    assert_eq!(examples[3].example, "\"file.txt\" | ls-colorize --get-color");
}
