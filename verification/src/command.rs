//! The command: take one path string or an ordered list of them, resolve each
//! path's style, and hand back either painted strings or style records. The
//! one error the command can produce is the invalid-input-shape error, which
//! names the type actually received.

use vstd::prelude::*;
use vstd::string::StringExecFns;

use crate::ansi::{paint_text, painted, style_view, StyleSpec};
use crate::describe::{ansi_style_to_record, record_of, StyleRecord};
use crate::resolver::get_style;
use crate::rules::name_style;

verus! {

/// One element of a list handed to the command: a path string, or a value of
/// another type, kept as that type's name for the error message.
pub enum PathItem {
    Text(String),
    NotText(String),
}

/// The input of one call: a single path string, an ordered list of values, or
/// a value of another type, kept as that type's name.
pub enum CallInput {
    One(String),
    Many(Vec<PathItem>),
    Other(String),
}

/// One output element: the path painted in its style's escape codes, or the
/// record that describes the style.
#[derive(Debug, PartialEq, Eq)]
pub enum Rendered {
    Painted(String),
    Described(StyleRecord),
}

/// The output of one call: one element for a single input, a list in the
/// input's order for a list input.
#[derive(Debug, PartialEq, Eq)]
pub enum RunOutput {
    Single(Rendered),
    List(Vec<Rendered>),
}

/// The command's one error: the input was neither a string nor a list of
/// strings. It carries the name of the type actually received.
#[derive(Debug, PartialEq, Eq)]
pub struct ShapeError {
    pub got: String,
}

impl ShapeError {
    /// The error's label: it names the requirement and the received type.
    pub fn label_message(&self) -> (r: String)
        ensures
            r@ == "requires string or list of strings; got "@ + self.got@,
    {
        String::from_str("requires string or list of strings; got ").concat(self.got.as_str())
    }
}

/// The headline of the invalid-input-shape error.
pub fn shape_error_title() -> (r: String)
    ensures
        r@ == "Expected String or List of Strings"@,
{
    String::from_str("Expected String or List of Strings")
}

/// Whether a list element is a path string.
pub open spec fn item_is_text(it: PathItem) -> bool {
    it is Text
}

/// The text a list element carries: the path string of a path element, the
/// type name of any other.
pub open spec fn item_payload(it: PathItem) -> Seq<char> {
    match it {
        PathItem::Text(s) => s@,
        PathItem::NotText(s) => s@,
    }
}

/// Whether every element of a list input is a path string.
pub open spec fn all_texts(items: Seq<PathItem>) -> bool {
    forall|i: int| 0 <= i < items.len() ==> item_is_text(#[trigger] items[i])
}

/// A style that resolution may find for the path: whenever a name rule of the
/// ruleset applies to the path, it is that rule's style; when none applies,
/// the style came from the filesystem fallback and any style qualifies.
pub open spec fn resolvable(st: StyleSpec, rules: lscolors::LsColors, path: Seq<char>) -> bool {
    match name_style(rules, path) {
        Some(named) => st == named,
        None => true,
    }
}

/// What one output element is under a given style: in paint mode the path
/// wrapped in the style's escape codes, in describe mode the style's record.
pub open spec fn is_render_of(out: Rendered, st: StyleSpec, path: Seq<char>, describe: bool) -> bool {
    match out {
        Rendered::Painted(s) => !describe && s@ == painted(st, path),
        Rendered::Described(rec) => describe && rec@ == record_of(st),
    }
}

/// An output element is correct for a path when it renders the path under
/// some style that resolution may find for it.
pub open spec fn rendered_ok(
    out: Rendered,
    rules: lscolors::LsColors,
    path: Seq<char>,
    describe: bool,
) -> bool {
    exists|st: StyleSpec|
        #[trigger] is_render_of(out, st, path, describe) && resolvable(st, rules, path)
}

/// An error correctly reports a list input: some element is not a path
/// string, every element before it is one, and the error carries that
/// element's type name.
pub open spec fn reports_first_offender(e: ShapeError, items: Seq<PathItem>) -> bool {
    exists|i: int|
        0 <= i < items.len() && !item_is_text(#[trigger] items[i]) && e.got@ == item_payload(
            items[i],
        ) && (forall|j: int| 0 <= j < i ==> item_is_text(items[j]))
}

/// Resolve one path and render the result for the chosen mode.
fn render_one(path: &str, cwd: &str, rules: &lscolors::LsColors, describe: bool) -> (r: Rendered)
    ensures
        rendered_ok(r, *rules, path@, describe),
{
    let style = get_style(path, cwd, rules);
    let ghost st = style_view(style);
    if describe {
        let out = Rendered::Described(ansi_style_to_record(style));
        proof {
            assert(is_render_of(out, st, path@, true) && resolvable(st, *rules, path@));
        }
        out
    } else {
        let out = Rendered::Painted(paint_text(style, path));
        proof {
            assert(is_render_of(out, st, path@, false) && resolvable(st, *rules, path@));
        }
        out
    }
}

/// The shape of a value in the command's input/output declaration.
#[derive(Debug, PartialEq, Eq)]
pub enum TypeShape {
    Text,
    TextList,
    Record,
    RecordList,
}

/// One accepted input shape with the output shape produced for it.
#[derive(Debug, PartialEq, Eq)]
pub struct IoShape {
    pub input: TypeShape,
    pub output: TypeShape,
}

/// The command's capability declaration to its host: its name and category,
/// its one switch, and the input/output shapes it accepts.
pub struct CommandSpec {
    pub name: String,
    pub category: String,
    pub switch_name: String,
    pub switch_desc: String,
    pub switch_short: char,
    pub io_shapes: Vec<IoShape>,
}

/// One usage example of the command.
pub struct CommandExample {
    pub example: String,
    pub description: String,
}

/// The plugin: it serves the one path-colorizing command.
pub struct LsColorizePlugin;

/// The path-colorizing command.
pub struct LsColorize;

impl LsColorizePlugin {
    /// The plugin's version.
    pub fn version(&self) -> (r: String)
        ensures
            r@ == "0.1.0"@,
    {
        String::from_str("0.1.0")
    }

    /// The commands the plugin serves: exactly the one.
    pub fn commands(&self) -> (r: Vec<LsColorize>)
        ensures
            r@.len() == 1,
    {
        let mut cs: Vec<LsColorize> = Vec::new();
        cs.push(LsColorize);
        cs
    }
}

impl LsColorize {
    /// The command's name.
    pub fn name(&self) -> (r: String)
        ensures
            r@ == "ls-colorize"@,
    {
        String::from_str("ls-colorize")
    }

    /// The command's description.
    pub fn description(&self) -> (r: String)
        ensures
            r@ == "Color a path based on LS_COLORS environment variable"@,
    {
        String::from_str("Color a path based on LS_COLORS environment variable")
    }

    /// The command's capability declaration: a path-category command with the
    /// `get-color` switch, taking a string to a string, a list of strings to
    /// a list of strings, and — with the switch — a string to a record and a
    /// list of strings to a list of records.
    pub fn signature(&self) -> (r: CommandSpec)
        ensures
            r.name@ == "ls-colorize"@,
            r.category@ == "path"@,
            r.switch_name@ == "get-color"@,
            r.switch_desc@ == "Return the color instead of the colored string"@,
            r.switch_short == 'c',
            r.io_shapes@.len() == 4,
            r.io_shapes@[0] == (IoShape { input: TypeShape::Text, output: TypeShape::Text }),
            r.io_shapes@[1] == (IoShape {
                input: TypeShape::TextList,
                output: TypeShape::TextList,
            }),
            r.io_shapes@[2] == (IoShape { input: TypeShape::Text, output: TypeShape::Record }),
            r.io_shapes@[3] == (IoShape {
                input: TypeShape::TextList,
                output: TypeShape::RecordList,
            }),
    {
        let mut io_shapes: Vec<IoShape> = Vec::new();
        io_shapes.push(IoShape { input: TypeShape::Text, output: TypeShape::Text });
        io_shapes.push(IoShape { input: TypeShape::TextList, output: TypeShape::TextList });
        io_shapes.push(IoShape { input: TypeShape::Text, output: TypeShape::Record });
        io_shapes.push(IoShape { input: TypeShape::TextList, output: TypeShape::RecordList });
        CommandSpec {
            name: String::from_str("ls-colorize"),
            category: String::from_str("path"),
            switch_name: String::from_str("get-color"),
            switch_desc: String::from_str("Return the color instead of the colored string"),
            switch_short: 'c',
            io_shapes,
        }
    }

    /// The command's usage examples.
    pub fn examples(&self) -> (r: Vec<CommandExample>)
        ensures
            r@.len() == 4,
            r@[0].example@ == "\"file.txt\" | ls-colorize"@,
            r@[0].description@ == "Color a single file path based on LS_COLORS"@,
            r@[1].example@ == "[\"file.txt\" \"directory\" \"script.sh\"] | ls-colorize"@,
            r@[1].description@ == "Color multiple file paths based on LS_COLORS"@,
            r@[2].example@ == "ls | get name | ls-colorize"@,
            r@[2].description@ == "Color file names from ls output"@,
            r@[3].example@ == "\"file.txt\" | ls-colorize --get-color"@,
            r@[3].description@ == "Get the color record for a single file path"@,
    {
        let mut examples: Vec<CommandExample> = Vec::new();
        examples.push(
            CommandExample {
                example: String::from_str("\"file.txt\" | ls-colorize"),
                description: String::from_str("Color a single file path based on LS_COLORS"),
            },
        );
        examples.push(
            CommandExample {
                example: String::from_str("[\"file.txt\" \"directory\" \"script.sh\"] | ls-colorize"),
                description: String::from_str("Color multiple file paths based on LS_COLORS"),
            },
        );
        examples.push(
            CommandExample {
                example: String::from_str("ls | get name | ls-colorize"),
                description: String::from_str("Color file names from ls output"),
            },
        );
        examples.push(
            CommandExample {
                example: String::from_str("\"file.txt\" | ls-colorize --get-color"),
                description: String::from_str("Get the color record for a single file path"),
            },
        );
        examples
    }

    /// Run the command on its input: resolve each path against the ruleset
    /// and the working directory, and paint it or describe its style. A
    /// single string yields a single result; a list yields a list with the
    /// i-th output rendering the i-th input; anything else is the
    /// invalid-input-shape error naming the received type, as is a list whose
    /// first non-string element names one.
    pub fn run(
        &self,
        input: &CallInput,
        cwd: &str,
        ls_colors: &lscolors::LsColors,
        get_color: bool,
    ) -> (r: Result<RunOutput, ShapeError>)
        ensures
            match *input {
                CallInput::One(ref p) => r matches Ok(RunOutput::Single(out)) && rendered_ok(
                    out,
                    *ls_colors,
                    p@,
                    get_color,
                ),
                CallInput::Many(ref items) => if all_texts(items@) {
                    &&& r matches Ok(RunOutput::List(outs))
                    &&& outs@.len() == items@.len()
                    &&& forall|i: int|
                        0 <= i < items@.len() ==> rendered_ok(
                            #[trigger] outs@[i],
                            *ls_colors,
                            item_payload(items@[i]),
                            get_color,
                        )
                } else {
                    r matches Err(e) && reports_first_offender(e, items@)
                },
                CallInput::Other(ref t) => r matches Err(e) && e.got@ == t@,
            },
    {
        match input {
            CallInput::One(path) => Ok(
                RunOutput::Single(render_one(path.as_str(), cwd, ls_colors, get_color)),
            ),
            CallInput::Many(items) => {
                let n: usize = items.len();
                let mut outs: Vec<Rendered> = Vec::new();
                let mut idx: usize = 0;
                while idx < n
                    invariant
                        *input is Many,
                        items@ == input->Many_0@,
                        n == items@.len(),
                        idx <= n,
                        outs@.len() == idx,
                        forall|i: int| 0 <= i < idx ==> item_is_text(#[trigger] items@[i]),
                        forall|i: int|
                            0 <= i < idx ==> rendered_ok(
                                #[trigger] outs@[i],
                                *ls_colors,
                                item_payload(items@[i]),
                                get_color,
                            ),
                    decreases n - idx,
                {
                    match &items[idx] {
                        PathItem::Text(p) => {
                            outs.push(render_one(p.as_str(), cwd, ls_colors, get_color));
                        },
                        PathItem::NotText(t) => {
                            let e = ShapeError { got: t.clone() };
                            proof {
                                assert(!item_is_text(items@[idx as int]) && e.got@ == item_payload(
                                    items@[idx as int],
                                ));
                                assert(reports_first_offender(e, items@));
                                assert(!all_texts(items@));
                            }
                            return Err(e);
                        },
                    }
                    idx += 1;
                }
                Ok(RunOutput::List(outs))
            },
            CallInput::Other(t) => Err(ShapeError { got: t.clone() }),
        }
    }
}

} // verus!
