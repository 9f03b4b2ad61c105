//! Editor integration: building the argv that opens a file at a location.
//! Resolving `${EDITOR}` against the environment is the surrounding tool's
//! job; the command construction here is verified.

use vstd::prelude::*;

use crate::text::{dec_str, spec_contains_seq, str_contains, u64_to_string};

verus! {

/// Opens files in the user's editor.
pub struct Editor {
    editor_command: String,
    vscode_integration: bool,
}

/// The `path:line:column` argument of editors that take one combined
/// location argument.
pub open spec fn spec_colon_location(
    path: Seq<char>,
    line: Option<usize>,
    column: Option<usize>,
) -> Seq<char> {
    match line {
        None => path,
        Some(l) => match column {
            None => path + seq![':'] + dec_str(l as nat),
            Some(c) => path + seq![':'] + dec_str(l as nat) + seq![':'] + dec_str(c as nat),
        },
    }
}

/// The argv that opens `path` at a location in the given editor: a `-g`
/// location for the vscode family, a `+line` argument for the vim family, a
/// `+line:column` argument for emacs, and the bare path for anything else.
pub open spec fn spec_open_command(
    editor: Seq<char>,
    vscode_integration: bool,
    path: Seq<char>,
    line: Option<usize>,
    column: Option<usize>,
) -> Seq<Seq<char>> {
    if vscode_integration && (spec_contains_seq(editor, "code"@) || spec_contains_seq(
        editor,
        "vscode"@,
    )) {
        seq![editor, "-g"@, spec_colon_location(path, line, column)]
    } else if spec_contains_seq(editor, "vim"@) || spec_contains_seq(editor, "nvim"@) {
        match line {
            Some(l) => seq![editor, "+"@ + dec_str(l as nat), path],
            None => seq![editor, path],
        }
    } else if spec_contains_seq(editor, "emacs"@) {
        match line {
            Some(l) => seq![
                editor,
                "+"@ + dec_str(l as nat) + seq![':'] + dec_str(
                    (match column {
                        Some(c) => c,
                        None => 0,
                    }) as nat,
                ),
            ],
            None => seq![editor, path],
        }
    } else {
        seq![editor, path]
    }
}

impl Editor {
    /// The resolved editor command.
    pub closed spec fn spec_command(self) -> Seq<char> {
        self.editor_command@
    }

    /// Whether vscode-style location arguments are wanted.
    pub closed spec fn spec_vscode(self) -> bool {
        self.vscode_integration
    }

    /// An editor around an already-resolved command.
    pub fn new(editor_command: String, vscode_integration: bool) -> (r: Self)
        ensures
            r.spec_command() == editor_command@,
            r.spec_vscode() == vscode_integration,
    {
        Editor { editor_command, vscode_integration }
    }

    /// The argv that opens `file_path` at the given location.
    pub fn open_file_command(
        &self,
        file_path: &str,
        line: Option<usize>,
        column: Option<usize>,
    ) -> (r: Vec<String>)
        ensures
            r.deep_view() == spec_open_command(
                self.spec_command(),
                self.spec_vscode(),
                file_path@,
                line,
                column,
            ),
    {
        let ghost goal = spec_open_command(
            self.spec_command(),
            self.spec_vscode(),
            file_path@,
            line,
            column,
        );
        let editor = self.editor_command.as_str();
        let mut cmd: Vec<String> = Vec::new();
        if self.vscode_integration && (str_contains(editor, "code") || str_contains(
            editor,
            "vscode",
        )) {
            let location = match line {
                Some(l) => {
                    let mut loc = file_path.to_owned();
                    loc.push(':');
                    let line_text = u64_to_string(l as u64);
                    loc.append(line_text.as_str());
                    match column {
                        Some(c) => {
                            loc.push(':');
                            let col_text = u64_to_string(c as u64);
                            loc.append(col_text.as_str());
                        },
                        None => {},
                    }
                    loc
                },
                None => file_path.to_owned(),
            };
            cmd.push(editor.to_owned());
            cmd.push("-g".to_owned());
            cmd.push(location);
            proof {
                assert(cmd.deep_view() =~~= goal);
            }
        } else if str_contains(editor, "vim") || str_contains(editor, "nvim") {
            cmd.push(editor.to_owned());
            match line {
                Some(l) => {
                    let line_text = u64_to_string(l as u64);
                    cmd.push("+".to_owned().concat(line_text.as_str()));
                },
                None => {},
            }
            cmd.push(file_path.to_owned());
            proof {
                assert(cmd.deep_view() =~~= goal);
            }
        } else if str_contains(editor, "emacs") {
            cmd.push(editor.to_owned());
            match line {
                Some(l) => {
                    let line_text = u64_to_string(l as u64);
                    let col: usize = match column {
                        Some(c) => c,
                        None => 0,
                    };
                    let col_text = u64_to_string(col as u64);
                    let mut loc = "+".to_owned().concat(line_text.as_str());
                    loc.push(':');
                    loc.append(col_text.as_str());
                    cmd.push(loc);
                },
                None => {
                    cmd.push(file_path.to_owned());
                },
            }
            proof {
                assert(cmd.deep_view() =~~= goal);
            }
        } else {
            cmd.push(editor.to_owned());
            cmd.push(file_path.to_owned());
            proof {
                assert(cmd.deep_view() =~~= goal);
            }
        }
        cmd
    }
}

} // verus!
