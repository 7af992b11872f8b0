//! Integration into the Fish shell.
//!
//! While it runs, the tool collects statements in a script that the shell evaluates once the
//! tool has exited; the shell names the script's file in the environment variable
//! [`SCRIPT_PATH`]. To be called that way the tool installs a hook in the shell's startup
//! script. Reading and writing the files happens elsewhere: here is what is written, and
//! what is made of what was read.

use vstd::prelude::*;
use vstd::string::*;
use crate::error::{Error, ErrorView};
use crate::run::io_failure;
use crate::text::{
    contains, home_directory, join_path, occurs_in, optional_string, optional_text, path_join,
};

verus! {

/// The comment whose presence in the startup script shows that the hook is installed.
pub const INSTALLED_COMMENT: &'static str = "# Integrate aws-login into the shell environment.";

/// The name of the environment variable that holds the path of the deferred script.
pub const SCRIPT_PATH: &'static str = "AWS_LOGIN_SCRIPT";

/// The name of the shell.
pub const SHELL_NAME: &'static str = "fish";

/// The statement that sets and exports the variable `name` to `value`, as a line of its own.
pub open spec fn assignment(name: Seq<char>, value: Seq<char>) -> Seq<char> {
    "set -gx "@ + name + " \""@ + value + "\"\n"@
}

/// The statements for the shell to evaluate after the tool has exited.
pub struct Environment {
    script: String,
}

impl View for Environment {
    type V = Seq<char>;

    closed spec fn view(&self) -> Seq<char> {
        self.script@
    }
}

impl Environment {
    /// An environment with no statement yet.
    pub fn new() -> (environment: Environment)
        ensures
            environment@ == Seq::<char>::empty(),
    {
        Environment { script: String::new() }
    }

    /// Adds the statement that sets and exports the variable `name` to `value`, behind the
    /// statements already there.
    pub fn set_var(&mut self, name: &str, value: &str)
        ensures
            final(self)@ == old(self)@ + assignment(name@, value@),
    {
        self.script.append("set -gx ");
        self.script.append(name);
        self.script.append(" \"");
        self.script.append(value);
        self.script.append("\"\n");
        assert(self.script@ =~= old(self)@ + assignment(name@, value@));
    }

    /// The statements collected so far, as the text to write to the deferred script.
    pub fn script(&self) -> (text: &str)
        ensures
            text@ == self@,
    {
        self.script.as_str()
    }

    /// The failure to report where the deferred script could not be written: `text` is the
    /// text of the I/O error.
    pub fn write_failure(text: String) -> (error: Error)
        ensures
            error@ == (ErrorView {
                context: seq!["Could not set environment variable."@],
                ..io_failure(text@)
            }),
    {
        let error = Error::new(1).with_message(text).with_context(
            "Could not set environment variable.".to_owned(),
        );
        assert(error@.context =~= seq!["Could not set environment variable."@]);
        error
    }
}

/// How the place of the tool's name is written in the template of the init script.
pub const BIN_PLACEHOLDER: &'static str = "{AWS_LOGIN}";

/// How the place of the shell's name is written in the template of the init script.
pub const SHELL_PLACEHOLDER: &'static str = "{AWS_LOGIN_SHELL}";

/// The template of the init script up to the first place of the tool's name.
pub const TEMPLATE_HEAD: &'static str = "function ";

/// The template between the first place of the tool's name and the place of the shell's name.
pub const TEMPLATE_SETUP: &'static str =
    " --description \"Log into AWS accounts and services\"\n    set -lx AWS_LOGIN_SCRIPT (mktemp)\n    set -lx AWS_LOGIN_SHELL ";

/// The template between the place of the shell's name and the second place of the tool's name.
pub const TEMPLATE_CALL: &'static str = "\n    command ";

/// The template behind the second place of the tool's name.
pub const TEMPLATE_TAIL: &'static str =
    " $argv\n    set -l result $status\n    if test -s \"$AWS_LOGIN_SCRIPT\"\n        source \"$AWS_LOGIN_SCRIPT\"\n    end\n    rm -f \"$AWS_LOGIN_SCRIPT\"\n    return $result\nend\n";

/// The init script: the template with `bin_name` in each place of the tool's name and `shell`
/// in the place of the shell's name. It defines a function named like the tool that runs the
/// tool and then evaluates and removes the deferred script.
pub open spec fn init_script(bin_name: Seq<char>, shell: Seq<char>) -> Seq<char> {
    TEMPLATE_HEAD@ + bin_name + TEMPLATE_SETUP@ + shell + TEMPLATE_CALL@ + bin_name
        + TEMPLATE_TAIL@
}

/// Whether the character `c` stands nowhere in `text`.
pub open spec fn free_of(text: Seq<char>, c: char) -> bool {
    forall|i: int| 0 <= i < text.len() ==> #[trigger] text[i] != c
}

/// The startup script of a user whose home directory is `home`.
pub open spec fn default_profile(home: Seq<char>) -> Seq<char> {
    path_join(path_join(path_join(home, ".config"@), "fish"@), "config.fish"@)
}

/// The path of the startup script to manage: the one that was asked for, or else the default
/// one below the home directory. There is none where neither is known.
pub open spec fn resolved_profile(
    profile: Option<Seq<char>>,
    home: Option<Seq<char>>,
) -> Option<Seq<char>> {
    match profile {
        Some(path) => Some(path),
        None => match home {
            Some(home) => Some(default_profile(home)),
            None => None,
        },
    }
}

/// The lines that installing appends to the startup script: an empty line, the comment that
/// marks the hook, and the command that evaluates what the tool's `shell init` prints.
pub open spec fn hook(bin_name: Seq<char>) -> Seq<char> {
    "\n"@ + INSTALLED_COMMENT@ + "\n"@ + bin_name + " shell init -s fish | source\n"@
}

/// Whether a startup script is one with the hook installed. `contents` is what the file
/// holds, or nothing where there is no such file.
pub open spec fn installed(contents: Option<Seq<char>>) -> bool {
    match contents {
        Some(text) => occurs_in(INSTALLED_COMMENT@, text),
        None => false,
    }
}

/// What a startup script holds after `block` was appended to it. A file that was not there
/// is created.
pub open spec fn appended(contents: Option<Seq<char>>, block: Seq<char>) -> Option<Seq<char>> {
    match contents {
        Some(text) => Some(text + block),
        None => Some(block),
    }
}

/// The integration of the tool into the Fish shell of one user.
pub struct Setup {
    script: String,
}

impl View for Setup {
    type V = Seq<char>;

    /// The path of the startup script.
    closed spec fn view(&self) -> Seq<char> {
        self.script@
    }
}

/// The view of an optional [`Setup`].
pub open spec fn optional_setup(setup: Option<Setup>) -> Option<Seq<char>> {
    match setup {
        Some(setup) => Some(setup@),
        None => None,
    }
}

impl Setup {
    /// The integration that manages the startup script `profile`, or the default startup
    /// script of the current user where `profile` is `None`. The default needs the home
    /// directory: where it cannot be determined there is no integration.
    pub fn new(profile: Option<&str>) -> (setup: Option<Setup>)
        ensures
            exists|home: Option<Seq<char>>|
                optional_setup(setup) == #[trigger] resolved_profile(optional_text(profile), home),
    {
        match profile {
            Some(path) => Setup::resolve(Some(path), None),
            None => {
                let home = home_directory();
                Setup::resolve(None, home)
            },
        }
    }

    /// The integration that manages the startup script `profile`, or the default startup
    /// script below the home directory `home` where `profile` is `None`.
    pub fn resolve(profile: Option<&str>, home: Option<String>) -> (setup: Option<Setup>)
        ensures
            optional_setup(setup) == resolved_profile(optional_text(profile), optional_string(home)),
    {
        match profile {
            Some(path) => Some(Setup { script: path.to_owned() }),
            None => match home {
                Some(home) => {
                    let config = join_path(home.as_str(), ".config");
                    let fish = join_path(config.as_str(), "fish");
                    Some(Setup { script: join_path(fish.as_str(), "config.fish") })
                },
                None => None,
            },
        }
    }

    /// The path of the startup script.
    pub fn script(&self) -> (path: &str)
        ensures
            path@ == self@,
    {
        self.script.as_str()
    }

    /// The init script for the tool `bin_name`: the text that the shell evaluates at startup.
    pub fn generate_script(&self, bin_name: &str) -> (script: String)
        ensures
            script@ == init_script(bin_name@, SHELL_NAME@),
    {
        let mut script = String::from_str(TEMPLATE_HEAD);
        script.append(bin_name);
        script.append(TEMPLATE_SETUP);
        script.append(SHELL_NAME);
        script.append(TEMPLATE_CALL);
        script.append(bin_name);
        script.append(TEMPLATE_TAIL);
        assert(script@ =~= init_script(bin_name@, SHELL_NAME@));
        script
    }

    /// The lines to append to the startup script so that the shell calls the tool `bin_name`
    /// at startup. Appending them again installs the hook again: test `is_installed` first.
    pub fn install(&self, bin_name: &str) -> (block: String)
        ensures
            block@ == hook(bin_name@),
    {
        let mut block = String::from_str("\n");
        block.append(INSTALLED_COMMENT);
        block.append("\n");
        block.append(bin_name);
        block.append(" shell init -s fish | source\n");
        assert(block@ =~= hook(bin_name@));
        block
    }

    /// The failure to report where the directory of the startup script could not be created:
    /// `os_code` is the code of the operating system's error, where it has one, and `text`
    /// the error's text.
    pub fn directory_failure(os_code: Option<i32>, text: String) -> (error: Error)
        ensures
            error@ == (ErrorView {
                code: match os_code {
                    Some(code) => code as int,
                    None => 1,
                },
                message: Some(text@),
                context: seq!["Could not create the directory containing the profile script."@],
            }),
    {
        let code: i32 = match os_code {
            Some(code) => code,
            None => 1,
        };
        let error = Error::new(code).with_message(text).with_context(
            "Could not create the directory containing the profile script.".to_owned(),
        );
        assert(error@.context =~= seq![
            "Could not create the directory containing the profile script."@,
        ]);
        error
    }

    /// Whether the hook is installed, from the outcome of reading the startup script: what it
    /// holds, nothing where there is no such file, or the text of the I/O error that kept it
    /// from being read. The hook is installed where the file holds the comment that marks
    /// it. An I/O error is passed on as a failure with code 1.
    pub fn is_installed(&self, read: Result<Option<String>, String>) -> (outcome: Result<
        bool,
        Error,
    >)
        ensures
            match read {
                Ok(contents) => outcome matches Ok(yes) && yes == installed(
                    optional_string(contents),
                ),
                Err(text) => outcome matches Err(error) && error@ == io_failure(text@),
            },
    {
        match read {
            Ok(Some(contents)) => Ok(contains(contents.as_str(), INSTALLED_COMMENT)),
            Ok(None) => Ok(false),
            Err(text) => Err(Error::new(1).with_message(text)),
        }
    }
}

/// A startup script that is not there has no hook. Once the lines of `install` were appended
/// the hook is installed, whatever the file held before, and it stays installed when they are
/// appended a second time.
pub proof fn installed_after_install(contents: Option<Seq<char>>, bin_name: Seq<char>)
    ensures
        !installed(None),
        installed(appended(contents, hook(bin_name))),
        installed(appended(appended(contents, hook(bin_name)), hook(bin_name))),
{
    reveal_strlit("\n");
    let before = match contents {
        Some(text) => text,
        None => Seq::empty(),
    };
    let marker = INSTALLED_COMMENT@;
    let once = appended(contents, hook(bin_name)).unwrap();
    let start = before.len() as int + 1;
    assert(once =~= before + hook(bin_name));
    assert(once.subrange(start, start + marker.len()) =~= marker);
    let twice = appended(Some(once), hook(bin_name)).unwrap();
    assert(twice.subrange(start, start + marker.len()) =~= marker);
}

/// The template's text between the two places of the tool's name, with the shell's name in
/// its place.
pub open spec fn between_names(shell: Seq<char>) -> Seq<char> {
    TEMPLATE_SETUP@ + shell + TEMPLATE_CALL@
}

/// A token that starts with an opening brace and ends with a closing one stands nowhere in
/// `head + name + middle + name + tail` where the three fixed texts hold no brace, the middle
/// one starts with a character that the token lacks, and the token does not stand in `name`.
proof fn token_only_inside_name(
    head: Seq<char>,
    middle: Seq<char>,
    tail: Seq<char>,
    name: Seq<char>,
    token: Seq<char>,
)
    requires
        free_of(head, '{'),
        free_of(middle, '{'),
        free_of(tail, '{'),
        free_of(head, '}'),
        free_of(middle, '}'),
        free_of(tail, '}'),
        middle.len() > 0,
        free_of(token, middle[0]),
        token.len() > 0,
        token[0] == '{',
        token.last() == '}',
        !occurs_in(token, name),
    ensures
        !occurs_in(token, head + name + middle + name + tail),
{
    let text = head + name + middle + name + tail;
    let n = token.len() as int;
    let first = head.len() as int;
    let gap = first + name.len();
    let second = gap + middle.len();
    assert forall|start: int| 0 <= start && start + n <= text.len() implies #[trigger] text.subrange(
        start,
        start + n,
    ) != token by {
        let found = text.subrange(start, start + n);
        if found == token {
            let end = start + n - 1;
            assert(found[0] == text[start]);
            assert(found[n - 1] == text[end]);
            assert(first <= start < gap || second <= start < second + name.len());
            assert(first <= end < gap || second <= end < second + name.len());
            if start < gap && end >= second {
                assert(found[gap - start] == text[gap]);
                assert(text[gap] == middle[0]);
            } else {
                let from = if start < gap {
                    start - first
                } else {
                    start - second
                };
                assert forall|k: int| 0 <= k < n implies name.subrange(from, from + n)[k]
                    == token[k] by {
                    assert(found[k] == text[start + k]);
                }
                assert(name.subrange(from, from + n) =~= token);
            }
        }
    }
}

/// The init script holds the tool's name and the shell's name where the template has their
/// places.
pub proof fn script_holds_the_names(bin_name: Seq<char>)
    ensures
        occurs_in(bin_name, init_script(bin_name, SHELL_NAME@)),
        occurs_in(SHELL_NAME@, init_script(bin_name, SHELL_NAME@)),
{
    let script = init_script(bin_name, SHELL_NAME@);
    let first = TEMPLATE_HEAD@.len() as int;
    assert(script.subrange(first, first + bin_name.len()) =~= bin_name);
    let second = first + bin_name.len() + TEMPLATE_SETUP@.len();
    assert(script.subrange(second, second + SHELL_NAME@.len()) =~= SHELL_NAME@);
}

/// No placeholder is left in the init script, unless the tool's name itself holds one.
pub proof fn script_leaves_no_placeholder(bin_name: Seq<char>)
    requires
        !occurs_in(BIN_PLACEHOLDER@, bin_name),
        !occurs_in(SHELL_PLACEHOLDER@, bin_name),
    ensures
        !occurs_in(BIN_PLACEHOLDER@, init_script(bin_name, SHELL_NAME@)),
        !occurs_in(SHELL_PLACEHOLDER@, init_script(bin_name, SHELL_NAME@)),
{
    reveal_strlit("{AWS_LOGIN}");
    reveal_strlit("{AWS_LOGIN_SHELL}");
    reveal_strlit("function ");
    reveal_strlit(
        " --description \"Log into AWS accounts and services\"\n    set -lx AWS_LOGIN_SCRIPT (mktemp)\n    set -lx AWS_LOGIN_SHELL ",
    );
    reveal_strlit("fish");
    reveal_strlit("\n    command ");
    reveal_strlit(
        " $argv\n    set -l result $status\n    if test -s \"$AWS_LOGIN_SCRIPT\"\n        source \"$AWS_LOGIN_SCRIPT\"\n    end\n    rm -f \"$AWS_LOGIN_SCRIPT\"\n    return $result\nend\n",
    );
    let middle = between_names(SHELL_NAME@);
    assert(free_of(TEMPLATE_SETUP@, '{') && free_of(TEMPLATE_SETUP@, '}'));
    assert(free_of(SHELL_NAME@, '{') && free_of(SHELL_NAME@, '}'));
    assert(free_of(TEMPLATE_CALL@, '{') && free_of(TEMPLATE_CALL@, '}'));
    assert(free_of(middle, '{') && free_of(middle, '}'));
    assert(middle[0] == ' ');
    assert(free_of(TEMPLATE_HEAD@, '{') && free_of(TEMPLATE_HEAD@, '}'));
    assert(free_of(TEMPLATE_TAIL@, '{') && free_of(TEMPLATE_TAIL@, '}'));
    assert(init_script(bin_name, SHELL_NAME@) =~= TEMPLATE_HEAD@ + bin_name + middle + bin_name
        + TEMPLATE_TAIL@);
    token_only_inside_name(
        TEMPLATE_HEAD@,
        middle,
        TEMPLATE_TAIL@,
        bin_name,
        BIN_PLACEHOLDER@,
    );
    token_only_inside_name(
        TEMPLATE_HEAD@,
        middle,
        TEMPLATE_TAIL@,
        bin_name,
        SHELL_PLACEHOLDER@,
    );
}

} // verus!
