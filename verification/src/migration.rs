//! Taking over settings from an environment file of an earlier installation.
//!
//! The host finds and reads the files; these functions read values out of
//! their contents and decide what a found file is worth.

use crate::models::Template;
use crate::text::{
    chars_eq, first_index_of, first_index_of_chars, from_chars, slice_chars, split, split_chars,
    to_chars, trim, trim_chars, views,
};
use vstd::prelude::*;

verus! {

/// A value without the pair of double quotes or of single quotes around it,
/// if there is one.
pub open spec fn unquoted(value: Seq<char>) -> Seq<char> {
    if value.len() >= 2 && value[0] == '"' && value.last() == '"' {
        value.subrange(1, value.len() - 1)
    } else if value.len() >= 2 && value[0] == '\'' && value.last() == '\'' {
        value.subrange(1, value.len() - 1)
    } else {
        value
    }
}

/// The value that a line gives to a variable. A line is `NAME=VALUE`, with
/// white space allowed around the name and the value; empty lines and lines
/// that begin with `#` give nothing.
pub open spec fn line_value(line: Seq<char>, name: Seq<char>) -> Option<Seq<char>> {
    let text = trim(line);
    let at = first_index_of(text, '=');
    if text.len() == 0 || text[0] == '#' {
        None
    } else if at < text.len() && trim(text.subrange(0, at)) == name {
        Some(unquoted(trim(text.subrange(at + 1, text.len() as int))))
    } else {
        None
    }
}

/// The value that the first line to give one gives to a variable.
pub open spec fn first_value(lines: Seq<Seq<char>>, name: Seq<char>) -> Option<Seq<char>>
    decreases lines.len(),
{
    if lines.len() == 0 {
        None
    } else {
        match line_value(lines[0], name) {
            Some(v) => Some(v),
            None => first_value(lines.drop_first(), name),
        }
    }
}

/// The value of a variable in the contents of an environment file.
pub open spec fn env_value(contents: Seq<char>, name: Seq<char>) -> Option<Seq<char>> {
    first_value(split(contents, '\n'), name)
}

fn unquote(value: &Vec<char>) -> (r: Vec<char>)
    ensures
        r@ == unquoted(value@),
{
    let n: usize = value.len();
    if n >= 2 && value[0] == '"' && value[n - 1] == '"' {
        slice_chars(value, 1, n - 1)
    } else if n >= 2 && value[0] == '\'' && value[n - 1] == '\'' {
        slice_chars(value, 1, n - 1)
    } else {
        assert(value@.subrange(0, n as int) =~= value@);
        slice_chars(value, 0, n)
    }
}

fn value_of_line(line: &Vec<char>, name: &Vec<char>) -> (r: Option<Vec<char>>)
    ensures
        match line_value(line@, name@) {
            Some(v) => r matches Some(w) && w@ == v,
            None => r is None,
        },
{
    let text = trim_chars(line);
    if text.len() == 0 || text[0] == '#' {
        return None;
    }
    let at = first_index_of_chars(&text, '=');
    if at >= text.len() {
        return None;
    }
    let key = trim_chars(&slice_chars(&text, 0, at));
    if !chars_eq(&key, name) {
        return None;
    }
    let value = trim_chars(&slice_chars(&text, at + 1, text.len()));
    Some(unquote(&value))
}

/// Reads the value of a variable out of the contents of an environment file.
pub fn parse_env_var(contents: &str, var_name: &str) -> (r: Option<String>)
    ensures
        match env_value(contents@, var_name@) {
            Some(v) => r matches Some(s) && s@ == v,
            None => r is None,
        },
{
    let chars = to_chars(contents);
    let name = to_chars(var_name);
    let lines = split_chars(&chars, '\n');
    let ghost all = views(lines@);
    let mut i: usize = 0;
    assert(all.subrange(0, all.len() as int) =~= all);
    while i < lines.len()
        invariant
            i <= lines.len(),
            all == views(lines@),
            all == split(contents@, '\n'),
            name@ == var_name@,
            first_value(all, name@) == first_value(all.subrange(i as int, all.len() as int), name@),
        decreases lines.len() - i,
    {
        let ghost rest = all.subrange(i as int, all.len() as int);
        assert(rest[0] == lines@[i as int]@);
        assert(rest.drop_first() =~= all.subrange(i + 1, all.len() as int));
        match value_of_line(&lines[i], &name) {
            Some(v) => {
                return Some(from_chars(&v));
            },
            None => {},
        }
        i += 1;
    }
    None
}

// ---------------------------------------------------------------------------
// What was found, and what became of it
// ---------------------------------------------------------------------------

/// An environment file that was found, with what it holds.
#[derive(Debug)]
pub struct DetectedEnvFile {
    pub path: String,
    pub api_key: Option<String>,
    pub prompt_template: Option<String>,
}

/// What an import took over.
#[derive(Debug)]
pub struct ImportResult {
    pub api_key_imported: bool,
    pub template_imported: bool,
}

/// Whether there is anything to migrate, and from where.
#[derive(Debug)]
pub struct MigrationStatus {
    pub needed: bool,
    pub env_files: Vec<EnvFileInfo>,
}

/// What a found environment file holds, without its values.
#[derive(Debug)]
pub struct EnvFileInfo {
    pub path: String,
    pub has_api_key: bool,
    pub has_template: bool,
}

impl Default for ImportResult {
    fn default() -> (r: ImportResult)
        ensures
            !r.api_key_imported,
            !r.template_imported,
    {
        ImportResult { api_key_imported: false, template_imported: false }
    }
}

impl ImportResult {
    /// Whether the import took anything over.
    pub fn anything_imported(&self) -> (b: bool)
        ensures
            b == (self.api_key_imported || self.template_imported),
    {
        self.api_key_imported || self.template_imported
    }
}

impl DetectedEnvFile {
    /// What the file at `path` with these contents is worth. `prompt_template`
    /// is the text of the template file that the contents name, where the
    /// host could read one. A file that gives neither a key nor a template
    /// counts as not found.
    pub fn from_contents(path: String, contents: &str, prompt_template: Option<String>) -> (r:
        Option<DetectedEnvFile>)
        ensures
            match r {
                Some(f) => {
                    &&& f.path == path
                    &&& f.prompt_template == prompt_template
                    &&& (env_value(contents@, "ANTHROPIC_API_KEY"@) is Some
                        || prompt_template is Some)
                    &&& match env_value(contents@, "ANTHROPIC_API_KEY"@) {
                        Some(v) => f.api_key matches Some(k) && k@ == v,
                        None => f.api_key is None,
                    }
                },
                None => env_value(contents@, "ANTHROPIC_API_KEY"@) is None && prompt_template
                    is None,
            },
    {
        let api_key = parse_env_var(contents, "ANTHROPIC_API_KEY");
        if api_key.is_some() || prompt_template.is_some() {
            Some(DetectedEnvFile { path, api_key, prompt_template })
        } else {
            None
        }
    }

    /// The file without its values.
    pub fn info(&self) -> (r: EnvFileInfo)
        ensures
            r.path == self.path,
            r.has_api_key == self.api_key is Some,
            r.has_template == self.prompt_template is Some,
    {
        EnvFileInfo {
            path: self.path.clone(),
            has_api_key: self.api_key.is_some(),
            has_template: self.prompt_template.is_some(),
        }
    }
}

/// The name of the file that a file's contents give for the prompt template.
pub fn template_path(contents: &str) -> (r: Option<String>)
    ensures
        match env_value(contents@, "PROMPT_TEMPLATE"@) {
            Some(v) => r matches Some(s) && s@ == v,
            None => r is None,
        },
{
    parse_env_var(contents, "PROMPT_TEMPLATE")
}

/// Whether a migration is needed: it is where none was completed and a file
/// was found. After a completed migration no file is listed.
pub fn migration_status(completed: bool, env_files: &Vec<DetectedEnvFile>) -> (r: MigrationStatus)
    ensures
        r.needed == (!completed && env_files.len() > 0),
        completed ==> r.env_files.len() == 0,
        !completed ==> r.env_files.len() == env_files.len(),
        !completed ==> forall|i: int|
            0 <= i < env_files.len() ==> {
                &&& (#[trigger] r.env_files[i]).path == env_files[i].path
                &&& r.env_files[i].has_api_key == env_files[i].api_key is Some
                &&& r.env_files[i].has_template == env_files[i].prompt_template is Some
            },
{
    let mut infos: Vec<EnvFileInfo> = Vec::new();
    if completed {
        return MigrationStatus { needed: false, env_files: infos };
    }
    let mut i: usize = 0;
    while i < env_files.len()
        invariant
            i <= env_files.len(),
            infos.len() == i,
            forall|j: int|
                0 <= j < i ==> {
                    &&& (#[trigger] infos[j]).path == env_files[j].path
                    &&& infos[j].has_api_key == env_files[j].api_key is Some
                    &&& infos[j].has_template == env_files[j].prompt_template is Some
                },
        decreases env_files.len() - i,
    {
        infos.push(env_files[i].info());
        i += 1;
    }
    MigrationStatus { needed: env_files.len() > 0, env_files: infos }
}

/// The template that an imported prompt becomes.
pub fn imported_template(prompt: String) -> (r: Template)
    ensures
        r.name@ == "Imported from CLI"@,
        r.description@ == "Automatically imported from .env configuration"@,
        r.prompt == prompt,
        r.hotkey is None,
{
    Template::new(
        from_chars(&to_chars("Imported from CLI")),
        from_chars(&to_chars("Automatically imported from .env configuration")),
        prompt,
    )
}

} // verus!
