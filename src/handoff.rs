//! The decisions around a run: which schema source a path names, which
//! plugin runs, and the two lines that the plugin reads.
use vstd::prelude::*;
use vstd::string::StrSliceExecFns;

use crate::chars::concat;

verus! {

/// The settings of a run.
pub struct Config {
    pub schema: String,
    pub output: String,
    pub plugin: String,
}

impl Config {
    /// Every setting is given.
    pub fn is_complete(&self) -> (r: bool)
        ensures
            r == (self.schema@.len() > 0 && self.output@.len() > 0 && self.plugin@.len() > 0),
    {
        self.schema.as_str().unicode_len() > 0 && self.output.as_str().unicode_len() > 0
            && self.plugin.as_str().unicode_len() > 0
    }
}

/// Where a schema comes from, judged by its path.
#[derive(Debug, PartialEq, Eq, Structural, Clone, Copy)]
pub enum SchemaSource {
    /// An `http://` or `https://` address.
    Remote,
    /// A `.graphql` file in the schema language.
    SchemaFile,
    /// A `.json` file.
    JsonFile,
    Unsupported,
}

pub open spec fn has_prefix(s: Seq<char>, p: Seq<char>) -> bool {
    s.len() >= p.len() && s.subrange(0, p.len() as int) == p
}

pub open spec fn has_suffix(s: Seq<char>, p: Seq<char>) -> bool {
    s.len() >= p.len() && s.subrange(s.len() - p.len(), s.len() as int) == p
}

pub open spec fn source_of(path: Seq<char>) -> SchemaSource {
    if has_prefix(path, "http://"@) || has_prefix(path, "https://"@) {
        SchemaSource::Remote
    } else if has_suffix(path, ".graphql"@) {
        SchemaSource::SchemaFile
    } else if has_suffix(path, ".json"@) {
        SchemaSource::JsonFile
    } else {
        SchemaSource::Unsupported
    }
}

/// Whether `s[from..from + p.len()]` is `p`.
fn matches_at(s: &str, from: usize, p: &str) -> (r: bool)
    requires
        from + p@.len() <= s@.len(),
    ensures
        r == (s@.subrange(from as int, from + p@.len()) == p@),
{
    let n = p.unicode_len();
    let total = s.unicode_len();
    let mut i: usize = 0;
    while i < n
        invariant
            n == p@.len(),
            total == s@.len(),
            from + n <= s@.len(),
            i <= n,
            forall|k: int| 0 <= k < i ==> s@[from + k] == p@[k],
        decreases n - i,
    {
        if s.get_char(from + i) != p.get_char(i) {
            assert(s@.subrange(from as int, from + n)[i as int] != p@[i as int]);
            return false;
        }
        i += 1;
    }
    assert(s@.subrange(from as int, from + n) =~= p@);
    true
}

fn starts_with(s: &str, p: &str) -> (r: bool)
    ensures
        r == has_prefix(s@, p@),
{
    let n = s.unicode_len();
    let m = p.unicode_len();
    m <= n && matches_at(s, 0, p)
}

fn ends_with(s: &str, p: &str) -> (r: bool)
    ensures
        r == has_suffix(s@, p@),
{
    let n = s.unicode_len();
    let m = p.unicode_len();
    m <= n && matches_at(s, n - m, p)
}

/// Judges a schema path by its prefix and suffix.
pub fn schema_source(path: &str) -> (r: SchemaSource)
    ensures
        r == source_of(path@),
{
    if starts_with(path, "http://") || starts_with(path, "https://") {
        SchemaSource::Remote
    } else if ends_with(path, ".graphql") {
        SchemaSource::SchemaFile
    } else if ends_with(path, ".json") {
        SchemaSource::JsonFile
    } else {
        SchemaSource::Unsupported
    }
}

/// The plugin to run: the one named on the command line, else the configured
/// one; `None` when that name is empty.
pub fn select_plugin(requested: Option<String>, configured: String) -> (r: Option<String>)
    ensures
        ({
            let chosen = match requested {
                Some(p) => p@,
                None => configured@,
            };
            match r {
                Some(p) => p@ == chosen && chosen.len() > 0,
                None => chosen.len() == 0,
            }
        }),
{
    let chosen = match requested {
        Some(p) => p,
        None => configured,
    };
    if chosen.as_str().unicode_len() == 0 {
        None
    } else {
        Some(chosen)
    }
}

/// The name of the program that runs plugin `plugin`.
pub fn plugin_program(plugin: &str) -> (r: String)
    ensures
        r@ == "graphqlgen_"@ + plugin@,
{
    concat(concat(String::new(), "graphqlgen_"), plugin)
}

/// What a plugin reads on its input: the output directory on one line, the
/// serialized document on the next.
pub fn handoff_text(output_dir: &str, document_json: &str) -> (r: String)
    ensures
        r@ == output_dir@ + "\n"@ + document_json@ + "\n"@,
{
    concat(concat(concat(concat(String::new(), output_dir), "\n"), document_json), "\n")
}

} // verus!
