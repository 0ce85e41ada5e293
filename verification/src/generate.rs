//! Project scaffolding support: the default-project-name sequencer and the
//! plan for invoking the external scaffolding tool. The tool itself is a
//! subprocess and runs outside this crate; callers execute the plan.

use vstd::prelude::*;
use crate::global_user::GlobalConfig;
use crate::text::{
    contains_str, dec_of, digits_part, digits_val, has_substring, is_count_token, parse_count,
    u64_to_dec,
};

verus! {

/// Index just after the last `-` of `s`, or 0 where `s` holds none: where
/// the final segment of the `-`-separated name begins.
pub open spec fn tail_start(s: Seq<char>) -> int
    decreases s.len(),
{
    if s.len() == 0 {
        0
    } else if s.last() == '-' {
        s.len() as int
    } else {
        tail_start(s.drop_last())
    }
}

/// The next default project name: where the final `-`-separated segment
/// parses as a number, that segment is replaced by its successor; otherwise
/// `-1` is appended whole.
pub open spec fn next_name_spec(s: Seq<char>) -> Seq<char> {
    let t = tail_start(s);
    let tail = s.subrange(t, s.len() as int);
    if is_count_token(tail) {
        s.subrange(0, t) + dec_of(digits_val(digits_part(tail)) + 1)
    } else {
        s + "-1"@
    }
}

proof fn lemma_tail_start_at(s: Seq<char>, t: int)
    requires
        0 <= t <= s.len(),
        forall|j: int| t <= j < s.len() ==> s[j] != '-',
        t > 0 ==> s[t - 1] == '-',
    ensures
        tail_start(s) == t,
    decreases s.len(),
{
    if s.len() == 0 {
    } else if s.last() == '-' {
        assert(t == s.len());
    } else {
        assert(t < s.len());
        lemma_tail_start_at(s.drop_last(), t);
    }
}

/// The pure sequencer: derives the next default project name from the
/// current one.
pub fn next_project_name(current: &str) -> (r: String)
    ensures
        r@ == next_name_spec(current@),
{
    let n = current.unicode_len();
    let mut t: usize = n;
    while t > 0
        invariant
            t <= n,
            n == current@.len(),
            forall|j: int| t <= j < n ==> current@[j] != '-',
        ensures
            t <= n,
            n == current@.len(),
            forall|j: int| t <= j < n ==> current@[j] != '-',
            t > 0 ==> current@[t - 1] == '-',
        decreases t,
    {
        let c = current.get_char(t - 1);
        if c == '-' {
            break;
        }
        t = t - 1;
    }
    proof {
        lemma_tail_start_at(current@, t as int);
    }
    let tail = current.substring_char(t, n);
    match parse_count(tail) {
        Some(v) => {
            let prefix = current.substring_char(0, t);
            let mut out = String::from_str(prefix);
            let count = u64_to_dec(v + 1);
            out.append(count.as_str());
            out
        },
        None => {
            let mut out = String::from_str(current);
            out.append("-1");
            out
        },
    }
}

/// The sequencer applied to a config's persisted default project name.
pub fn generate_project_name(global_config: &GlobalConfig) -> (r: String)
    ensures
        r@ == next_name_spec(global_config.next_default_project@),
{
    next_project_name(global_config.next_default_project.as_str())
}

/// The config as it is persisted after a scaffold: the same identity, with
/// the default project name advanced once. Writing the returned value to the
/// config file is the caller's part.
pub fn write_project_name(global_config: &GlobalConfig) -> (r: GlobalConfig)
    ensures
        r.global_user == global_config.global_user,
        r.next_default_project@ == next_name_spec(global_config.next_default_project@),
{
    GlobalConfig {
        global_user: global_config.global_user.clone(),
        next_default_project: generate_project_name(global_config),
    }
}

/// What kind of project a template scaffolds.
#[derive(Clone, Copy, Debug, PartialEq, Eq, Structural)]
pub enum ProjectType {
    Webpack,
    Rust,
}

impl Default for ProjectType {
    /// The kind assumed when a template gives no hint.
    fn default() -> (r: Self)
        ensures
            r == ProjectType::Webpack,
    {
        ProjectType::Webpack
    }
}

/// Guesses the project kind from the template name.
pub fn project_type(template: &str) -> (r: ProjectType)
    ensures
        r == (if has_substring(template@, "rust"@) {
            ProjectType::Rust
        } else {
            ProjectType::Webpack
        }),
{
    if contains_str(template, "rust") {
        ProjectType::Rust
    } else {
        ProjectType::Webpack
    }
}

/// The arguments handed to the scaffolding tool.
pub open spec fn generate_args_spec(template: Seq<char>, name: Seq<char>) -> Seq<Seq<char>> {
    seq!["generate"@, "--git"@, template, "--name"@, name, "--force"@]
}

/// Everything the caller needs to run the scaffolding tool: its arguments
/// and the kind of project being generated.
pub struct GeneratePlan {
    pub tool_args: Vec<String>,
    pub project_type: ProjectType,
}

/// Plans a scaffold: fixed tool arguments around the template and name, and
/// the project kind, guessed from the template where none is given.
pub fn generate(name: &str, template: &str, pt: Option<ProjectType>) -> (r: GeneratePlan)
    ensures
        r.tool_args.deep_view() == generate_args_spec(template@, name@),
        r.project_type == (match pt {
            Some(t) => t,
            None => if has_substring(template@, "rust"@) {
                ProjectType::Rust
            } else {
                ProjectType::Webpack
            },
        }),
{
    let mut tool_args: Vec<String> = Vec::new();
    tool_args.push(String::from_str("generate"));
    tool_args.push(String::from_str("--git"));
    tool_args.push(String::from_str(template));
    tool_args.push(String::from_str("--name"));
    tool_args.push(String::from_str(name));
    tool_args.push(String::from_str("--force"));
    proof {
        assert(tool_args.deep_view() =~= generate_args_spec(template@, name@));
    }
    let project_type = match pt {
        Some(t) => t,
        None => project_type(template),
    };
    GeneratePlan { tool_args, project_type }
}

} // verus!
