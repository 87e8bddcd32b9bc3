//! The environment of a command run inside the development shell, from the
//! variables that `nix print-dev-env --json` reports.
use vstd::prelude::*;

use crate::model::{contains_str, find_key, lookup, str_set, str_views};
use crate::registry::{decimal, push_decimal};

verus! {

/// The output schema of `nix print-dev-env --json`.
pub struct NixDevEnv {
    pub variables: Vec<(String, Variable)>,
}

/// A shell variable of the development environment.
pub enum Variable {
    Exported(String),
    Var(String),
    Array(Vec<String>),
    Associative(Vec<(String, String)>),
}

/// Variables that belong to the shell that runs the command, not to the
/// development environment.
pub open spec fn ignored_vars() -> Seq<Seq<char>> {
    seq![
        "BASHOPTS"@, "HOME"@, "NIX_BUILD_TOP"@, "NIX_ENFORCE_PURITY"@, "NIX_LOG_FD"@,
        "NIX_REMOTE"@, "PPID"@, "SHELL"@, "SHELLOPTS"@, "SSL_CERT_FILE"@, "TEMP"@,
        "TEMPDIR"@, "TERM"@, "TMP"@, "TMPDIR"@, "TZ"@, "UID"@,
    ]
}

/// Variables whose inherited value is kept after the environment's own.
pub open spec fn prepended_vars() -> Seq<Seq<char>> {
    seq!["PATH"@, "XDG_DATA_DIRS"@]
}

fn ignored_var_names() -> (r: Vec<String>)
    ensures
        str_views(r@) == ignored_vars(),
{
    let r = vec![
        "BASHOPTS".to_owned(),
        "HOME".to_owned(),
        "NIX_BUILD_TOP".to_owned(),
        "NIX_ENFORCE_PURITY".to_owned(),
        "NIX_LOG_FD".to_owned(),
        "NIX_REMOTE".to_owned(),
        "PPID".to_owned(),
        "SHELL".to_owned(),
        "SHELLOPTS".to_owned(),
        "SSL_CERT_FILE".to_owned(),
        "TEMP".to_owned(),
        "TEMPDIR".to_owned(),
        "TERM".to_owned(),
        "TMP".to_owned(),
        "TMPDIR".to_owned(),
        "TZ".to_owned(),
        "UID".to_owned(),
    ];
    assert(str_views(r@) =~= ignored_vars());
    r
}

fn prepended_var_names() -> (r: Vec<String>)
    ensures
        str_views(r@) == prepended_vars(),
{
    let r = vec!["PATH".to_owned(), "XDG_DATA_DIRS".to_owned()];
    assert(str_views(r@) =~= prepended_vars());
    r
}

/// The value a command gets for the exported variable `name`, whose value in
/// the environment is `value`; `inherited` holds the caller's own values.
pub open spec fn export_value(
    name: Seq<char>,
    value: Seq<char>,
    inherited: Seq<(String, String)>,
) -> Seq<char> {
    if prepended_vars().contains(name) {
        match lookup(inherited, name) {
            Some(old) => value + ":"@ + old@,
            None => value,
        }
    } else {
        value
    }
}

/// The variables a command run in the environment gets, in order: the
/// exported ones that are not ignored.
pub open spec fn exports(vars: Seq<(String, Variable)>, inherited: Seq<(String, String)>) -> Seq<
    (Seq<char>, Seq<char>),
>
    decreases vars.len(),
{
    if vars.len() == 0 {
        Seq::empty()
    } else {
        let prev = exports(vars.drop_last(), inherited);
        let name = vars.last().0@;
        match vars.last().1 {
            Variable::Exported(v) => if ignored_vars().contains(name) {
                prev
            } else {
                prev.push((name, export_value(name, v@, inherited)))
            },
            _ => prev,
        }
    }
}

/// The pairs of `s`, as sequences of characters.
pub open spec fn pair_views(s: Seq<(String, String)>) -> Seq<(Seq<char>, Seq<char>)> {
    s.map_values(|p: (String, String)| (p.0@, p.1@))
}

proof fn lemma_contains_view(names: Vec<String>, expected: Seq<Seq<char>>, x: Seq<char>)
    requires
        str_views(names@) == expected,
    ensures
        str_set(names@).contains(x) == expected.contains(x),
{
    if str_set(names@).contains(x) {
        let i = choose|i: int| 0 <= i < names@.len() && names@[i]@ == x;
        assert(expected[i] == x);
    }
    if expected.contains(x) {
        let i = choose|i: int| 0 <= i < expected.len() && expected[i] == x;
        assert(names@[i]@ == x);
    }
}

impl NixDevEnv {
    /// The variables to set on a command run in this environment: each
    /// exported variable but the ignored ones, with the caller's inherited
    /// value of `PATH` or `XDG_DATA_DIRS` kept after the environment's own.
    pub fn exports(&self, inherited: &Vec<(String, String)>) -> (r: Vec<(String, String)>)
        ensures
            pair_views(r@) == exports(self.variables@, inherited@),
    {
        let ignored = ignored_var_names();
        let prepended = prepended_var_names();
        let mut r: Vec<(String, String)> = Vec::new();
        let mut i: usize = 0;
        while i < self.variables.len()
            invariant
                i <= self.variables@.len(),
                str_views(ignored@) == ignored_vars(),
                str_views(prepended@) == prepended_vars(),
                pair_views(r@) == exports(self.variables@.take(i as int), inherited@),
            decreases self.variables@.len() - i,
        {
            let ghost vars = self.variables@.take(i + 1);
            assert(vars.drop_last() =~= self.variables@.take(i as int));
            assert(vars.last() == self.variables@[i as int]);
            let name = &self.variables[i].0;
            if let Variable::Exported(value) = &self.variables[i].1 {
                proof {
                    lemma_contains_view(ignored, ignored_vars(), name@);
                    lemma_contains_view(prepended, prepended_vars(), name@);
                }
                if !contains_str(&ignored, name) {
                    let mut v = value.clone();
                    if contains_str(&prepended, name) {
                        if let Some(j) = find_key(inherited, name) {
                            v.append(":");
                            v.append(inherited[j].1.as_str());
                        }
                    }
                    let ghost before = r@;
                    r.push((name.clone(), v));
                    assert(pair_views(r@) =~= pair_views(before).push((name@, export_value(name@, value@, inherited@))));
                }
            }
            i = i + 1;
        }
        assert(self.variables@.take(i as int) =~= self.variables@);
        r
    }
}

/// The value of a string of decimal digits.
pub open spec fn digits_value(s: Seq<char>) -> nat
    decreases s.len(),
{
    if s.len() == 0 {
        0
    } else {
        digits_value(s.drop_last()) * 10 + (s.last() as nat - '0' as nat) as nat
    }
}

pub open spec fn is_digit(c: char) -> bool {
    '0' <= c <= '9'
}

/// What `str::parse::<u32>` gives: an optional `+` sign, then at least one
/// decimal digit and nothing else, of a value that fits in 32 bits.
pub open spec fn u32_of_text(s: Seq<char>) -> Option<nat> {
    let body = unsigned_body(s);
    if body.len() > 0 && all_digits(body) && digits_value(body) <= u32::MAX {
        Some(digits_value(body))
    } else {
        None
    }
}

/// The text without its leading `+`, if it has one.
pub open spec fn unsigned_body(s: Seq<char>) -> Seq<char> {
    if s.len() > 0 && s[0] == '+' {
        s.drop_first()
    } else {
        s
    }
}

pub open spec fn all_digits(s: Seq<char>) -> bool {
    forall|i: int| 0 <= i < s.len() ==> is_digit(#[trigger] s[i])
}

proof fn lemma_digits_value_monotone(s: Seq<char>, k: int)
    requires
        0 <= k <= s.len(),
        forall|i: int| 0 <= i < s.len() ==> is_digit(#[trigger] s[i]),
    ensures
        digits_value(s.take(k)) <= digits_value(s),
    decreases s.len() - k,
{
    if k < s.len() {
        lemma_digits_value_monotone(s, k + 1);
        assert(s.take(k + 1).drop_last() =~= s.take(k));
        assert(s.take(k + 1).last() == s[k]);
        assert(is_digit(s[k]));
    } else {
        assert(s.take(k) =~= s);
    }
}

/// Reads `s` as `str::parse::<u32>` does.
pub fn parse_u32(s: &str) -> (r: Option<u32>)
    ensures
        match r {
            Some(n) => u32_of_text(s@) == Some(n as nat),
            None => u32_of_text(s@) is None,
        },
{
    let len = s.unicode_len();
    let mut start: usize = 0;
    if len > 0 && s.get_char(0) == '+' {
        start = 1;
    }
    let ghost body = unsigned_body(s@);
    assert(body =~= s@.subrange(start as int, s@.len() as int));
    if start >= len {
        return None;
    }
    let mut value: u64 = 0;
    let mut i: usize = start;
    while i < len
        invariant
            start <= i <= len,
            len == s@.len(),
            body == s@.subrange(start as int, len as int),
            body == unsigned_body(s@),
            value as nat == digits_value(body.take(i - start)),
            value <= u32::MAX,
            forall|j: int| 0 <= j < i - start ==> is_digit(#[trigger] body[j]),
        decreases len - i,
    {
        let c = s.get_char(i);
        assert(c == body[i - start]);
        assert(body.take(i - start + 1).drop_last() =~= body.take(i - start));
        assert(body.take(i - start + 1).last() == c);
        if !('0' <= c && c <= '9') {
            assert(!is_digit(body[i - start]));
            return None;
        }
        let next = value * 10 + ((c as u32) - ('0' as u32)) as u64;
        if next > u32::MAX as u64 {
            proof {
                if all_digits(body) {
                    lemma_digits_value_monotone(body, i - start + 1);
                }
            }
            return None;
        }
        value = next;
        i = i + 1;
    }
    assert(body.take(i - start) =~= body);
    Some(value as u32)
}

/// The value of `IN_RIFF` for a command run in the environment: one more
/// than the inherited value when that is a number, else one.
pub fn next_nesting_level(inherited: Option<&str>) -> (r: String)
    ensures
        r@ == decimal(
            match inherited {
                Some(s) => match u32_of_text(s@) {
                    Some(n) => n + 1,
                    None => 1,
                },
                None => 1,
            },
        ),
{
    let level: u64 = match inherited {
        Some(s) => match parse_u32(s) {
            Some(n) => n as u64 + 1,
            None => 1,
        },
        None => 1,
    };
    let mut r = String::new();
    push_decimal(&mut r, level);
    r
}

/// The shell to start: `$SHELL`, else the user's shell from the password
/// database, else `bash`.
pub fn choose_shell(env_shell: Option<String>, passwd_shell: Option<String>) -> (r: String)
    ensures
        r@ == match env_shell {
            Some(s) => s@,
            None => match passwd_shell {
                Some(s) => s@,
                None => "bash"@,
            },
        },
{
    match env_shell {
        Some(s) => s,
        None => match passwd_shell {
            Some(s) => s,
            None => "bash".to_owned(),
        },
    }
}

/// The byte a process exits with for an exit status: the status's low byte,
/// and zero when there is none (the process was killed by a signal).
pub fn exit_status_to_exit_code(status: Option<i32>) -> (r: u8)
    ensures
        r as int == match status {
            Some(x) => x as int % 256,
            None => 0,
        },
{
    match status {
        Some(x) => {
            let m: i64 = x as i64 % 256;
            if m < 0 {
                (m + 256) as u8
            } else {
                m as u8
            }
        },
        None => 0,
    }
}

} // verus!
