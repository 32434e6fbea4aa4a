//! One external command that bootstrap runs, and how it is shown to the user
//! as a shell line.
use crate::text::{
    char_is_ident, chars_to_string, concat2, concat3, is_ascii_alnum, join, join_chars, lit_then,
    replace, replace_slice, str_chars, strings_view, with_lit, words_view,
};
use vstd::prelude::*;

verus! {

#[derive(Debug, Clone, PartialEq, Eq)]
pub struct CommandStep {
    pub program: String,
    pub args: Vec<String>,
    pub path_prepend: Vec<String>,
    pub env: Vec<(String, String)>,
}

/// Mathematical view of a `CommandStep`.
pub struct StepView {
    pub program: Seq<char>,
    pub args: Seq<Seq<char>>,
    pub path_prepend: Seq<Seq<char>>,
    pub env: Seq<(Seq<char>, Seq<char>)>,
}

pub open spec fn pairs_view(p: Seq<(String, String)>) -> Seq<(Seq<char>, Seq<char>)> {
    p.map_values(|kv: (String, String)| (kv.0@, kv.1@))
}

impl View for CommandStep {
    type V = StepView;

    open spec fn view(&self) -> StepView {
        StepView {
            program: self.program@,
            args: strings_view(self.args@),
            path_prepend: strings_view(self.path_prepend@),
            env: pairs_view(self.env@),
        }
    }
}

/// Characters that a shell word may hold without quoting.
pub open spec fn is_shell_safe(c: char) -> bool {
    ||| is_ascii_alnum(c)
    ||| c == '-'
    ||| c == '_'
    ||| c == '.'
    ||| c == '/'
    ||| c == ':'
    ||| c == '='
    ||| c == '@'
    ||| c == '~'
}

pub open spec fn all_shell_safe(s: Seq<char>) -> bool {
    forall|k: int| 0 <= k < s.len() ==> is_shell_safe(#[trigger] s[k])
}

/// `s` as one shell word: unchanged when every character is safe, otherwise
/// in single quotes, each single quote written as `'\''`.
pub open spec fn shell_quote(s: Seq<char>) -> Seq<char> {
    if all_shell_safe(s) {
        s
    } else {
        "'"@ + replace(s, "'"@, "'\\''"@) + "'"@
    }
}

pub open spec fn env_word(kv: (Seq<char>, Seq<char>)) -> Seq<char> {
    kv.0 + "="@ + shell_quote(kv.1)
}

pub open spec fn path_word(path: Seq<Seq<char>>) -> Seq<char> {
    "PATH="@ + join(path.map_values(|p: Seq<char>| shell_quote(p)), ":"@) + ":$PATH"@
}

/// The words of the shell line: the environment assignments, the `PATH`
/// prefix when there is one, the program and its arguments.
pub open spec fn shell_words(st: StepView) -> Seq<Seq<char>> {
    st.env.map_values(|kv: (Seq<char>, Seq<char>)| env_word(kv)) + (if st.path_prepend.len() > 0 {
        seq![path_word(st.path_prepend)]
    } else {
        Seq::empty()
    }) + seq![shell_quote(st.program)] + st.args.map_values(|a: Seq<char>| shell_quote(a))
}

pub open spec fn shell_line(st: StepView) -> Seq<char> {
    join(shell_words(st), " "@)
}

fn char_is_shell_safe(c: char) -> (r: bool)
    ensures
        r == is_shell_safe(c),
{
    let n = c as u32;
    (0x30 <= n && n <= 0x39) || (0x41 <= n && n <= 0x5A) || (0x61 <= n && n <= 0x7A) || c == '-'
        || c == '_' || c == '.' || c == '/' || c == ':' || c == '=' || c == '@' || c == '~'
}

fn quote_chars(s: &[char]) -> (out: Vec<char>)
    ensures
        out@ == shell_quote(s@),
{
    let mut i: usize = 0;
    let mut safe = true;
    while i < s.len()
        invariant
            i <= s.len(),
            safe == (forall|k: int| 0 <= k < i ==> is_shell_safe(#[trigger] s@[k])),
        decreases s.len() - i,
    {
        if !char_is_shell_safe(s[i]) {
            safe = false;
        }
        i += 1;
    }
    if safe {
        concat2(s, &[])
    } else {
        let q = str_chars("'");
        let esc = str_chars("'\\''");
        proof {
            reveal_strlit("'");
        }
        let body = replace_slice(s, q.as_slice(), esc.as_slice());
        with_lit(lit_then("'", body.as_slice()).as_slice(), "'")
    }
}

/// `s` quoted for a POSIX shell when it holds anything beyond
/// `[A-Za-z0-9-_./:=@~]`.
pub fn shell_quote_str(s: &str) -> (r: String)
    ensures
        r@ == shell_quote(s@),
{
    let c = str_chars(s);
    chars_to_string(quote_chars(c.as_slice()).as_slice())
}

impl CommandStep {
    /// A step that runs `program` with `args`.
    pub fn new<const N: usize>(program: &str, args: [&str; N]) -> (s: Self)
        ensures
            s@.program == program@,
            s@.args == args@.map_values(|a: &str| a@),
            s@.path_prepend.len() == 0,
            s@.env.len() == 0,
    {
        let mut v: Vec<String> = Vec::new();
        let mut i: usize = 0;
        while i < N
            invariant
                i <= N,
                N == args@.len(),
                strings_view(v@) == args@.map_values(|a: &str| a@).take(i as int),
            decreases N - i,
        {
            let ghost before = v@;
            let a: String = args[i].to_owned();
            v.push(a);
            proof {
                let m = args@.map_values(|a: &str| a@);
                assert(a@ == m[i as int]);
                assert(strings_view(v@) =~= strings_view(before).push(a@));
                assert(m.take(i + 1) =~= m.take(i as int).push(m[i as int]));
            }
            i += 1;
        }
        proof {
            assert(args@.map_values(|a: &str| a@).take(N as int) =~= args@.map_values(
                |a: &str| a@,
            ));
        }
        CommandStep { program: program.to_owned(), args: v, path_prepend: Vec::new(), env: Vec::new() }
    }

    /// A step that runs `program` with an argument list built at run time.
    pub fn from_vec(program: String, args: Vec<String>) -> (s: Self)
        ensures
            s@.program == program@,
            s@.args == strings_view(args@),
            s@.path_prepend.len() == 0,
            s@.env.len() == 0,
    {
        CommandStep { program, args, path_prepend: Vec::new(), env: Vec::new() }
    }

    /// The same step with `path` added to the directories put before `PATH`.
    pub fn with_path_prepend(self, path: String) -> (s: Self)
        ensures
            s@.program == self@.program,
            s@.args == self@.args,
            s@.path_prepend == self@.path_prepend.push(path@),
            s@.env == self@.env,
    {
        let mut s = self;
        s.path_prepend.push(path);
        proof {
            assert(strings_view(s.path_prepend@) =~= self@.path_prepend.push(path@));
        }
        s
    }

    /// The same step with the environment variable `key=value` added.
    pub fn with_env(self, key: String, value: String) -> (s: Self)
        ensures
            s@.program == self@.program,
            s@.args == self@.args,
            s@.path_prepend == self@.path_prepend,
            s@.env == self@.env.push((key@, value@)),
    {
        let mut s = self;
        s.env.push((key, value));
        proof {
            assert(pairs_view(s.env@) =~= self@.env.push((key@, value@)));
        }
        s
    }

    /// The same step with the environment variables `envs` added, in order.
    pub fn with_envs(self, envs: Vec<(String, String)>) -> (s: Self)
        ensures
            s@.program == self@.program,
            s@.args == self@.args,
            s@.path_prepend == self@.path_prepend,
            s@.env == self@.env + pairs_view(envs@),
    {
        let mut s = self;
        let ghost all = pairs_view(envs@);
        let mut i: usize = 0;
        while i < envs.len()
            invariant
                i <= envs.len(),
                all == pairs_view(envs@),
                s@.program == self@.program,
                s@.args == self@.args,
                s@.path_prepend == self@.path_prepend,
                s@.env == self@.env + all.take(i as int),
            decreases envs.len() - i,
        {
            let kv = (envs[i].0.clone(), envs[i].1.clone());
            let ghost env_before = s@.env;
            s.env.push(kv);
            proof {
                assert(pairs_view(s.env@) =~= env_before.push(all[i as int]));
                assert(all.take(i + 1) =~= all.take(i as int).push(all[i as int]));
            }
            i += 1;
        }
        proof {
            assert(all.take(envs.len() as int) =~= all);
        }
        s
    }

    /// The step as a shell line, as it is shown to the user.
    pub fn display_shell(&self) -> (r: String)
        ensures
            r@ == shell_line(self@),
    {
        let ghost st = self@;
        let ghost words = shell_words(st);
        let mut parts: Vec<Vec<char>> = Vec::new();
        let mut i: usize = 0;
        let ghost env_words = st.env.map_values(|kv: (Seq<char>, Seq<char>)| env_word(kv));
        while i < self.env.len()
            invariant
                i <= self.env.len(),
                st == self@,
                env_words == st.env.map_values(|kv: (Seq<char>, Seq<char>)| env_word(kv)),
                words_view(parts@) == env_words.take(i as int),
            decreases self.env.len() - i,
        {
            let key = str_chars(self.env[i].0.as_str());
            let value = str_chars(self.env[i].1.as_str());
            let w = concat2(with_lit(key.as_slice(), "=").as_slice(), quote_chars(value.as_slice()).as_slice());
            let ghost before = words_view(parts@);
            parts.push(w);
            proof {
                assert(words_view(parts@) =~= before.push(w@));
                assert(env_words.take(i + 1) =~= env_words.take(i as int).push(env_words[i as int]));
            }
            i += 1;
        }
        proof {
            assert(env_words.take(self.env.len() as int) =~= env_words);
        }
        let ghost after_env = words_view(parts@);
        if self.path_prepend.len() > 0 {
            let mut quoted: Vec<Vec<char>> = Vec::new();
            let ghost qs = st.path_prepend.map_values(|p: Seq<char>| shell_quote(p));
            let mut j: usize = 0;
            while j < self.path_prepend.len()
                invariant
                    j <= self.path_prepend.len(),
                    st == self@,
                    qs == st.path_prepend.map_values(|p: Seq<char>| shell_quote(p)),
                    words_view(quoted@) == qs.take(j as int),
                decreases self.path_prepend.len() - j,
            {
                let p = str_chars(self.path_prepend[j].as_str());
                let q = quote_chars(p.as_slice());
                let ghost before = words_view(quoted@);
                quoted.push(q);
                proof {
                    assert(words_view(quoted@) =~= before.push(q@));
                    assert(qs.take(j + 1) =~= qs.take(j as int).push(qs[j as int]));
                }
                j += 1;
            }
            proof {
                assert(qs.take(self.path_prepend.len() as int) =~= qs);
            }
            let joined = join_chars(quoted.as_slice(), ":");
            let w = with_lit(lit_then("PATH=", joined.as_slice()).as_slice(), ":$PATH");
            parts.push(w);
            proof {
                assert(words_view(parts@) =~= after_env.push(path_word(st.path_prepend)));
            }
        }
        let ghost after_path = words_view(parts@);
        let program = str_chars(self.program.as_str());
        parts.push(quote_chars(program.as_slice()));
        proof {
            assert(words_view(parts@) =~= after_path.push(shell_quote(st.program)));
        }
        let ghost after_program = words_view(parts@);
        let ghost arg_words = st.args.map_values(|a: Seq<char>| shell_quote(a));
        let mut k: usize = 0;
        while k < self.args.len()
            invariant
                k <= self.args.len(),
                st == self@,
                arg_words == st.args.map_values(|a: Seq<char>| shell_quote(a)),
                words_view(parts@) == after_program + arg_words.take(k as int),
            decreases self.args.len() - k,
        {
            let a = str_chars(self.args[k].as_str());
            let q = quote_chars(a.as_slice());
            let ghost before = words_view(parts@);
            parts.push(q);
            proof {
                assert(words_view(parts@) =~= before.push(q@));
                assert(arg_words.take(k + 1) =~= arg_words.take(k as int).push(arg_words[k as int]));
            }
            k += 1;
        }
        proof {
            assert(arg_words.take(self.args.len() as int) =~= arg_words);
            assert(words_view(parts@) =~= words);
        }
        chars_to_string(join_chars(parts.as_slice(), " ").as_slice())
    }
}

} // verus!
