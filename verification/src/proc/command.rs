//! Building the OS command for a process definition.
//!
//! A definition either names a container image — run through a `docker run`
//! invocation that carries the environment as `-e` flags and mounts the
//! working directory — or a local command line, split into shell words,
//! with the environment and working directory applied directly.

use vstd::prelude::*;

use crate::proc::process::ProcessConfig;
use crate::proc::ProcError;

verus! {

/// A fully constructed command, ready for the embedder to hand to the OS:
/// a program, its arguments, extra environment entries and an optional
/// working directory.
#[derive(Debug, Clone)]
pub struct CommandSpec {
    pub program: String,
    pub args: Vec<String>,
    pub env: Vec<(String, String)>,
    pub directory: Option<String>,
}

/// The mathematical shape of a [`CommandSpec`].
pub ghost struct CommandModel {
    pub program: Seq<char>,
    pub args: Seq<Seq<char>>,
    pub env: Seq<(Seq<char>, Seq<char>)>,
    pub directory: Option<Seq<char>>,
}

impl View for CommandSpec {
    type V = CommandModel;

    open spec fn view(&self) -> CommandModel {
        CommandModel {
            program: self.program@,
            args: self.args.deep_view(),
            env: self.env.deep_view(),
            directory: self.directory.deep_view(),
        }
    }
}

/// What shell-word splitting returns for a command line; `None` marks an
/// erroneous line (for instance an unclosed quote).
pub uninterp spec fn shell_split(s: Seq<char>) -> Option<Seq<Seq<char>>>;

/// Relies on `shlex::split`: shell-style word splitting, a pure function of
/// the input string, returning `None` on erroneous input.
#[verifier::external_body]
fn split_words(s: &String) -> (r: Option<Vec<String>>)
    ensures
        r.deep_view() == shell_split(s@),
{
    shlex::split(s.as_str())
}

/// The `-e key=value` argument pairs that pass an environment to a
/// container run, in the order the entries appear.
pub open spec fn env_flag_args(env: Seq<(Seq<char>, Seq<char>)>) -> Seq<Seq<char>>
    decreases env.len(),
{
    if env.len() == 0 {
        Seq::empty()
    } else {
        env_flag_args(env.drop_last()) + seq!["-e"@, env.last().0 + "="@ + env.last().1]
    }
}

/// The arguments that mount an optional working directory into a container
/// run.
pub open spec fn mount_args(directory: Option<Seq<char>>) -> Seq<Seq<char>> {
    match directory {
        Some(d) => seq!["-w"@, "/opt/mounted"@, "-v"@, d],
        None => Seq::empty(),
    }
}

/// The command constructed for a definition, or the error that refuses it.
///
/// With an image, the command is a `docker run --rm` invocation carrying
/// the environment flags, the optional mount, the image, and the shell
/// words of the optional command. Without an image the command line itself
/// is mandatory and is split into shell words, the first of which is the
/// program.
pub open spec fn built_command(
    image: Option<Seq<char>>,
    command: Option<Seq<char>>,
    directory: Option<Seq<char>>,
    env: Seq<(Seq<char>, Seq<char>)>,
) -> Result<CommandModel, ProcError> {
    match image {
        Some(img) => {
            let base = seq!["run"@, "--rm"@] + env_flag_args(env) + mount_args(directory) + seq![
                img,
            ];
            match command {
                Some(c) => match shell_split(c) {
                    Some(words) => Ok(
                        CommandModel {
                            program: "docker"@,
                            args: base + words,
                            env: Seq::empty(),
                            directory: None,
                        },
                    ),
                    None => Err(ProcError::BadCommandString),
                },
                None => Ok(
                    CommandModel {
                        program: "docker"@,
                        args: base,
                        env: Seq::empty(),
                        directory: None,
                    },
                ),
            }
        },
        None => match command {
            Some(c) => match shell_split(c) {
                Some(words) => if words.len() == 0 {
                    Err(ProcError::MissingCommand)
                } else {
                    Ok(
                        CommandModel {
                            program: words[0],
                            args: words.drop_first(),
                            env: env,
                            directory: directory,
                        },
                    )
                },
                None => Err(ProcError::BadCommandString),
            },
            None => Err(ProcError::MissingCommand),
        },
    }
}

/// Construct the OS command for a definition, as [`built_command`]
/// describes, or report why it cannot be constructed.
pub fn build_command<T: ProcessConfig>(from: &T) -> (r: Result<CommandSpec, ProcError>)
    ensures
        ({
            let b = built_command(
                from.spec_image(),
                from.spec_command(),
                from.spec_directory(),
                from.spec_environment(),
            );
            match r {
                Ok(c) => b == Ok::<CommandModel, ProcError>(c@),
                Err(e) => b == Err::<CommandModel, ProcError>(e),
            }
        }),
{
    match from.image() {
        Some(image) => {
            let mut args: Vec<String> = Vec::new();
            args.push("run".to_owned());
            args.push("--rm".to_owned());
            assert(args.deep_view() =~~= seq!["run"@, "--rm"@]);
            let env = from.environment();
            let ghost head: Seq<Seq<char>> = seq!["run"@, "--rm"@];
            proof {
                assert(args.deep_view() =~~= head + env_flag_args(env.deep_view().take(0)));
            }
            let mut k: usize = 0;
            while k < env.len()
                invariant
                    k <= env@.len(),
                    env.deep_view() == from.spec_environment(),
                    env.deep_view().len() == env@.len(),
                    args.deep_view().len() == args@.len(),
                    args.deep_view() == head + env_flag_args(env.deep_view().take(k as int)),
                decreases env@.len() - k,
            {
                let ghost pre = args.deep_view();
                let kv = &env[k];
                let mut pair = kv.0.clone();
                pair.append("=");
                pair.append(kv.1.as_str());
                args.push("-e".to_owned());
                args.push(pair);
                proof {
                    let dv = env.deep_view();
                    let flag: Seq<Seq<char>> = seq!["-e"@, dv[k as int].0 + "="@ + dv[k as int].1];
                    assert(dv.take(k + 1).drop_last() =~~= dv.take(k as int));
                    assert(dv.take(k + 1).last() == dv[k as int]);
                    assert(dv[k as int] == (kv.0@, kv.1@));
                    assert(pair@ == dv[k as int].0 + "="@ + dv[k as int].1);
                    assert(args.deep_view() =~~= pre + flag);
                    assert(env_flag_args(dv.take(k + 1)) == env_flag_args(dv.take(k as int)) + flag);
                    assert(pre + flag =~~= head + env_flag_args(dv.take(k + 1)));
                    assert(args.deep_view() =~~= head + env_flag_args(dv.take(k + 1)));
                }
                k += 1;
            }
            proof {
                assert(env.deep_view().take(env@.len() as int) =~~= env.deep_view());
            }
            match from.directory() {
                Some(d) => {
                    args.push("-w".to_owned());
                    args.push("/opt/mounted".to_owned());
                    args.push("-v".to_owned());
                    args.push(d);
                    assert(args.deep_view() =~~= head + env_flag_args(from.spec_environment())
                        + mount_args(from.spec_directory()));
                },
                None => {
                    assert(args.deep_view() =~~= head + env_flag_args(from.spec_environment())
                        + mount_args(from.spec_directory()));
                },
            }
            args.push(image);
            let ghost base = head + env_flag_args(from.spec_environment()) + mount_args(
                from.spec_directory(),
            );
            assert(args.deep_view() =~~= base + seq![from.spec_image().unwrap()]);
            match from.command() {
                Some(c2) => {
                    let words = match split_words(&c2) {
                        Some(w) => w,
                        None => {
                            return Err(ProcError::BadCommandString);
                        },
                    };
                    let ghost old_args = args.deep_view();
                    let ghost words_dv = words.deep_view();
                    proof {
                        assert(args.deep_view() =~~= old_args + words_dv.take(0));
                    }
                    let mut idx: usize = 0;
                    while idx < words.len()
                        invariant
                            idx <= words@.len(),
                            words.deep_view() == words_dv,
                            words_dv.len() == words@.len(),
                            args@.len() == old_args.len() + idx,
                            args.deep_view() == old_args + words_dv.take(idx as int),
                        decreases words@.len() - idx,
                    {
                        let ghost pre = args.deep_view();
                        let w = words[idx].clone();
                        args.push(w);
                        proof {
                            assert(w@ == words_dv[idx as int]);
                            assert(args.deep_view() =~~= pre.push(words_dv[idx as int]));
                            assert(words_dv.take(idx + 1) =~~= words_dv.take(idx as int).push(
                                words_dv[idx as int]));
                            assert(args.deep_view() =~~= old_args + words_dv.take(idx + 1));
                        }
                        idx += 1;
                    }
                    proof {
                        assert(words_dv.take(words@.len() as int) =~~= words_dv);
                    }
                    let empty_env: Vec<(String, String)> = Vec::new();
                    proof {
                        assert(empty_env.deep_view() =~~= Seq::<(Seq<char>, Seq<char>)>::empty());
                    }
                    Ok(
                        CommandSpec {
                            program: "docker".to_owned(),
                            args,
                            env: empty_env,
                            directory: None,
                        },
                    )
                },
                None => {
                    let empty_env: Vec<(String, String)> = Vec::new();
                    proof {
                        assert(empty_env.deep_view() =~~= Seq::<(Seq<char>, Seq<char>)>::empty());
                    }
                    Ok(
                        CommandSpec {
                            program: "docker".to_owned(),
                            args,
                            env: empty_env,
                            directory: None,
                        },
                    )
                },
            }
        },
        None => {
            let command = match from.command() {
                Some(c) => c,
                None => {
                    return Err(ProcError::MissingCommand);
                },
            };
            let words = match split_words(&command) {
                Some(w) => w,
                None => {
                    return Err(ProcError::BadCommandString);
                },
            };
            if words.len() == 0 {
                return Err(ProcError::MissingCommand);
            }
            let program = words[0].clone();
            let ghost words_dv = words.deep_view();
            let mut args: Vec<String> = Vec::new();
            proof {
                assert(args.deep_view() =~~= words_dv.subrange(1, 1));
            }
            let mut idx: usize = 1;
            while idx < words.len()
                invariant
                    1 <= idx <= words@.len(),
                    words.deep_view() == words_dv,
                    words_dv.len() == words@.len(),
                    args@.len() == idx - 1,
                    args.deep_view() == words_dv.subrange(1, idx as int),
                decreases words@.len() - idx,
            {
                let w = words[idx].clone();
                args.push(w);
                proof {
                    assert(args.deep_view() =~~= words_dv.subrange(1, idx + 1));
                }
                idx += 1;
            }
            proof {
                assert(words_dv.subrange(1, words@.len() as int) =~~= words_dv.drop_first());
            }
            Ok(
                CommandSpec {
                    program,
                    args,
                    env: from.environment(),
                    directory: from.directory(),
                },
            )
        },
    }
}

} // verus!
