//! Writing a command out as one line of text, the way it would be typed:
//! the variables set for it, the program, the arguments.

use vstd::prelude::*;
use vstd::string::StringExecFns;

verus! {

/// One entry of a command's environment.
#[derive(Debug, PartialEq, Eq)]
pub struct EnvVar {
    /// The variable's name.
    pub name: String,
    /// The value it is set to, or `None` where the command clears it.
    pub value: Option<String>,
}

/// A command: a program, its arguments, and the changes it makes to the
/// environment it inherits.
#[derive(Debug, PartialEq, Eq)]
pub struct CommandLine {
    /// The program to run.
    pub program: String,
    /// The arguments, in order.
    pub args: Vec<String>,
    /// The environment entries, in the order they are to be shown.
    pub envs: Vec<EnvVar>,
}

impl EnvVar {
    /// Whether the entry is written out. A cleared variable is not, and
    /// neither is `PATH`, which every nested build sets.
    pub open spec fn is_shown(self) -> bool {
        self.name@ != "PATH"@ && self.value is Some
    }

    /// The entry as text: name, an equals sign, value.
    pub open spec fn text(self) -> Seq<char>
        recommends
            self.value is Some,
    {
        self.name@ + seq!['='] + self.value->0@
    }
}

impl CommandLine {
    /// The words of the line: one for each entry that is shown, then the
    /// program, then the arguments.
    pub open spec fn words(self) -> Seq<Seq<char>> {
        self.envs@.filter(|e: EnvVar| e.is_shown()).map_values(|e: EnvVar| e.text()) + seq![
            self.program@,
        ] + self.args@.map_values(|a: String| a@)
    }
}

/// The words with one space between each two of them.
pub open spec fn join_words(words: Seq<Seq<char>>) -> Seq<char>
    decreases words.len(),
{
    if words.len() == 0 {
        Seq::empty()
    } else if words.len() == 1 {
        words[0]
    } else {
        join_words(words.drop_last()) + seq![' '] + words.last()
    }
}

/// Joining one more word to a line adds a space, unless the word is the
/// first, and then the word.
proof fn lemma_join_push(words: Seq<Seq<char>>, word: Seq<char>)
    ensures
        join_words(words.push(word)) == if words.len() == 0 {
            word
        } else {
            join_words(words) + seq![' '] + word
        },
{
    assert(words.push(word).drop_last() =~= words);
}

/// Adds one word to a line that holds `words` so far.
fn push_word(line: &mut String, word: &str, first: bool, Ghost(words): Ghost<Seq<Seq<char>>>)
    requires
        old(line)@ == join_words(words),
        first <==> words.len() == 0,
    ensures
        final(line)@ == join_words(words.push(word@)),
{
    proof {
        reveal_strlit(" ");
        lemma_join_push(words, word@);
    }
    if !first {
        line.append(" ");
    }
    line.append(word);
}

/// The command on one line: `VAR=value program arg1 arg2`.
///
/// The entries of the environment come first, in the order given, each
/// as `name=value`; entries for `PATH` and cleared variables are left
/// out. Then come the program and the arguments. One space stands between
/// each two words.
pub fn command_to_string(cmd: &CommandLine) -> (line: String)
    ensures
        line@ == join_words(cmd.words()),
{
    let ghost shown = |e: EnvVar| e.is_shown();
    let ghost text = |e: EnvVar| e.text();
    let ghost plain = |a: String| a@;
    let path = "PATH".to_owned();
    let mut line = String::new();
    let mut first = true;
    let ghost mut words: Seq<Seq<char>> = Seq::empty();
    let mut i: usize = 0;
    while i < cmd.envs.len()
        invariant
            i <= cmd.envs.len(),
            path@ == "PATH"@,
            shown == |e: EnvVar| e.is_shown(),
            text == |e: EnvVar| e.text(),
            words == cmd.envs@.take(i as int).filter(shown).map_values(text),
            line@ == join_words(words),
            first <==> words.len() == 0,
        decreases cmd.envs.len() - i,
    {
        let entry = &cmd.envs[i];
        proof {
            let sofar = cmd.envs@.take(i as int);
            assert(cmd.envs@.take(i + 1) =~= sofar.push(*entry));
            sofar.lemma_filter_push(*entry, shown);
        }
        if entry.name != path {
            if let Some(value) = &entry.value {
                let mut word = String::new();
                word.append(entry.name.as_str());
                word.append("=");
                word.append(value.as_str());
                proof {
                    reveal_strlit("=");
                    assert(word@ =~= entry.text());
                    assert(cmd.envs@.take(i + 1).filter(shown).map_values(text) =~= words.push(
                        word@,
                    ));
                }
                push_word(&mut line, word.as_str(), first, Ghost(words));
                first = false;
                proof {
                    words = words.push(word@);
                }
            }
        }
        i += 1;
    }
    assert(cmd.envs@.take(i as int) =~= cmd.envs@);
    let ghost env_words = words;
    push_word(&mut line, cmd.program.as_str(), first, Ghost(words));
    proof {
        words = words.push(cmd.program@);
    }
    let mut j: usize = 0;
    while j < cmd.args.len()
        invariant
            j <= cmd.args.len(),
            plain == |a: String| a@,
            words == env_words + seq![cmd.program@] + cmd.args@.take(j as int).map_values(plain),
            line@ == join_words(words),
        decreases cmd.args.len() - j,
    {
        push_word(&mut line, cmd.args[j].as_str(), false, Ghost(words));
        proof {
            assert(cmd.args@.take(j + 1).map_values(plain) =~= cmd.args@.take(j as int).map_values(
                plain,
            ).push(cmd.args@[j as int]@));
            words = words.push(cmd.args@[j as int]@);
        }
        j += 1;
    }
    assert(cmd.args@.take(j as int) =~= cmd.args@);
    line
}

} // verus!
