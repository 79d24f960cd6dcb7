//! What shell scripts do, by what they say: the part of the shell language that the scripts of the
//! library are written in. Each piece has its text and what a shell does when it comes to it, and
//! pieces are put together to scripts.

use crate::numbers::decimal;
use crate::shell::{shell_word, shell_words};
use crate::text::starts;
use vstd::prelude::*;

verus! {

/// A program that was started in the background, with the files that its output goes to.
#[verifier::ext_equal]
pub struct Started {
    pub script: Seq<char>,
    pub stdout: Seq<char>,
    pub stderr: Seq<char>,
}

/// What a script works on.
#[verifier::ext_equal]
pub struct Machine {
    pub vars: Map<Seq<char>, Seq<char>>,
    /// The files that are there, by their paths, and what they hold.
    pub files: Map<Seq<char>, Seq<char>>,
    /// What the script has printed.
    pub printed: Seq<char>,
    /// The commands that were run, each as its words.
    pub ran: Seq<Seq<Seq<char>>>,
    /// The exit codes that commands end with, as texts.
    pub codes: spec_fn(Seq<Seq<char>>) -> Seq<char>,
    pub started: Seq<Started>,
    /// The identifier that the next program in the background gets.
    pub next_pid: Seq<char>,
    /// The processes that a signal can still reach.
    pub alive: Set<Seq<char>>,
    /// The processes that a process has started, as far as they can be listed.
    pub below: spec_fn(Seq<char>) -> Seq<Seq<char>>,
    /// How deep processes are nested at most.
    pub depth: nat,
    /// The functions that send a signal to a process and what it started, by name.
    pub killers: Map<Seq<char>, Seq<char>>,
    /// The signals that were sent, each with its process.
    pub signals: Seq<(Seq<char>, Seq<char>)>,
    /// The code that the script was left with, once it was.
    pub left: Option<Seq<char>>,
}

/// A word of a script.
pub enum Word {
    /// A text in single quotes.
    Quoted(Seq<char>),
    /// The value of a variable with a text behind it, in double quotes.
    Of(Seq<char>, Seq<char>),
    /// A text in double quotes that stands for itself there.
    Plain(Seq<char>),
}

impl Word {
    pub open spec fn text(self) -> Seq<char> {
        match self {
            Word::Quoted(value) => shell_word(value),
            Word::Of(name, rest) => "\"$"@ + name + rest + "\""@,
            Word::Plain(value) => "\""@ + value + "\""@,
        }
    }

    pub open spec fn value(self, m: Machine) -> Seq<char> {
        match self {
            Word::Quoted(value) => value,
            Word::Of(name, rest) => m.vars[name] + rest,
            Word::Plain(value) => value,
        }
    }
}

/// A piece of a script.
pub struct Piece {
    pub text: Seq<char>,
    pub does: spec_fn(Machine) -> Machine,
}

impl Piece {
    /// What is left of the script on a machine. Nothing is done once the script was left.
    pub open spec fn on(self, m: Machine) -> Machine {
        if m.left is Some {
            m
        } else {
            (self.does)(m)
        }
    }

    /// One piece after the other.
    pub open spec fn and_then(self, next: Piece) -> Piece {
        Piece { text: self.text + "; "@ + next.text, does: |m: Machine| next.on(self.on(m)) }
    }
}

impl Piece {
    /// One piece after the other, each on lines of its own.
    pub open spec fn and_below(self, next: Piece) -> Piece {
        Piece { text: self.text + "\n"@ + next.text, does: |m: Machine| next.on(self.on(m)) }
    }
}

/// Something that a script asks before it goes on.
pub struct Question {
    pub text: Seq<char>,
    pub holds: spec_fn(Machine) -> bool,
}

impl Question {
    pub open spec fn and(self, other: Question) -> Question {
        Question {
            text: self.text + " && "@ + other.text,
            holds: |m: Machine| (self.holds)(m) && (other.holds)(m),
        }
    }
}

pub open spec fn with_var(m: Machine, name: Seq<char>, value: Seq<char>) -> Machine {
    Machine { vars: m.vars.insert(name, value), ..m }
}

/// `name=word`
pub open spec fn assign(name: Seq<char>, word: Word) -> Piece {
    Piece {
        text: name + "="@ + word.text(),
        does: |m: Machine| with_var(m, name, word.value(m)),
    }
}

/// `set -eu`, which changes nothing while all goes well.
pub open spec fn strictly() -> Piece {
    Piece { text: "set -eu"@, does: |m: Machine| m }
}

/// `mkdir -p word`
pub open spec fn make_dir(word: Word) -> Piece {
    Piece { text: "mkdir -p "@ + word.text(), does: |m: Machine| m }
}

/// `: > word`, which leaves an empty file.
pub open spec fn empty_file(word: Word) -> Piece {
    Piece {
        text: ": > "@ + word.text(),
        does: |m: Machine|
            Machine { files: m.files.insert(word.value(m), Seq::<char>::empty()), ..m },
    }
}

/// `rm -f a b c`
pub open spec fn remove_files(a: Word, b: Word, c: Word) -> Piece {
    Piece {
        text: "rm -f "@ + a.text() + " "@ + b.text() + " "@ + c.text(),
        does: |m: Machine|
            Machine {
                files: m.files.remove(a.value(m)).remove(b.value(m)).remove(c.value(m)),
                ..m
            },
    }
}

/// The path is a directory or stands below it.
pub open spec fn is_within(path: Seq<char>, dir: Seq<char>) -> bool {
    path == dir || starts(path, dir + "/"@)
}

/// `rm -rf word`
pub open spec fn remove_tree(word: Word) -> Piece {
    Piece {
        text: "rm -rf "@ + word.text(),
        does: |m: Machine|
            Machine {
                files: m.files.remove_keys(
                    Set::new(|path: Seq<char>| is_within(path, word.value(m))),
                ),
                ..m
            },
    }
}

/// `nohup /bin/sh -lc script >> out 2>> err </dev/null & name=$!`: a program is started in the
/// background, its first output goes to the one file and its second to the other, and its
/// identifier is kept.
pub open spec fn start(script: Word, out: Word, err: Word, name: Seq<char>) -> Piece {
    Piece {
        text: "nohup /bin/sh -lc "@ + script.text() + " >> "@ + out.text() + " 2>> "@ + err.text()
            + " </dev/null & "@ + name + "=$!"@,
        does: |m: Machine|
            with_var(
                Machine {
                    started: m.started.push(
                        Started {
                            script: script.value(m),
                            stdout: out.value(m),
                            stderr: err.value(m),
                        },
                    ),
                    ..m
                },
                name,
                m.next_pid,
            ),
    }
}

/// `printf "%s" "$name" > word`
pub open spec fn write_var(name: Seq<char>, word: Word) -> Piece {
    Piece {
        text: "printf \"%s\" "@ + Word::Of(name, Seq::empty()).text() + " > "@ + word.text(),
        does: |m: Machine|
            Machine { files: m.files.insert(word.value(m), m.vars[name]), ..m },
    }
}

/// `printf '%s' "$name" > word`
pub open spec fn keep_var(name: Seq<char>, word: Word) -> Piece {
    Piece {
        text: "printf '%s' "@ + Word::Of(name, Seq::empty()).text() + " > "@ + word.text(),
        does: |m: Machine|
            Machine { files: m.files.insert(word.value(m), m.vars[name]), ..m },
    }
}

/// `export name=value`, of which the commands after it learn.
pub open spec fn export(name: Seq<char>, value: Seq<char>) -> Piece {
    Piece {
        text: "export "@ + name + "="@ + value,
        does: |m: Machine| with_var(m, name, value),
    }
}

/// A command of these words, and `name=$?` after it, which keeps its exit code.
pub open spec fn run(words: Seq<Seq<char>>, name: Seq<char>) -> Piece {
    Piece {
        text: shell_words(words) + "; "@ + name + "=$?"@,
        does: |m: Machine|
            with_var(Machine { ran: m.ran.push(words), ..m }, name, (m.codes)(words)),
    }
}

/// `exit "$name"`
pub open spec fn leave_with(name: Seq<char>) -> Piece {
    Piece {
        text: "exit "@ + Word::Of(name, Seq::empty()).text(),
        does: |m: Machine| Machine { left: Some(m.vars[name]), ..m },
    }
}

/// `exit 0`
pub open spec fn leave() -> Piece {
    Piece { text: "exit 0"@, does: |m: Machine| Machine { left: Some("0"@), ..m } }
}

/// What stands before the first end of a line.
pub open spec fn line_of(s: Seq<char>) -> Seq<char>
    decreases s.len(),
{
    if s.len() == 0 || s[0] == '\n' {
        Seq::<char>::empty()
    } else {
        seq![s[0]] + line_of(s.subrange(1, s.len() as int))
    }
}

/// A text without an end of a line is its own first line.
pub proof fn plain_texts_are_one_line(s: Seq<char>)
    requires
        !s.contains('\n'),
    ensures
        line_of(s) == s,
    decreases s.len(),
{
    if s.len() > 0 {
        let rest = s.subrange(1, s.len() as int);
        assert(s.contains(s[0]));
        assert forall|i: int| 0 <= i < rest.len() implies rest[i] != '\n' by {
            assert(s.contains(s[i + 1]));
        }
        plain_texts_are_one_line(rest);
        assert(seq![s[0]] + rest =~= s);
    } else {
        assert(line_of(s) =~= s);
    }
}

/// `name=''; IFS= read -r name < word || [ -n "$name" ]`: the first line of a file, whether it
/// ends or not.
pub open spec fn read_line(name: Seq<char>, word: Word) -> Piece {
    Piece {
        text: name + "=''; IFS= read -r "@ + name + " < "@ + word.text() + " || [ -n "@ + Word::Of(
            name,
            Seq::empty(),
        ).text() + " ]"@,
        does: |m: Machine| with_var(m, name, line_of(m.files[word.value(m)])),
    }
}

/// The same with ` || exit 0` behind it: the script is left where the file holds nothing.
pub open spec fn read_line_or_leave(name: Seq<char>, word: Word) -> Piece {
    Piece {
        text: read_line(name, word).text + " || exit 0"@,
        does: |m: Machine|
            {
                let n = with_var(m, name, line_of(m.files[word.value(m)]));
                if m.files[word.value(m)].len() == 0 {
                    Machine { left: Some("0"@), ..n }
                } else {
                    n
                }
            },
    }
}

/// `printf 'text'`, of a text that stands for itself there.
pub open spec fn print(text: Seq<char>) -> Piece {
    Piece {
        text: "printf '"@ + text + "'"@,
        does: |m: Machine| Machine { printed: m.printed + text, ..m },
    }
}

/// `printf 'text%s' "$name"`
pub open spec fn print_with(text: Seq<char>, name: Seq<char>) -> Piece {
    Piece {
        text: "printf '"@ + text + "%s' "@ + Word::Of(name, Seq::empty()).text(),
        does: |m: Machine| Machine { printed: m.printed + text + m.vars[name], ..m },
    }
}

/// `printf 0`
pub open spec fn print_zero() -> Piece {
    Piece {
        text: "printf 0"@,
        does: |m: Machine| Machine { printed: m.printed + "0"@, ..m },
    }
}

/// `wc -c < word | tr -d ' '`: how many bytes a file has, on a line of its own. Of a file in
/// ASCII each character is a byte.
pub open spec fn print_size(word: Word) -> Piece {
    Piece {
        text: "wc -c < "@ + word.text() + " | tr -d ' '"@,
        does: |m: Machine|
            Machine {
                printed: m.printed + decimal(m.files[word.value(m)].len()) + seq!['\n'],
                ..m
            },
    }
}

/// What a text holds from one place on, no more than so much of it.
pub open spec fn cut(s: Seq<char>, from: int, count: int) -> Seq<char> {
    if from >= s.len() {
        Seq::<char>::empty()
    } else if from + count >= s.len() {
        s.subrange(from, s.len() as int)
    } else {
        s.subrange(from, from + count)
    }
}

/// `tail -c +first word | head -c count`: a file from its byte with this number on, counted from
/// one, and so many bytes of it.
pub open spec fn print_part(word: Word, first: nat, count: nat) -> Piece {
    Piece {
        text: "tail -c +"@ + decimal(first) + " "@ + word.text() + " | head -c "@ + decimal(count),
        does: |m: Machine|
            Machine {
                printed: m.printed + cut(m.files[word.value(m)], first - 1, count as int),
                ..m
            },
    }
}

/// `[ -f word ]`
pub open spec fn is_file(word: Word) -> Question {
    Question {
        text: "[ -f "@ + word.text() + " ]"@,
        holds: |m: Machine| m.files.contains_key(word.value(m)),
    }
}

/// `[ ! -f word ]`
pub open spec fn is_no_file(word: Word) -> Question {
    Question {
        text: "[ ! -f "@ + word.text() + " ]"@,
        holds: |m: Machine| !m.files.contains_key(word.value(m)),
    }
}

/// `[ -n "$name" ]`
pub open spec fn is_set(name: Seq<char>) -> Question {
    Question {
        text: "[ -n "@ + Word::Of(name, Seq::empty()).text() + " ]"@,
        holds: |m: Machine| m.vars[name].len() > 0,
    }
}

/// `[ "$name" = 'text' ]`
pub open spec fn equals(name: Seq<char>, text: Seq<char>) -> Question {
    Question {
        text: "[ "@ + Word::Of(name, Seq::empty()).text() + " = '"@ + text + "' ]"@,
        holds: |m: Machine| m.vars[name] == text,
    }
}

/// `kill -0 "$name" 2>/dev/null`
pub open spec fn is_alive(name: Seq<char>) -> Question {
    Question {
        text: "kill -0 "@ + Word::Of(name, Seq::empty()).text() + " 2>/dev/null"@,
        holds: |m: Machine| m.alive.contains(m.vars[name]),
    }
}

/// `if question; then piece; fi`
pub open spec fn where_so(question: Question, piece: Piece) -> Piece {
    Piece {
        text: "if "@ + question.text + "; then "@ + piece.text + "; fi"@,
        does: |m: Machine|
            if (question.holds)(m) {
                piece.on(m)
            } else {
                m
            },
    }
}

/// The same, the piece on lines of its own.
pub open spec fn where_so_below(question: Question, piece: Piece) -> Piece {
    Piece {
        text: "if "@ + question.text + "; then\n"@ + piece.text + "\nfi"@,
        does: |m: Machine|
            if (question.holds)(m) {
                piece.on(m)
            } else {
                m
            },
    }
}

/// `set -e`, by which the script is left once a command fails.
pub open spec fn up_to_a_failure() -> Piece {
    Piece { text: "set -e"@, does: |m: Machine| m }
}

/// A script of someone else's, after which it goes on only if that ends with success.
pub open spec fn foreign(script: Seq<char>) -> Piece {
    Piece {
        text: script,
        does: |m: Machine|
            {
                let n = Machine { ran: m.ran.push(seq![script]), ..m };
                let code = (m.codes)(seq![script]);
                if code == "0"@ {
                    n
                } else {
                    Machine { left: Some(code), ..n }
                }
            },
    }
}

/// `mkdir -p path`, of a path that needs no quotes.
pub open spec fn make_plain_dir(path: Seq<char>) -> Piece {
    Piece { text: "mkdir -p "@ + path, does: |m: Machine| m }
}

/// `touch word`, after which the file is there.
pub open spec fn touch(word: Word) -> Piece {
    Piece {
        text: "touch "@ + word.text(),
        does: |m: Machine|
            {
                let path = word.value(m);
                Machine {
                    files: if m.files.contains_key(path) {
                        m.files
                    } else {
                        m.files.insert(path, Seq::<char>::empty())
                    },
                    ..m
                }
            },
    }
}

/// `if question; then piece; else other; fi`
pub open spec fn either(question: Question, piece: Piece, other: Piece) -> Piece {
    Piece {
        text: "if "@ + question.text + "; then "@ + piece.text + "; else "@ + other.text + "; fi"@,
        does: |m: Machine|
            if (question.holds)(m) {
                piece.on(m)
            } else {
                other.on(m)
            },
    }
}

/// `if first; then one; elif second; then two; else three; fi`
pub open spec fn one_of(
    first: Question,
    one: Piece,
    second: Question,
    two: Piece,
    three: Piece,
) -> Piece {
    Piece {
        text: "if "@ + first.text + "; then "@ + one.text + "; elif "@ + second.text + "; then "@
            + two.text + "; else "@ + three.text + "; fi"@,
        does: |m: Machine|
            if (first.holds)(m) {
                one.on(m)
            } else if (second.holds)(m) {
                two.on(m)
            } else {
                three.on(m)
            },
    }
}

/// The processes that a function reaches that goes through what a process has started, and then
/// sends its signal to the process in its variable, in order. The variable belongs to the whole
/// script: once something below was reached, it still names the last of that.
pub open spec fn reached(
    below: spec_fn(Seq<char>) -> Seq<Seq<char>>,
    pid: Seq<char>,
    depth: nat,
) -> (Seq<Seq<char>>, Seq<char>)
    decreases depth, 1nat, 0nat,
{
    if depth == 0 {
        (seq![pid], pid)
    } else {
        let r = reached_in(below, below(pid), pid, depth);
        (r.0.push(r.1), r.1)
    }
}

/// The same for processes one after the other.
pub open spec fn reached_in(
    below: spec_fn(Seq<char>) -> Seq<Seq<char>>,
    pids: Seq<Seq<char>>,
    target: Seq<char>,
    depth: nat,
) -> (Seq<Seq<char>>, Seq<char>)
    decreases depth, 0nat, pids.len(),
{
    if pids.len() == 0 || depth == 0 {
        (Seq::<Seq<char>>::empty(), target)
    } else {
        let before = reached_in(below, pids.drop_last(), target, depth);
        let last = reached(below, pids.last(), (depth - 1) as nat);
        (before.0 + last.0, last.1)
    }
}

/// A function that sends a signal to a process and everything that it started.
pub open spec fn killer(name: Seq<char>, signal: Seq<char>) -> Piece {
    Piece {
        text: name
            + "() { target=\"$1\"; if command -v pgrep >/dev/null 2>&1; then for child in $(pgrep -P \"$target\" 2>/dev/null || true); do "@
            + name + " \"$child\"; done; fi; kill -"@ + signal
            + " \"$target\" 2>/dev/null || true; }"@,
        does: |m: Machine| Machine { killers: m.killers.insert(name, signal), ..m },
    }
}

/// Signals of one kind to processes, in order.
pub open spec fn signals_to(signal: Seq<char>, pids: Seq<Seq<char>>) -> Seq<(Seq<char>, Seq<char>)> {
    Seq::new(pids.len(), |i: int| (signal, pids[i]))
}

/// `function "$name"`
pub open spec fn kill_with(function: Seq<char>, name: Seq<char>) -> Piece {
    Piece {
        text: function + " "@ + Word::Of(name, Seq::empty()).text(),
        does: |m: Machine|
            Machine {
                signals: m.signals + signals_to(
                    m.killers[function],
                    reached(m.below, m.vars[name], m.depth).0,
                ),
                ..m
            },
    }
}

/// `sleep 1`
pub open spec fn pause() -> Piece {
    Piece { text: "sleep 1"@, does: |m: Machine| m }
}

/// A process that has started nothing is reached alone.
pub proof fn lone_processes_are_reached(
    below: spec_fn(Seq<char>) -> Seq<Seq<char>>,
    pid: Seq<char>,
    depth: nat,
)
    requires
        below(pid).len() == 0,
    ensures
        reached(below, pid, depth).0 == seq![pid],
{
    reveal_with_fuel(reached, 2);
    reveal_with_fuel(reached_in, 2);
    assert(Seq::<Seq<char>>::empty().push(pid) =~= seq![pid]);
}

/// A process is another or was started by it, directly or not.
pub open spec fn stems_from(
    below: spec_fn(Seq<char>) -> Seq<Seq<char>>,
    pid: Seq<char>,
    root: Seq<char>,
    depth: nat,
) -> bool
    decreases depth,
{
    pid == root || (depth > 0 && exists|i: int|
        0 <= i < below(root).len() && stems_from(
            below,
            pid,
            #[trigger] below(root)[i],
            (depth - 1) as nat,
        ))
}

proof fn reached_ones_stem(
    below: spec_fn(Seq<char>) -> Seq<Seq<char>>,
    pid: Seq<char>,
    depth: nat,
)
    ensures
        ({
            let r = reached(below, pid, depth);
            &&& forall|i: int| 0 <= i < r.0.len() ==> stems_from(below, #[trigger] r.0[i], pid, depth)
            &&& stems_from(below, r.1, pid, depth)
            &&& r.0.len() > 0
        }),
    decreases depth, 1nat, 0nat,
{
    if depth > 0 {
        reached_list_stems(below, pid, below(pid).len() as int, depth);
        assert(below(pid).take(below(pid).len() as int) =~= below(pid));
    }
}

proof fn reached_list_stems(
    below: spec_fn(Seq<char>) -> Seq<Seq<char>>,
    root: Seq<char>,
    k: int,
    depth: nat,
)
    requires
        depth > 0,
        0 <= k <= below(root).len(),
    ensures
        ({
            let r = reached_in(below, below(root).take(k), root, depth);
            &&& forall|i: int|
                0 <= i < r.0.len() ==> stems_from(below, #[trigger] r.0[i], root, depth)
            &&& stems_from(below, r.1, root, depth)
        }),
    decreases depth, 0nat, k,
{
    let pids = below(root).take(k);
    if k > 0 {
        assert(pids.drop_last() =~= below(root).take(k - 1));
        reached_list_stems(below, root, k - 1, depth);
        let last = pids.last();
        assert(last == below(root)[k - 1]);
        let d = (depth - 1) as nat;
        reached_ones_stem(below, last, d);
        let b = reached_in(below, pids.drop_last(), root, depth);
        let l = reached(below, last, d);
        let r = reached_in(below, pids, root, depth);
        assert(r.0 == b.0 + l.0);
        assert forall|i: int| 0 <= i < r.0.len() implies stems_from(
            below,
            #[trigger] r.0[i],
            root,
            depth,
        ) by {
            if i < b.0.len() {
                assert(r.0[i] == b.0[i]);
            } else {
                assert(r.0[i] == l.0[i - b.0.len()]);
                assert(stems_from(below, l.0[i - b.0.len()], below(root)[k - 1], d));
            }
        }
        assert(stems_from(below, l.1, below(root)[k - 1], d));
    }
}

proof fn leaves_are_in(
    below: spec_fn(Seq<char>) -> Seq<Seq<char>>,
    pid: Seq<char>,
    root: Seq<char>,
    depth: nat,
)
    requires
        below(pid).len() == 0,
        stems_from(below, pid, root, depth),
    ensures
        reached(below, root, depth).0.contains(pid),
    decreases depth, 1nat, 0nat,
{
    if pid == root {
        lone_processes_are_reached(below, pid, depth);
        assert(reached(below, root, depth).0[0] == pid);
    } else {
        let j = choose|i: int|
            0 <= i < below(root).len() && stems_from(
                below,
                pid,
                #[trigger] below(root)[i],
                (depth - 1) as nat,
            );
        leaves_are_in_list(below, pid, root, j, below(root).len() as int, depth);
        assert(below(root).take(below(root).len() as int) =~= below(root));
        let r = reached_in(below, below(root), root, depth);
        let i = choose|i: int| 0 <= i < r.0.len() && r.0[i] == pid;
        assert(r.0.push(r.1)[i] == pid);
    }
}

proof fn leaves_are_in_list(
    below: spec_fn(Seq<char>) -> Seq<Seq<char>>,
    pid: Seq<char>,
    root: Seq<char>,
    j: int,
    k: int,
    depth: nat,
)
    requires
        depth > 0,
        0 <= j < k <= below(root).len(),
        below(pid).len() == 0,
        stems_from(below, pid, below(root)[j], (depth - 1) as nat),
    ensures
        reached_in(below, below(root).take(k), root, depth).0.contains(pid),
    decreases depth, 0nat, k,
{
    let pids = below(root).take(k);
    let d = (depth - 1) as nat;
    assert(pids.drop_last() =~= below(root).take(k - 1));
    let b = reached_in(below, pids.drop_last(), root, depth).0;
    let l = reached(below, pids.last(), d).0;
    let r = reached_in(below, pids, root, depth).0;
    assert(r == b + l);
    if j == k - 1 {
        leaves_are_in(below, pid, below(root)[j], d);
        let i = choose|i: int| 0 <= i < l.len() && l[i] == pid;
        assert(r[b.len() + i] == pid);
    } else {
        leaves_are_in_list(below, pid, root, j, k - 1, depth);
        let i = choose|i: int| 0 <= i < b.len() && b[i] == pid;
        assert(r[i] == pid);
    }
}

/// A signal to a process and what it started reaches every one of them that has started nothing
/// itself, and none but them.
pub proof fn signals_reach_what_was_started(
    below: spec_fn(Seq<char>) -> Seq<Seq<char>>,
    root: Seq<char>,
    depth: nat,
)
    ensures
        forall|pid: Seq<char>|
            below(pid).len() == 0 && stems_from(below, pid, root, depth) ==> #[trigger] reached(
                below,
                root,
                depth,
            ).0.contains(pid),
        forall|i: int|
            0 <= i < reached(below, root, depth).0.len() ==> stems_from(
                below,
                #[trigger] reached(below, root, depth).0[i],
                root,
                depth,
            ),
        reached(below, root, depth).0.len() > 0,
{
    reached_ones_stem(below, root, depth);
    assert forall|pid: Seq<char>|
        below(pid).len() == 0 && stems_from(below, pid, root, depth) implies #[trigger] reached(
        below,
        root,
        depth,
    ).0.contains(pid) by {
        leaves_are_in(below, pid, root, depth);
    }
}

} // verus!
