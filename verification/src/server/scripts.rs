//! What the scripts of managed processes do.

use crate::numbers::{decimal, decimal_reads_back, parsed_int, IntError};
use crate::process::{ProcessId, ProcessModel, ProcessStatus, StreamName};
use crate::script::{
    assign, either, empty_file, equals, export, foreign, is_alive, is_file, is_no_file, is_set,
    is_within, keep_var, kill_with, killer, leave, leave_with, line_of, lone_processes_are_reached,
    make_dir, make_plain_dir, one_of, pause, plain_texts_are_one_line, print, print_part,
    print_size, print_with, print_zero, reached, read_line, read_line_or_leave, remove_files,
    remove_tree, run, signals_reach_what_was_started, signals_to, start, stems_from, strictly,
    touch, up_to_a_failure, where_so, where_so_below, write_var, Machine, Piece, Started, Word,
};
use crate::server::effects::ProcessStart;
use crate::server::launch::{asked_bytes, log_part, log_path, log_script, new_process, LogRange};
use crate::server::managed::{
    dir_of, kill_script, launch_script, probe_script, probed, wrapped_command,
};
use crate::server::processes::{log_size_script, sweep_script};
use crate::server::run::{ensure_marker, ensure_script};
use crate::shell::{shell_word, shell_words};
use crate::text::{starts, trimmed, trimmed_keeps, white, without_prefix};
use crate::time::TimeModel;
use vstd::prelude::*;

verus! {

/// A path below the directory in `$base`.
pub open spec fn in_base(rest: Seq<char>) -> Word {
    Word::Of("base"@, rest)
}

/// The launch of a process: its logs are emptied, what an earlier one may have left is removed, and
/// its command is started with its output going to the logs.
pub open spec fn launch_program(id: ProcessId, command: Seq<Seq<char>>) -> Piece {
    strictly().and_then(assign("base"@, Word::Quoted(dir_of(id)))).and_then(
        make_dir(in_base(""@)),
    ).and_then(empty_file(in_base("/stdout.log"@))).and_then(
        empty_file(in_base("/stderr.log"@)),
    ).and_then(
        remove_files(in_base("/exit_code"@), in_base("/pid"@), in_base("/cancelled"@)),
    ).and_then(
        start(
            Word::Quoted(wrapped_command(id, command)),
            in_base("/stdout.log"@),
            in_base("/stderr.log"@),
            "pid"@,
        ),
    ).and_then(write_var("pid"@, in_base("/pid"@)))
}

/// Texts that are put together in another order.
proof fn grouped(a: Seq<char>, b: Seq<char>, c: Seq<char>)
    ensures
        a + (b + c) == a + b + c,
{
    assert(a + (b + c) =~= a + b + c);
}

proof fn launch_reads(id: ProcessId, command: Seq<Seq<char>>)
    ensures
        launch_program(id, command).text == launch_script(id, command),
{
    reveal_strlit(
        "; mkdir -p \"$base\"; : > \"$base/stdout.log\"; : > \"$base/stderr.log\"; rm -f \"$base/exit_code\" \"$base/pid\" \"$base/cancelled\"; nohup /bin/sh -lc ",
    );
    reveal_strlit("; ");
    reveal_strlit("mkdir -p ");
    reveal_strlit("\"$");
    reveal_strlit("base");
    reveal_strlit("\"");
    reveal_strlit("");
    reveal_strlit(": > ");
    reveal_strlit("/stdout.log");
    reveal_strlit("/stderr.log");
    reveal_strlit("/exit_code");
    reveal_strlit("/pid");
    reveal_strlit("/cancelled");
    reveal_strlit("rm -f ");
    reveal_strlit(" ");
    reveal_strlit("nohup /bin/sh -lc ");
    reveal_strlit("set -eu; base=");
    reveal_strlit("set -eu");
    reveal_strlit("=");
    reveal_strlit(
        " >> \"$base/stdout.log\" 2>> \"$base/stderr.log\" </dev/null & pid=$!; printf \"%s\" \"$pid\" > \"$base/pid\"",
    );
    reveal_strlit(" >> ");
    reveal_strlit(" 2>> ");
    reveal_strlit(" </dev/null & ");
    reveal_strlit("pid");
    reveal_strlit("=$!");
    reveal_strlit("printf \"%s\" ");
    reveal_strlit(" > ");
    let w = shell_word(wrapped_command(id, command));
    let d = shell_word(dir_of(id));
    assert("set -eu"@ + "; "@ + ("base"@ + "="@ + d) =~= "set -eu; base="@ + d);
    let base = "\"$"@ + "base"@;
    let q = "\""@;
    assert("; mkdir -p \"$base\"; : > \"$base/stdout.log\"; : > \"$base/stderr.log\"; rm -f \"$base/exit_code\" \"$base/pid\" \"$base/cancelled\"; nohup /bin/sh -lc "@
        =~= "; "@ + ("mkdir -p "@ + (base + ""@ + q)) + "; "@ + (": > "@ + (base + "/stdout.log"@ + q))
        + "; "@ + (": > "@ + (base + "/stderr.log"@ + q)) + "; "@ + ("rm -f "@ + (base
        + "/exit_code"@ + q) + " "@ + (base + "/pid"@ + q) + " "@ + (base + "/cancelled"@ + q))
        + "; "@ + "nohup /bin/sh -lc "@);
    assert(" >> \"$base/stdout.log\" 2>> \"$base/stderr.log\" </dev/null & pid=$!; printf \"%s\" \"$pid\" > \"$base/pid\""@
        =~= " >> "@ + (base + "/stdout.log"@ + q) + " 2>> "@ + (base + "/stderr.log"@ + q)
        + " </dev/null & "@ + "pid"@ + "=$!"@ + "; "@ + ("printf \"%s\" "@ + ("\"$"@ + "pid"@
        + Seq::<char>::empty() + q) + " > "@ + (base + "/pid"@ + q)));
    assert(launch_program(id, command).text =~= launch_script(id, command));
}

/// What a probe says of a process that has left its exit code.
pub open spec fn verdict() -> Piece {
    one_of(
        is_file(in_base("/cancelled"@)),
        print_with("cancelled:"@, "code"@),
        equals("code"@, "0"@),
        print_with("succeeded:"@, "code"@),
        print_with("failed:"@, "code"@),
    )
}

/// What it says of one that has not.
pub open spec fn liveness() -> Piece {
    one_of(
        is_set("pid"@).and(is_alive("pid"@)),
        print_with("running:"@, "pid"@),
        is_file(in_base("/cancelled"@)),
        print("cancelled:"@),
        print("lost"@),
    )
}

/// The probe of a process: the files that it has left say how it is doing, and where they leave that
/// open, whether it can be reached.
pub open spec fn probe_program(id: ProcessId) -> Piece {
    assign("base"@, Word::Quoted(dir_of(id))).and_then(
        one_of(
            is_file(in_base("/exit_code"@)),
            read_line("code"@, in_base("/exit_code"@)).and_then(verdict()),
            is_file(in_base("/pid"@)),
            read_line("pid"@, in_base("/pid"@)).and_then(liveness()),
            print("starting"@),
        ),
    )
}

/// The file that holds the identifier of a process.
pub open spec fn pid_file() -> Word {
    Word::Of("pid_file"@, Seq::empty())
}

/// The end of a process: where its identifier is known, it and what it started are asked to end,
/// and made to where it still runs after a moment.
pub open spec fn kill_program(id: ProcessId) -> Piece {
    assign("pid_file"@, Word::Quoted(dir_of(id) + "/pid"@)).and_then(
        where_so(is_no_file(pid_file()), leave()),
    ).and_then(read_line_or_leave("pid"@, pid_file())).and_then(
        killer("kill_descendants"@, "TERM"@),
    ).and_then(killer("kill_descendants_kill"@, "KILL"@)).and_then(
        kill_with("kill_descendants"@, "pid"@),
    ).and_then(pause()).and_then(
        where_so(is_alive("pid"@), kill_with("kill_descendants_kill"@, "pid"@)),
    )
}

proof fn guard_reads()
    ensures
        where_so(is_no_file(pid_file()), leave()).text == "if [ ! -f \"$pid_file\" ]; then exit 0; fi"@,
{
    reveal_strlit("if [ ! -f \"$pid_file\" ]; then exit 0; fi");
    reveal_strlit("if ");
    reveal_strlit("[ ! -f ");
    reveal_strlit("\"$");
    reveal_strlit("pid_file");
    reveal_strlit("\"");
    reveal_strlit(" ]");
    reveal_strlit("; then ");
    reveal_strlit("exit 0");
    reveal_strlit("; fi");
    assert(where_so(is_no_file(pid_file()), leave()).text =~= "if [ ! -f \"$pid_file\" ]; then exit 0; fi"@);
}

proof fn pid_reads()
    ensures
        read_line_or_leave("pid"@, pid_file()).text == "pid=''; IFS= read -r pid < \"$pid_file\" || [ -n \"$pid\" ] || exit 0"@,
{
    reveal_strlit("pid=''; IFS= read -r pid < \"$pid_file\" || [ -n \"$pid\" ] || exit 0");
    reveal_strlit("pid");
    reveal_strlit("=''; IFS= read -r ");
    reveal_strlit(" < ");
    reveal_strlit("\"$");
    reveal_strlit("pid_file");
    reveal_strlit("\"");
    reveal_strlit(" || [ -n ");
    reveal_strlit(" ]");
    reveal_strlit(" || exit 0");
    assert(read_line_or_leave("pid"@, pid_file()).text =~= "pid=''; IFS= read -r pid < \"$pid_file\" || [ -n \"$pid\" ] || exit 0"@);
}

proof fn asking_reads()
    ensures
        killer("kill_descendants"@, "TERM"@).text == "kill_descendants() { target=\"$1\"; if command -v pgrep >/dev/null 2>&1; then for child in $(pgrep -P \"$target\" 2>/dev/null || true); do kill_descendants \"$child\"; done; fi; kill -TERM \"$target\" 2>/dev/null || true; }"@,
{
    reveal_strlit("kill_descendants() { target=\"$1\"; if command -v pgrep >/dev/null 2>&1; then for child in $(pgrep -P \"$target\" 2>/dev/null || true); do kill_descendants \"$child\"; done; fi; kill -TERM \"$target\" 2>/dev/null || true; }");
    reveal_strlit("kill_descendants");
    reveal_strlit("() { target=\"$1\"; if command -v pgrep >/dev/null 2>&1; then for child in $(pgrep -P \"$target\" 2>/dev/null || true); do ");
    reveal_strlit(" \"$child\"; done; fi; kill -");
    reveal_strlit("TERM");
    reveal_strlit(" \"$target\" 2>/dev/null || true; }");
    assert(killer("kill_descendants"@, "TERM"@).text =~= "kill_descendants() { target=\"$1\"; if command -v pgrep >/dev/null 2>&1; then for child in $(pgrep -P \"$target\" 2>/dev/null || true); do kill_descendants \"$child\"; done; fi; kill -TERM \"$target\" 2>/dev/null || true; }"@);
}

proof fn making_reads()
    ensures
        killer("kill_descendants_kill"@, "KILL"@).text == "kill_descendants_kill() { target=\"$1\"; if command -v pgrep >/dev/null 2>&1; then for child in $(pgrep -P \"$target\" 2>/dev/null || true); do kill_descendants_kill \"$child\"; done; fi; kill -KILL \"$target\" 2>/dev/null || true; }"@,
{
    reveal_strlit("kill_descendants_kill() { target=\"$1\"; if command -v pgrep >/dev/null 2>&1; then for child in $(pgrep -P \"$target\" 2>/dev/null || true); do kill_descendants_kill \"$child\"; done; fi; kill -KILL \"$target\" 2>/dev/null || true; }");
    reveal_strlit("kill_descendants_kill");
    reveal_strlit("() { target=\"$1\"; if command -v pgrep >/dev/null 2>&1; then for child in $(pgrep -P \"$target\" 2>/dev/null || true); do ");
    reveal_strlit(" \"$child\"; done; fi; kill -");
    reveal_strlit("KILL");
    reveal_strlit(" \"$target\" 2>/dev/null || true; }");
    assert(killer("kill_descendants_kill"@, "KILL"@).text =~= "kill_descendants_kill() { target=\"$1\"; if command -v pgrep >/dev/null 2>&1; then for child in $(pgrep -P \"$target\" 2>/dev/null || true); do kill_descendants_kill \"$child\"; done; fi; kill -KILL \"$target\" 2>/dev/null || true; }"@);
}

proof fn ask_reads()
    ensures
        kill_with("kill_descendants"@, "pid"@).text == "kill_descendants \"$pid\""@,
{
    reveal_strlit("kill_descendants \"$pid\"");
    reveal_strlit("kill_descendants");
    reveal_strlit(" ");
    reveal_strlit("\"$");
    reveal_strlit("pid");
    reveal_strlit("\"");
    assert(kill_with("kill_descendants"@, "pid"@).text =~= "kill_descendants \"$pid\""@);
}

proof fn make_reads()
    ensures
        where_so(is_alive("pid"@), kill_with("kill_descendants_kill"@, "pid"@)).text == "if kill -0 \"$pid\" 2>/dev/null; then kill_descendants_kill \"$pid\"; fi"@,
{
    reveal_strlit("if kill -0 \"$pid\" 2>/dev/null; then kill_descendants_kill \"$pid\"; fi");
    reveal_strlit("if ");
    reveal_strlit("kill -0 ");
    reveal_strlit("\"$");
    reveal_strlit("pid");
    reveal_strlit("\"");
    reveal_strlit(" 2>/dev/null");
    reveal_strlit("; then ");
    reveal_strlit("kill_descendants_kill");
    reveal_strlit(" ");
    reveal_strlit("; fi");
    assert(where_so(is_alive("pid"@), kill_with("kill_descendants_kill"@, "pid"@)).text =~= "if kill -0 \"$pid\" 2>/dev/null; then kill_descendants_kill \"$pid\"; fi"@);
}

#[verifier::rlimit(100)]
proof fn kill_splits()
    ensures
        "; if [ ! -f \"$pid_file\" ]; then exit 0; fi; pid=''; IFS= read -r pid < \"$pid_file\" || [ -n \"$pid\" ] || exit 0; kill_descendants() { target=\"$1\"; if command -v pgrep >/dev/null 2>&1; then for child in $(pgrep -P \"$target\" 2>/dev/null || true); do kill_descendants \"$child\"; done; fi; kill -TERM \"$target\" 2>/dev/null || true; }; kill_descendants_kill() { target=\"$1\"; if command -v pgrep >/dev/null 2>&1; then for child in $(pgrep -P \"$target\" 2>/dev/null || true); do kill_descendants_kill \"$child\"; done; fi; kill -KILL \"$target\" 2>/dev/null || true; }; kill_descendants \"$pid\"; sleep 1; if kill -0 \"$pid\" 2>/dev/null; then kill_descendants_kill \"$pid\"; fi"@ == "; "@ + "if [ ! -f \"$pid_file\" ]; then exit 0; fi"@ + "; "@ + "pid=''; IFS= read -r pid < \"$pid_file\" || [ -n \"$pid\" ] || exit 0"@ + "; "@ + "kill_descendants() { target=\"$1\"; if command -v pgrep >/dev/null 2>&1; then for child in $(pgrep -P \"$target\" 2>/dev/null || true); do kill_descendants \"$child\"; done; fi; kill -TERM \"$target\" 2>/dev/null || true; }"@ + "; "@ + "kill_descendants_kill() { target=\"$1\"; if command -v pgrep >/dev/null 2>&1; then for child in $(pgrep -P \"$target\" 2>/dev/null || true); do kill_descendants_kill \"$child\"; done; fi; kill -KILL \"$target\" 2>/dev/null || true; }"@ + "; "@ + "kill_descendants \"$pid\""@ + "; "@ + "sleep 1"@ + "; "@ + "if kill -0 \"$pid\" 2>/dev/null; then kill_descendants_kill \"$pid\"; fi"@,
{
    let all = "; if [ ! -f \"$pid_file\" ]; then exit 0; fi; pid=''; IFS= read -r pid < \"$pid_file\" || [ -n \"$pid\" ] || exit 0; kill_descendants() { target=\"$1\"; if command -v pgrep >/dev/null 2>&1; then for child in $(pgrep -P \"$target\" 2>/dev/null || true); do kill_descendants \"$child\"; done; fi; kill -TERM \"$target\" 2>/dev/null || true; }; kill_descendants_kill() { target=\"$1\"; if command -v pgrep >/dev/null 2>&1; then for child in $(pgrep -P \"$target\" 2>/dev/null || true); do kill_descendants_kill \"$child\"; done; fi; kill -KILL \"$target\" 2>/dev/null || true; }; kill_descendants \"$pid\"; sleep 1; if kill -0 \"$pid\" 2>/dev/null; then kill_descendants_kill \"$pid\"; fi"@;
    assert(all.len() == 657) by {
        reveal_strlit("; if [ ! -f \"$pid_file\" ]; then exit 0; fi; pid=''; IFS= read -r pid < \"$pid_file\" || [ -n \"$pid\" ] || exit 0; kill_descendants() { target=\"$1\"; if command -v pgrep >/dev/null 2>&1; then for child in $(pgrep -P \"$target\" 2>/dev/null || true); do kill_descendants \"$child\"; done; fi; kill -TERM \"$target\" 2>/dev/null || true; }; kill_descendants_kill() { target=\"$1\"; if command -v pgrep >/dev/null 2>&1; then for child in $(pgrep -P \"$target\" 2>/dev/null || true); do kill_descendants_kill \"$child\"; done; fi; kill -KILL \"$target\" 2>/dev/null || true; }; kill_descendants \"$pid\"; sleep 1; if kill -0 \"$pid\" 2>/dev/null; then kill_descendants_kill \"$pid\"; fi");
    }
    let p0 = "; "@ + "if [ ! -f \"$pid_file\" ]; then exit 0; fi"@;
    assert(all.subrange(0, 42) == p0) by {
        reveal_strlit("; if [ ! -f \"$pid_file\" ]; then exit 0; fi; pid=''; IFS= read -r pid < \"$pid_file\" || [ -n \"$pid\" ] || exit 0; kill_descendants() { target=\"$1\"; if command -v pgrep >/dev/null 2>&1; then for child in $(pgrep -P \"$target\" 2>/dev/null || true); do kill_descendants \"$child\"; done; fi; kill -TERM \"$target\" 2>/dev/null || true; }; kill_descendants_kill() { target=\"$1\"; if command -v pgrep >/dev/null 2>&1; then for child in $(pgrep -P \"$target\" 2>/dev/null || true); do kill_descendants_kill \"$child\"; done; fi; kill -KILL \"$target\" 2>/dev/null || true; }; kill_descendants \"$pid\"; sleep 1; if kill -0 \"$pid\" 2>/dev/null; then kill_descendants_kill \"$pid\"; fi");
        reveal_strlit("; ");
        reveal_strlit("if [ ! -f \"$pid_file\" ]; then exit 0; fi");
        assert(all.subrange(0, 42) =~= p0);
    }
    let p1 = "; "@ + "pid=''; IFS= read -r pid < \"$pid_file\" || [ -n \"$pid\" ] || exit 0"@;
    assert(all.subrange(42, 109) == p1) by {
        reveal_strlit("; if [ ! -f \"$pid_file\" ]; then exit 0; fi; pid=''; IFS= read -r pid < \"$pid_file\" || [ -n \"$pid\" ] || exit 0; kill_descendants() { target=\"$1\"; if command -v pgrep >/dev/null 2>&1; then for child in $(pgrep -P \"$target\" 2>/dev/null || true); do kill_descendants \"$child\"; done; fi; kill -TERM \"$target\" 2>/dev/null || true; }; kill_descendants_kill() { target=\"$1\"; if command -v pgrep >/dev/null 2>&1; then for child in $(pgrep -P \"$target\" 2>/dev/null || true); do kill_descendants_kill \"$child\"; done; fi; kill -KILL \"$target\" 2>/dev/null || true; }; kill_descendants \"$pid\"; sleep 1; if kill -0 \"$pid\" 2>/dev/null; then kill_descendants_kill \"$pid\"; fi");
        reveal_strlit("; ");
        reveal_strlit("pid=''; IFS= read -r pid < \"$pid_file\" || [ -n \"$pid\" ] || exit 0");
        assert(all.subrange(42, 109) =~= p1);
    }
    let p2 = "; "@ + "kill_descendants() { target=\"$1\"; if command -v pgrep >/dev/null 2>&1; then for child in $(pgrep -P \"$target\" 2>/dev/null || true); do kill_descendants \"$child\"; done; fi; kill -TERM \"$target\" 2>/dev/null || true; }"@;
    assert(all.subrange(109, 326) == p2) by {
        reveal_strlit("; if [ ! -f \"$pid_file\" ]; then exit 0; fi; pid=''; IFS= read -r pid < \"$pid_file\" || [ -n \"$pid\" ] || exit 0; kill_descendants() { target=\"$1\"; if command -v pgrep >/dev/null 2>&1; then for child in $(pgrep -P \"$target\" 2>/dev/null || true); do kill_descendants \"$child\"; done; fi; kill -TERM \"$target\" 2>/dev/null || true; }; kill_descendants_kill() { target=\"$1\"; if command -v pgrep >/dev/null 2>&1; then for child in $(pgrep -P \"$target\" 2>/dev/null || true); do kill_descendants_kill \"$child\"; done; fi; kill -KILL \"$target\" 2>/dev/null || true; }; kill_descendants \"$pid\"; sleep 1; if kill -0 \"$pid\" 2>/dev/null; then kill_descendants_kill \"$pid\"; fi");
        reveal_strlit("; ");
        reveal_strlit("kill_descendants() { target=\"$1\"; if command -v pgrep >/dev/null 2>&1; then for child in $(pgrep -P \"$target\" 2>/dev/null || true); do kill_descendants \"$child\"; done; fi; kill -TERM \"$target\" 2>/dev/null || true; }");
        assert(all.subrange(109, 326) =~= p2);
    }
    let p3 = "; "@ + "kill_descendants_kill() { target=\"$1\"; if command -v pgrep >/dev/null 2>&1; then for child in $(pgrep -P \"$target\" 2>/dev/null || true); do kill_descendants_kill \"$child\"; done; fi; kill -KILL \"$target\" 2>/dev/null || true; }"@;
    assert(all.subrange(326, 553) == p3) by {
        reveal_strlit("; if [ ! -f \"$pid_file\" ]; then exit 0; fi; pid=''; IFS= read -r pid < \"$pid_file\" || [ -n \"$pid\" ] || exit 0; kill_descendants() { target=\"$1\"; if command -v pgrep >/dev/null 2>&1; then for child in $(pgrep -P \"$target\" 2>/dev/null || true); do kill_descendants \"$child\"; done; fi; kill -TERM \"$target\" 2>/dev/null || true; }; kill_descendants_kill() { target=\"$1\"; if command -v pgrep >/dev/null 2>&1; then for child in $(pgrep -P \"$target\" 2>/dev/null || true); do kill_descendants_kill \"$child\"; done; fi; kill -KILL \"$target\" 2>/dev/null || true; }; kill_descendants \"$pid\"; sleep 1; if kill -0 \"$pid\" 2>/dev/null; then kill_descendants_kill \"$pid\"; fi");
        reveal_strlit("; ");
        reveal_strlit("kill_descendants_kill() { target=\"$1\"; if command -v pgrep >/dev/null 2>&1; then for child in $(pgrep -P \"$target\" 2>/dev/null || true); do kill_descendants_kill \"$child\"; done; fi; kill -KILL \"$target\" 2>/dev/null || true; }");
        assert(all.subrange(326, 553) =~= p3);
    }
    let p4 = "; "@ + "kill_descendants \"$pid\""@;
    assert(all.subrange(553, 578) == p4) by {
        reveal_strlit("; if [ ! -f \"$pid_file\" ]; then exit 0; fi; pid=''; IFS= read -r pid < \"$pid_file\" || [ -n \"$pid\" ] || exit 0; kill_descendants() { target=\"$1\"; if command -v pgrep >/dev/null 2>&1; then for child in $(pgrep -P \"$target\" 2>/dev/null || true); do kill_descendants \"$child\"; done; fi; kill -TERM \"$target\" 2>/dev/null || true; }; kill_descendants_kill() { target=\"$1\"; if command -v pgrep >/dev/null 2>&1; then for child in $(pgrep -P \"$target\" 2>/dev/null || true); do kill_descendants_kill \"$child\"; done; fi; kill -KILL \"$target\" 2>/dev/null || true; }; kill_descendants \"$pid\"; sleep 1; if kill -0 \"$pid\" 2>/dev/null; then kill_descendants_kill \"$pid\"; fi");
        reveal_strlit("; ");
        reveal_strlit("kill_descendants \"$pid\"");
        assert(all.subrange(553, 578) =~= p4);
    }
    let p5 = "; "@ + "sleep 1"@;
    assert(all.subrange(578, 587) == p5) by {
        reveal_strlit("; if [ ! -f \"$pid_file\" ]; then exit 0; fi; pid=''; IFS= read -r pid < \"$pid_file\" || [ -n \"$pid\" ] || exit 0; kill_descendants() { target=\"$1\"; if command -v pgrep >/dev/null 2>&1; then for child in $(pgrep -P \"$target\" 2>/dev/null || true); do kill_descendants \"$child\"; done; fi; kill -TERM \"$target\" 2>/dev/null || true; }; kill_descendants_kill() { target=\"$1\"; if command -v pgrep >/dev/null 2>&1; then for child in $(pgrep -P \"$target\" 2>/dev/null || true); do kill_descendants_kill \"$child\"; done; fi; kill -KILL \"$target\" 2>/dev/null || true; }; kill_descendants \"$pid\"; sleep 1; if kill -0 \"$pid\" 2>/dev/null; then kill_descendants_kill \"$pid\"; fi");
        reveal_strlit("; ");
        reveal_strlit("sleep 1");
        assert(all.subrange(578, 587) =~= p5);
    }
    let p6 = "; "@ + "if kill -0 \"$pid\" 2>/dev/null; then kill_descendants_kill \"$pid\"; fi"@;
    assert(all.subrange(587, 657) == p6) by {
        reveal_strlit("; if [ ! -f \"$pid_file\" ]; then exit 0; fi; pid=''; IFS= read -r pid < \"$pid_file\" || [ -n \"$pid\" ] || exit 0; kill_descendants() { target=\"$1\"; if command -v pgrep >/dev/null 2>&1; then for child in $(pgrep -P \"$target\" 2>/dev/null || true); do kill_descendants \"$child\"; done; fi; kill -TERM \"$target\" 2>/dev/null || true; }; kill_descendants_kill() { target=\"$1\"; if command -v pgrep >/dev/null 2>&1; then for child in $(pgrep -P \"$target\" 2>/dev/null || true); do kill_descendants_kill \"$child\"; done; fi; kill -KILL \"$target\" 2>/dev/null || true; }; kill_descendants \"$pid\"; sleep 1; if kill -0 \"$pid\" 2>/dev/null; then kill_descendants_kill \"$pid\"; fi");
        reveal_strlit("; ");
        reveal_strlit("if kill -0 \"$pid\" 2>/dev/null; then kill_descendants_kill \"$pid\"; fi");
        assert(all.subrange(587, 657) =~= p6);
    }
    assert(all.subrange(0, 109) =~= all.subrange(0, 42) + all.subrange(42, 109));
    assert(all.subrange(0, 326) =~= all.subrange(0, 109) + all.subrange(109, 326));
    assert(all.subrange(0, 553) =~= all.subrange(0, 326) + all.subrange(326, 553));
    assert(all.subrange(0, 578) =~= all.subrange(0, 553) + all.subrange(553, 578));
    assert(all.subrange(0, 587) =~= all.subrange(0, 578) + all.subrange(578, 587));
    assert(all.subrange(0, 657) =~= all.subrange(0, 587) + all.subrange(587, 657));
    assert(all.subrange(0, 657) =~= all);
    assert("; "@ + "if [ ! -f \"$pid_file\" ]; then exit 0; fi"@ + "; "@ + "pid=''; IFS= read -r pid < \"$pid_file\" || [ -n \"$pid\" ] || exit 0"@ + "; "@ + "kill_descendants() { target=\"$1\"; if command -v pgrep >/dev/null 2>&1; then for child in $(pgrep -P \"$target\" 2>/dev/null || true); do kill_descendants \"$child\"; done; fi; kill -TERM \"$target\" 2>/dev/null || true; }"@ + "; "@ + "kill_descendants_kill() { target=\"$1\"; if command -v pgrep >/dev/null 2>&1; then for child in $(pgrep -P \"$target\" 2>/dev/null || true); do kill_descendants_kill \"$child\"; done; fi; kill -KILL \"$target\" 2>/dev/null || true; }"@ + "; "@ + "kill_descendants \"$pid\""@ + "; "@ + "sleep 1"@ + "; "@ + "if kill -0 \"$pid\" 2>/dev/null; then kill_descendants_kill \"$pid\"; fi"@ =~= p0 + p1 + p2 + p3 + p4 + p5 + p6);
}

proof fn kill_reads(id: ProcessId)
    ensures
        kill_program(id).text == kill_script(id),
{
    kill_splits();
    guard_reads();
    pid_reads();
    asking_reads();
    making_reads();
    ask_reads();
    make_reads();
    reveal_strlit("pid_file=");
    reveal_strlit("pid_file");
    reveal_strlit("=");
    let d = shell_word(dir_of(id) + "/pid"@);
    assert("pid_file"@ + "="@ + d =~= "pid_file="@ + d);
    assert(kill_program(id).text =~= kill_script(id));
}

proof fn exit_question_reads()
    ensures
        is_file(in_base("/exit_code"@)).text == "[ -f \"$base/exit_code\" ]"@,
{
    reveal_strlit("[ -f \"$base/exit_code\" ]");
    reveal_strlit("[ -f ");
    reveal_strlit("\"$");
    reveal_strlit("base");
    reveal_strlit("/exit_code");
    reveal_strlit("\"");
    reveal_strlit(" ]");
    assert(is_file(in_base("/exit_code"@)).text =~= "[ -f \"$base/exit_code\" ]"@);
}

proof fn exit_code_reads()
    ensures
        read_line("code"@, in_base("/exit_code"@)).text == "code=''; IFS= read -r code < \"$base/exit_code\" || [ -n \"$code\" ]"@,
{
    reveal_strlit("code=''; IFS= read -r code < \"$base/exit_code\" || [ -n \"$code\" ]");
    reveal_strlit("code");
    reveal_strlit("=''; IFS= read -r ");
    reveal_strlit(" < ");
    reveal_strlit("\"$");
    reveal_strlit("base");
    reveal_strlit("/exit_code");
    reveal_strlit("\"");
    reveal_strlit(" || [ -n ");
    reveal_strlit(" ]");
    assert(read_line("code"@, in_base("/exit_code"@)).text =~= "code=''; IFS= read -r code < \"$base/exit_code\" || [ -n \"$code\" ]"@);
}

proof fn verdict_reads()
    ensures
        verdict().text == "if [ -f \"$base/cancelled\" ]; then printf 'cancelled:%s' \"$code\"; elif [ \"$code\" = '0' ]; then printf 'succeeded:%s' \"$code\"; else printf 'failed:%s' \"$code\"; fi"@,
{
    reveal_strlit("if [ -f \"$base/cancelled\" ]; then printf 'cancelled:%s' \"$code\"; elif [ \"$code\" = '0' ]; then printf 'succeeded:%s' \"$code\"; else printf 'failed:%s' \"$code\"; fi");
    reveal_strlit("if ");
    reveal_strlit("[ -f ");
    reveal_strlit("\"$");
    reveal_strlit("base");
    reveal_strlit("/cancelled");
    reveal_strlit("\"");
    reveal_strlit(" ]");
    reveal_strlit("; then ");
    reveal_strlit("printf '");
    reveal_strlit("cancelled:");
    reveal_strlit("%s' ");
    reveal_strlit("code");
    reveal_strlit("; elif ");
    reveal_strlit("[ ");
    reveal_strlit(" = '");
    reveal_strlit("0");
    reveal_strlit("' ]");
    reveal_strlit("succeeded:");
    reveal_strlit("; else ");
    reveal_strlit("failed:");
    reveal_strlit("; fi");
    assert(verdict().text =~= "if [ -f \"$base/cancelled\" ]; then printf 'cancelled:%s' \"$code\"; elif [ \"$code\" = '0' ]; then printf 'succeeded:%s' \"$code\"; else printf 'failed:%s' \"$code\"; fi"@);
}

proof fn pid_question_reads()
    ensures
        is_file(in_base("/pid"@)).text == "[ -f \"$base/pid\" ]"@,
{
    reveal_strlit("[ -f \"$base/pid\" ]");
    reveal_strlit("[ -f ");
    reveal_strlit("\"$");
    reveal_strlit("base");
    reveal_strlit("/pid");
    reveal_strlit("\"");
    reveal_strlit(" ]");
    assert(is_file(in_base("/pid"@)).text =~= "[ -f \"$base/pid\" ]"@);
}

proof fn running_pid_reads()
    ensures
        read_line("pid"@, in_base("/pid"@)).text == "pid=''; IFS= read -r pid < \"$base/pid\" || [ -n \"$pid\" ]"@,
{
    reveal_strlit("pid=''; IFS= read -r pid < \"$base/pid\" || [ -n \"$pid\" ]");
    reveal_strlit("pid");
    reveal_strlit("=''; IFS= read -r ");
    reveal_strlit(" < ");
    reveal_strlit("\"$");
    reveal_strlit("base");
    reveal_strlit("/pid");
    reveal_strlit("\"");
    reveal_strlit(" || [ -n ");
    reveal_strlit(" ]");
    assert(read_line("pid"@, in_base("/pid"@)).text =~= "pid=''; IFS= read -r pid < \"$base/pid\" || [ -n \"$pid\" ]"@);
}

proof fn liveness_reads()
    ensures
        liveness().text == "if [ -n \"$pid\" ] && kill -0 \"$pid\" 2>/dev/null; then printf 'running:%s' \"$pid\"; elif [ -f \"$base/cancelled\" ]; then printf 'cancelled:'; else printf 'lost'; fi"@,
{
    reveal_strlit("if [ -n \"$pid\" ] && kill -0 \"$pid\" 2>/dev/null; then printf 'running:%s' \"$pid\"; elif [ -f \"$base/cancelled\" ]; then printf 'cancelled:'; else printf 'lost'; fi");
    reveal_strlit("if ");
    reveal_strlit("[ -n ");
    reveal_strlit("\"$");
    reveal_strlit("pid");
    reveal_strlit("\"");
    reveal_strlit(" ]");
    reveal_strlit(" && ");
    reveal_strlit("kill -0 ");
    reveal_strlit(" 2>/dev/null");
    reveal_strlit("; then ");
    reveal_strlit("printf '");
    reveal_strlit("running:");
    reveal_strlit("%s' ");
    reveal_strlit("; elif ");
    reveal_strlit("[ -f ");
    reveal_strlit("base");
    reveal_strlit("/cancelled");
    reveal_strlit("cancelled:");
    reveal_strlit("'");
    reveal_strlit("; else ");
    reveal_strlit("lost");
    reveal_strlit("; fi");
    assert(liveness().text =~= "if [ -n \"$pid\" ] && kill -0 \"$pid\" 2>/dev/null; then printf 'running:%s' \"$pid\"; elif [ -f \"$base/cancelled\" ]; then printf 'cancelled:'; else printf 'lost'; fi"@);
}

proof fn start_reads()
    ensures
        print("starting"@).text == "printf 'starting'"@,
{
    reveal_strlit("printf 'starting'");
    reveal_strlit("printf '");
    reveal_strlit("starting");
    reveal_strlit("'");
    assert(print("starting"@).text =~= "printf 'starting'"@);
}

#[verifier::rlimit(100)]
proof fn probe_splits()
    ensures
        "; if [ -f \"$base/exit_code\" ]; then code=''; IFS= read -r code < \"$base/exit_code\" || [ -n \"$code\" ]; if [ -f \"$base/cancelled\" ]; then printf 'cancelled:%s' \"$code\"; elif [ \"$code\" = '0' ]; then printf 'succeeded:%s' \"$code\"; else printf 'failed:%s' \"$code\"; fi; elif [ -f \"$base/pid\" ]; then pid=''; IFS= read -r pid < \"$base/pid\" || [ -n \"$pid\" ]; if [ -n \"$pid\" ] && kill -0 \"$pid\" 2>/dev/null; then printf 'running:%s' \"$pid\"; elif [ -f \"$base/cancelled\" ]; then printf 'cancelled:'; else printf 'lost'; fi; else printf 'starting'; fi"@ == "; "@ + "if "@ + "[ -f \"$base/exit_code\" ]"@ + "; then "@ + "code=''; IFS= read -r code < \"$base/exit_code\" || [ -n \"$code\" ]"@ + "; "@ + "if [ -f \"$base/cancelled\" ]; then printf 'cancelled:%s' \"$code\"; elif [ \"$code\" = '0' ]; then printf 'succeeded:%s' \"$code\"; else printf 'failed:%s' \"$code\"; fi"@ + "; elif "@ + "[ -f \"$base/pid\" ]"@ + "; then "@ + "pid=''; IFS= read -r pid < \"$base/pid\" || [ -n \"$pid\" ]"@ + "; "@ + "if [ -n \"$pid\" ] && kill -0 \"$pid\" 2>/dev/null; then printf 'running:%s' \"$pid\"; elif [ -f \"$base/cancelled\" ]; then printf 'cancelled:'; else printf 'lost'; fi"@ + "; else "@ + "printf 'starting'"@ + "; fi"@,
{
    let all = "; if [ -f \"$base/exit_code\" ]; then code=''; IFS= read -r code < \"$base/exit_code\" || [ -n \"$code\" ]; if [ -f \"$base/cancelled\" ]; then printf 'cancelled:%s' \"$code\"; elif [ \"$code\" = '0' ]; then printf 'succeeded:%s' \"$code\"; else printf 'failed:%s' \"$code\"; fi; elif [ -f \"$base/pid\" ]; then pid=''; IFS= read -r pid < \"$base/pid\" || [ -n \"$pid\" ]; if [ -n \"$pid\" ] && kill -0 \"$pid\" 2>/dev/null; then printf 'running:%s' \"$pid\"; elif [ -f \"$base/cancelled\" ]; then printf 'cancelled:'; else printf 'lost'; fi; else printf 'starting'; fi"@;
    assert(all.len() == 539) by {
        reveal_strlit("; if [ -f \"$base/exit_code\" ]; then code=''; IFS= read -r code < \"$base/exit_code\" || [ -n \"$code\" ]; if [ -f \"$base/cancelled\" ]; then printf 'cancelled:%s' \"$code\"; elif [ \"$code\" = '0' ]; then printf 'succeeded:%s' \"$code\"; else printf 'failed:%s' \"$code\"; fi; elif [ -f \"$base/pid\" ]; then pid=''; IFS= read -r pid < \"$base/pid\" || [ -n \"$pid\" ]; if [ -n \"$pid\" ] && kill -0 \"$pid\" 2>/dev/null; then printf 'running:%s' \"$pid\"; elif [ -f \"$base/cancelled\" ]; then printf 'cancelled:'; else printf 'lost'; fi; else printf 'starting'; fi");
    }
    let p0 = "; "@;
    assert(all.subrange(0, 2) == p0) by {
        reveal_strlit("; if [ -f \"$base/exit_code\" ]; then code=''; IFS= read -r code < \"$base/exit_code\" || [ -n \"$code\" ]; if [ -f \"$base/cancelled\" ]; then printf 'cancelled:%s' \"$code\"; elif [ \"$code\" = '0' ]; then printf 'succeeded:%s' \"$code\"; else printf 'failed:%s' \"$code\"; fi; elif [ -f \"$base/pid\" ]; then pid=''; IFS= read -r pid < \"$base/pid\" || [ -n \"$pid\" ]; if [ -n \"$pid\" ] && kill -0 \"$pid\" 2>/dev/null; then printf 'running:%s' \"$pid\"; elif [ -f \"$base/cancelled\" ]; then printf 'cancelled:'; else printf 'lost'; fi; else printf 'starting'; fi");
        reveal_strlit("; ");
        assert(all.subrange(0, 2) =~= p0);
    }
    let p1 = "if "@ + "[ -f \"$base/exit_code\" ]"@ + "; then "@;
    assert(all.subrange(2, 36) == p1) by {
        reveal_strlit("; if [ -f \"$base/exit_code\" ]; then code=''; IFS= read -r code < \"$base/exit_code\" || [ -n \"$code\" ]; if [ -f \"$base/cancelled\" ]; then printf 'cancelled:%s' \"$code\"; elif [ \"$code\" = '0' ]; then printf 'succeeded:%s' \"$code\"; else printf 'failed:%s' \"$code\"; fi; elif [ -f \"$base/pid\" ]; then pid=''; IFS= read -r pid < \"$base/pid\" || [ -n \"$pid\" ]; if [ -n \"$pid\" ] && kill -0 \"$pid\" 2>/dev/null; then printf 'running:%s' \"$pid\"; elif [ -f \"$base/cancelled\" ]; then printf 'cancelled:'; else printf 'lost'; fi; else printf 'starting'; fi");
        reveal_strlit("if ");
        reveal_strlit("[ -f \"$base/exit_code\" ]");
        reveal_strlit("; then ");
        assert(all.subrange(2, 36) =~= p1);
    }
    let p2 = "code=''; IFS= read -r code < \"$base/exit_code\" || [ -n \"$code\" ]"@ + "; "@;
    assert(all.subrange(36, 102) == p2) by {
        reveal_strlit("; if [ -f \"$base/exit_code\" ]; then code=''; IFS= read -r code < \"$base/exit_code\" || [ -n \"$code\" ]; if [ -f \"$base/cancelled\" ]; then printf 'cancelled:%s' \"$code\"; elif [ \"$code\" = '0' ]; then printf 'succeeded:%s' \"$code\"; else printf 'failed:%s' \"$code\"; fi; elif [ -f \"$base/pid\" ]; then pid=''; IFS= read -r pid < \"$base/pid\" || [ -n \"$pid\" ]; if [ -n \"$pid\" ] && kill -0 \"$pid\" 2>/dev/null; then printf 'running:%s' \"$pid\"; elif [ -f \"$base/cancelled\" ]; then printf 'cancelled:'; else printf 'lost'; fi; else printf 'starting'; fi");
        reveal_strlit("code=''; IFS= read -r code < \"$base/exit_code\" || [ -n \"$code\" ]");
        reveal_strlit("; ");
        assert(all.subrange(36, 102) =~= p2);
    }
    let p3 = "if [ -f \"$base/cancelled\" ]; then printf 'cancelled:%s' \"$code\"; elif [ \"$code\" = '0' ]; then printf 'succeeded:%s' \"$code\"; else printf 'failed:%s' \"$code\"; fi"@;
    assert(all.subrange(102, 262) == p3) by {
        reveal_strlit("; if [ -f \"$base/exit_code\" ]; then code=''; IFS= read -r code < \"$base/exit_code\" || [ -n \"$code\" ]; if [ -f \"$base/cancelled\" ]; then printf 'cancelled:%s' \"$code\"; elif [ \"$code\" = '0' ]; then printf 'succeeded:%s' \"$code\"; else printf 'failed:%s' \"$code\"; fi; elif [ -f \"$base/pid\" ]; then pid=''; IFS= read -r pid < \"$base/pid\" || [ -n \"$pid\" ]; if [ -n \"$pid\" ] && kill -0 \"$pid\" 2>/dev/null; then printf 'running:%s' \"$pid\"; elif [ -f \"$base/cancelled\" ]; then printf 'cancelled:'; else printf 'lost'; fi; else printf 'starting'; fi");
        reveal_strlit("if [ -f \"$base/cancelled\" ]; then printf 'cancelled:%s' \"$code\"; elif [ \"$code\" = '0' ]; then printf 'succeeded:%s' \"$code\"; else printf 'failed:%s' \"$code\"; fi");
        assert(all.subrange(102, 262) =~= p3);
    }
    let p4 = "; elif "@ + "[ -f \"$base/pid\" ]"@ + "; then "@;
    assert(all.subrange(262, 294) == p4) by {
        reveal_strlit("; if [ -f \"$base/exit_code\" ]; then code=''; IFS= read -r code < \"$base/exit_code\" || [ -n \"$code\" ]; if [ -f \"$base/cancelled\" ]; then printf 'cancelled:%s' \"$code\"; elif [ \"$code\" = '0' ]; then printf 'succeeded:%s' \"$code\"; else printf 'failed:%s' \"$code\"; fi; elif [ -f \"$base/pid\" ]; then pid=''; IFS= read -r pid < \"$base/pid\" || [ -n \"$pid\" ]; if [ -n \"$pid\" ] && kill -0 \"$pid\" 2>/dev/null; then printf 'running:%s' \"$pid\"; elif [ -f \"$base/cancelled\" ]; then printf 'cancelled:'; else printf 'lost'; fi; else printf 'starting'; fi");
        reveal_strlit("; elif ");
        reveal_strlit("[ -f \"$base/pid\" ]");
        reveal_strlit("; then ");
        assert(all.subrange(262, 294) =~= p4);
    }
    let p5 = "pid=''; IFS= read -r pid < \"$base/pid\" || [ -n \"$pid\" ]"@ + "; "@;
    assert(all.subrange(294, 351) == p5) by {
        reveal_strlit("; if [ -f \"$base/exit_code\" ]; then code=''; IFS= read -r code < \"$base/exit_code\" || [ -n \"$code\" ]; if [ -f \"$base/cancelled\" ]; then printf 'cancelled:%s' \"$code\"; elif [ \"$code\" = '0' ]; then printf 'succeeded:%s' \"$code\"; else printf 'failed:%s' \"$code\"; fi; elif [ -f \"$base/pid\" ]; then pid=''; IFS= read -r pid < \"$base/pid\" || [ -n \"$pid\" ]; if [ -n \"$pid\" ] && kill -0 \"$pid\" 2>/dev/null; then printf 'running:%s' \"$pid\"; elif [ -f \"$base/cancelled\" ]; then printf 'cancelled:'; else printf 'lost'; fi; else printf 'starting'; fi");
        reveal_strlit("pid=''; IFS= read -r pid < \"$base/pid\" || [ -n \"$pid\" ]");
        reveal_strlit("; ");
        assert(all.subrange(294, 351) =~= p5);
    }
    let p6 = "if [ -n \"$pid\" ] && kill -0 \"$pid\" 2>/dev/null; then printf 'running:%s' \"$pid\"; elif [ -f \"$base/cancelled\" ]; then printf 'cancelled:'; else printf 'lost'; fi"@;
    assert(all.subrange(351, 511) == p6) by {
        reveal_strlit("; if [ -f \"$base/exit_code\" ]; then code=''; IFS= read -r code < \"$base/exit_code\" || [ -n \"$code\" ]; if [ -f \"$base/cancelled\" ]; then printf 'cancelled:%s' \"$code\"; elif [ \"$code\" = '0' ]; then printf 'succeeded:%s' \"$code\"; else printf 'failed:%s' \"$code\"; fi; elif [ -f \"$base/pid\" ]; then pid=''; IFS= read -r pid < \"$base/pid\" || [ -n \"$pid\" ]; if [ -n \"$pid\" ] && kill -0 \"$pid\" 2>/dev/null; then printf 'running:%s' \"$pid\"; elif [ -f \"$base/cancelled\" ]; then printf 'cancelled:'; else printf 'lost'; fi; else printf 'starting'; fi");
        reveal_strlit("if [ -n \"$pid\" ] && kill -0 \"$pid\" 2>/dev/null; then printf 'running:%s' \"$pid\"; elif [ -f \"$base/cancelled\" ]; then printf 'cancelled:'; else printf 'lost'; fi");
        assert(all.subrange(351, 511) =~= p6);
    }
    let p7 = "; else "@ + "printf 'starting'"@ + "; fi"@;
    assert(all.subrange(511, 539) == p7) by {
        reveal_strlit("; if [ -f \"$base/exit_code\" ]; then code=''; IFS= read -r code < \"$base/exit_code\" || [ -n \"$code\" ]; if [ -f \"$base/cancelled\" ]; then printf 'cancelled:%s' \"$code\"; elif [ \"$code\" = '0' ]; then printf 'succeeded:%s' \"$code\"; else printf 'failed:%s' \"$code\"; fi; elif [ -f \"$base/pid\" ]; then pid=''; IFS= read -r pid < \"$base/pid\" || [ -n \"$pid\" ]; if [ -n \"$pid\" ] && kill -0 \"$pid\" 2>/dev/null; then printf 'running:%s' \"$pid\"; elif [ -f \"$base/cancelled\" ]; then printf 'cancelled:'; else printf 'lost'; fi; else printf 'starting'; fi");
        reveal_strlit("; else ");
        reveal_strlit("printf 'starting'");
        reveal_strlit("; fi");
        assert(all.subrange(511, 539) =~= p7);
    }
    assert(all.subrange(0, 36) =~= all.subrange(0, 2) + all.subrange(2, 36));
    assert(all.subrange(0, 102) =~= all.subrange(0, 36) + all.subrange(36, 102));
    assert(all.subrange(0, 262) =~= all.subrange(0, 102) + all.subrange(102, 262));
    assert(all.subrange(0, 294) =~= all.subrange(0, 262) + all.subrange(262, 294));
    assert(all.subrange(0, 351) =~= all.subrange(0, 294) + all.subrange(294, 351));
    assert(all.subrange(0, 511) =~= all.subrange(0, 351) + all.subrange(351, 511));
    assert(all.subrange(0, 539) =~= all.subrange(0, 511) + all.subrange(511, 539));
    assert(all.subrange(0, 539) =~= all);
    assert("; "@ + "if "@ + "[ -f \"$base/exit_code\" ]"@ + "; then "@ + "code=''; IFS= read -r code < \"$base/exit_code\" || [ -n \"$code\" ]"@ + "; "@ + "if [ -f \"$base/cancelled\" ]; then printf 'cancelled:%s' \"$code\"; elif [ \"$code\" = '0' ]; then printf 'succeeded:%s' \"$code\"; else printf 'failed:%s' \"$code\"; fi"@ + "; elif "@ + "[ -f \"$base/pid\" ]"@ + "; then "@ + "pid=''; IFS= read -r pid < \"$base/pid\" || [ -n \"$pid\" ]"@ + "; "@ + "if [ -n \"$pid\" ] && kill -0 \"$pid\" 2>/dev/null; then printf 'running:%s' \"$pid\"; elif [ -f \"$base/cancelled\" ]; then printf 'cancelled:'; else printf 'lost'; fi"@ + "; else "@ + "printf 'starting'"@ + "; fi"@ =~= p0 + p1 + p2 + p3 + p4 + p5 + p6 + p7);
}

proof fn probe_reads(id: ProcessId)
    ensures
        probe_program(id).text == probe_script(id),
{
    probe_splits();
    exit_question_reads();
    exit_code_reads();
    verdict_reads();
    pid_question_reads();
    running_pid_reads();
    liveness_reads();
    start_reads();
    reveal_strlit("base=");
    reveal_strlit("base");
    reveal_strlit("=");
    let d = shell_word(dir_of(id));
    let a = "base="@ + d;
    assert("base"@ + "="@ + d =~= a);
    let q = is_file(in_base("/exit_code"@)).text;
    let r = read_line("code"@, in_base("/exit_code"@)).text;
    let v = verdict().text;
    let k = is_file(in_base("/pid"@)).text;
    let p = read_line("pid"@, in_base("/pid"@)).text;
    let l = liveness().text;
    let s = print("starting"@).text;
    let t0 = "if "@ + q;
    grouped("; "@, "if "@, q);
    grouped(a, "; "@ + "if "@, q);
    let t1 = t0 + "; then "@;
    grouped("; "@, t0, "; then "@);
    grouped(a, "; "@ + t0, "; then "@);
    grouped(t1, r + "; "@, v);
    grouped(t1, r, "; "@);
    let t2 = t1 + r;
    grouped("; "@, t1, r);
    grouped(a, "; "@ + t1, r);
    let t3 = t2 + "; "@;
    grouped("; "@, t2, "; "@);
    grouped(a, "; "@ + t2, "; "@);
    let t4 = t3 + v;
    grouped("; "@, t3, v);
    grouped(a, "; "@ + t3, v);
    let t5 = t4 + "; elif "@;
    grouped("; "@, t4, "; elif "@);
    grouped(a, "; "@ + t4, "; elif "@);
    let t6 = t5 + k;
    grouped("; "@, t5, k);
    grouped(a, "; "@ + t5, k);
    let t7 = t6 + "; then "@;
    grouped("; "@, t6, "; then "@);
    grouped(a, "; "@ + t6, "; then "@);
    grouped(t7, p + "; "@, l);
    grouped(t7, p, "; "@);
    let t8 = t7 + p;
    grouped("; "@, t7, p);
    grouped(a, "; "@ + t7, p);
    let t9 = t8 + "; "@;
    grouped("; "@, t8, "; "@);
    grouped(a, "; "@ + t8, "; "@);
    let t10 = t9 + l;
    grouped("; "@, t9, l);
    grouped(a, "; "@ + t9, l);
    let t11 = t10 + "; else "@;
    grouped("; "@, t10, "; else "@);
    grouped(a, "; "@ + t10, "; else "@);
    let t12 = t11 + s;
    grouped("; "@, t11, s);
    grouped(a, "; "@ + t11, s);
    let t13 = t12 + "; fi"@;
    grouped("; "@, t12, "; fi"@);
    grouped(a, "; "@ + t12, "; fi"@);
    grouped(a, "; "@, "if "@);
    assert(probe_program(id).text == a + "; "@ + t13);
    assert(probe_script(id) == a + ("; "@ + t13));
    grouped(a, "; "@, t13);
}

proof fn names_differ()
    ensures
        "base"@ != "pid"@,
        "base"@ != "code"@,
        "pid_file"@ != "pid"@,
        "path"@ != "base"@,
        "PYTHONUNBUFFERED"@ != "code"@,
        "kill_descendants"@ != "kill_descendants_kill"@,
{
    reveal_strlit("base");
    reveal_strlit("pid");
    reveal_strlit("code");
    reveal_strlit("pid_file");
    reveal_strlit("path");
    reveal_strlit("PYTHONUNBUFFERED");
    reveal_strlit("kill_descendants");
    reveal_strlit("kill_descendants_kill");
    assert("base"@[0] == 'b');
    assert("code"@[0] == 'c');
    assert("path"@[0] == 'p');
    assert("pid"@.len() == 3);
    assert("pid_file"@.len() == 8);
    assert("kill_descendants"@.len() == 16);
    assert("kill_descendants_kill"@.len() == 21);
}

proof fn files_differ(dir: Seq<char>)
    ensures
        dir + "/stdout.log"@ != dir + "/stderr.log"@,
        dir + "/stdout.log"@ != dir + "/exit_code"@,
        dir + "/stdout.log"@ != dir + "/pid"@,
        dir + "/stdout.log"@ != dir + "/cancelled"@,
        dir + "/stderr.log"@ != dir + "/exit_code"@,
        dir + "/stderr.log"@ != dir + "/pid"@,
        dir + "/stderr.log"@ != dir + "/cancelled"@,
        dir + "/exit_code"@ != dir + "/pid"@,
        dir + "/exit_code"@ != dir + "/cancelled"@,
        dir + "/pid"@ != dir + "/cancelled"@,
{
    reveal_strlit("/stdout.log");
    reveal_strlit("/stderr.log");
    reveal_strlit("/exit_code");
    reveal_strlit("/pid");
    reveal_strlit("/cancelled");
    let n = dir.len() as int;
    assert((dir + "/stdout.log"@)[n + 4] == 'o');
    assert((dir + "/stderr.log"@)[n + 4] == 'e');
    assert((dir + "/exit_code"@)[n + 1] == 'e');
    assert((dir + "/cancelled"@)[n + 1] == 'c');
    assert((dir + "/stdout.log"@).len() == n + 11);
    assert((dir + "/stderr.log"@).len() == n + 11);
    assert((dir + "/exit_code"@).len() == n + 10);
    assert((dir + "/cancelled"@).len() == n + 10);
    assert((dir + "/pid"@).len() == n + 4);
}

/// A launch starts one program. What its command writes to its first output goes to the file that
/// the record of the process names for that, which is where a read of that stream looks, and what
/// it writes to the second goes to the other one. Both are empty before; nothing is left of an
/// earlier run; and the file for the identifier holds the one of the program.
pub proof fn launched_output_goes_to_its_logs(
    id: ProcessId,
    request: ProcessStart,
    now: TimeModel,
    range: LogRange,
    m: Machine,
)
    requires
        m.left is None,
    ensures
        ({
            let p = new_process(id, request, now);
            let program = launch_program(id, p.command);
            let after = program.on(m);
            let started = after.started.last();
            &&& program.text == launch_script(id, p.command)
            &&& after.left is None
            &&& after.printed == m.printed
            &&& after.started.drop_last() == m.started
            &&& started.script == wrapped_command(id, p.command)
            &&& started.stdout == p.stdout_path
            &&& started.stderr == p.stderr_path
            &&& started.stdout != started.stderr
            &&& log_path(range, p) == match range.stream {
                StreamName::Stdout => started.stdout,
                StreamName::Stderr => started.stderr,
            }
            &&& after.files[started.stdout] == Seq::<char>::empty()
            &&& after.files[started.stderr] == Seq::<char>::empty()
            &&& after.files.contains_key(started.stdout)
            &&& after.files.contains_key(started.stderr)
            &&& !after.files.contains_key(dir_of(id) + "/exit_code"@)
            &&& !after.files.contains_key(dir_of(id) + "/cancelled"@)
            &&& after.files.contains_key(dir_of(id) + "/pid"@)
            &&& after.files[dir_of(id) + "/pid"@] == m.next_pid
        }),
{
    let p = new_process(id, request, now);
    launch_reads(id, p.command);
    names_differ();
    files_differ(dir_of(id));
    let program = launch_program(id, p.command);
    let after = program.on(m);
    assert(after.started == m.started.push(
        Started {
            script: wrapped_command(id, p.command),
            stdout: p.stdout_path,
            stderr: p.stderr_path,
        },
    ));
    assert(after.started.drop_last() =~= m.started);
}

/// The program that a launch starts: it runs the command, and leaves its exit code in a file and
/// with it.
pub open spec fn wrapped_program(id: ProcessId, command: Seq<Seq<char>>) -> Piece {
    export("PYTHONUNBUFFERED"@, "1"@).and_then(run(command, "code"@)).and_then(
        keep_var("code"@, Word::Quoted(dir_of(id) + "/exit_code"@)),
    ).and_then(leave_with("code"@))
}

proof fn wrapped_reads(id: ProcessId, command: Seq<Seq<char>>)
    ensures
        wrapped_program(id, command).text == wrapped_command(id, command),
{
    reveal_strlit("export PYTHONUNBUFFERED=1; ");
    reveal_strlit("export ");
    reveal_strlit("PYTHONUNBUFFERED");
    reveal_strlit("=");
    reveal_strlit("1");
    reveal_strlit("; ");
    reveal_strlit("=$?");
    reveal_strlit("code");
    reveal_strlit("; code=$?; printf '%s' \"$code\" > ");
    reveal_strlit("printf '%s' ");
    reveal_strlit("\"$");
    reveal_strlit("\"");
    reveal_strlit(" > ");
    reveal_strlit("; exit \"$code\"");
    reveal_strlit("exit ");
    let w = shell_words(command);
    let e = shell_word(dir_of(id) + "/exit_code"@);
    let none = Seq::<char>::empty();
    let of = "\"$"@ + "code"@ + none + "\""@;
    assert("export PYTHONUNBUFFERED=1; "@ =~= ("export "@ + "PYTHONUNBUFFERED"@ + "="@ + "1"@) + "; "@);
    assert("; code=$?; printf '%s' \"$code\" > "@ =~= "; "@ + "code"@ + "=$?"@ + "; "@ + ("printf '%s' "@ + of
        + " > "@));
    assert("; exit \"$code\""@ =~= "; "@ + ("exit "@ + of));
    assert(wrapped_program(id, command).text =~= wrapped_command(id, command));
}

/// The program that a launch starts runs the command, word for word, and nothing else. Its exit
/// code is that of the command, and stands in the file that a probe looks at.
pub proof fn commands_are_run_as_they_are(id: ProcessId, command: Seq<Seq<char>>, m: Machine)
    requires
        m.left is None,
    ensures
        ({
            let program = wrapped_program(id, command);
            let after = program.on(m);
            &&& program.text == wrapped_command(id, command)
            &&& after.ran == m.ran.push(command)
            &&& after.left == Some((m.codes)(command))
            &&& after.files == m.files.insert(dir_of(id) + "/exit_code"@, (m.codes)(command))
            &&& after.started == m.started
        }),
{
    wrapped_reads(id, command);
    names_differ();
}

/// What a probe prints, by the files of a process and by whether it can be reached.
pub proof fn probes_say_how_a_process_is_doing(id: ProcessId, m: Machine)
    requires
        m.left is None,
    ensures
        ({
            let program = probe_program(id);
            let after = program.on(m);
            let ended = m.files.contains_key(dir_of(id) + "/exit_code"@);
            let code = line_of(m.files[dir_of(id) + "/exit_code"@]);
            let begun = m.files.contains_key(dir_of(id) + "/pid"@);
            let pid = line_of(m.files[dir_of(id) + "/pid"@]);
            let cancelled = m.files.contains_key(dir_of(id) + "/cancelled"@);
            &&& program.text == probe_script(id)
            &&& after.files == m.files
            &&& after.signals == m.signals
            &&& after.printed == m.printed + (if ended && cancelled {
                "cancelled:"@ + code
            } else if ended && code == "0"@ {
                "succeeded:"@ + code
            } else if ended {
                "failed:"@ + code
            } else if begun && pid.len() > 0 && m.alive.contains(pid) {
                "running:"@ + pid
            } else if begun && cancelled {
                "cancelled:"@
            } else if begun {
                "lost"@
            } else {
                "starting"@
            })
        }),
{
    probe_reads(id);
    names_differ();
    let after = probe_program(id).on(m);
    let ended = m.files.contains_key(dir_of(id) + "/exit_code"@);
    let code = line_of(m.files[dir_of(id) + "/exit_code"@]);
    let pid = line_of(m.files[dir_of(id) + "/pid"@]);
    assert(m.printed + "cancelled:"@ + code =~= m.printed + ("cancelled:"@ + code));
    assert(m.printed + "succeeded:"@ + code =~= m.printed + ("succeeded:"@ + code));
    assert(m.printed + "failed:"@ + code =~= m.printed + ("failed:"@ + code));
    assert(m.printed + "running:"@ + pid =~= m.printed + ("running:"@ + pid));
}

/// A cancellation signals nothing where no identifier is known. Where the file for it holds one, the
/// process is asked to end, with everything that it started, and made to where it still runs
/// after that. A process that has started nothing gets the signals itself.
pub proof fn cancellations_reach_the_process(id: ProcessId, pid: Seq<char>, m: Machine)
    requires
        m.left is None,
        m.signals.len() == 0,
        pid.len() > 0,
        !pid.contains('\n'),
    ensures
        ({
            let program = kill_program(id);
            let after = program.on(m);
            let file = dir_of(id) + "/pid"@;
            let all = reached(m.below, pid, m.depth).0;
            &&& program.text == kill_script(id)
            &&& after.files == m.files
            &&& !m.files.contains_key(file) ==> after.signals.len() == 0
            &&& m.files.contains_key(file) && m.files[file] == pid ==> {
                &&& after.signals == signals_to("TERM"@, all) + (if m.alive.contains(pid) {
                    signals_to("KILL"@, all)
                } else {
                    Seq::<(Seq<char>, Seq<char>)>::empty()
                })
                &&& (m.below)(pid).len() == 0 ==> after.signals[0] == ("TERM"@, pid)
                &&& forall|other: Seq<char>|
                    (m.below)(other).len() == 0 && #[trigger] stems_from(
                        m.below,
                        other,
                        pid,
                        m.depth,
                    ) ==> after.signals.contains(("TERM"@, other))
                &&& forall|i: int|
                    0 <= i < after.signals.len() ==> stems_from(
                        m.below,
                        (#[trigger] after.signals[i]).1,
                        pid,
                        m.depth,
                    )
            }
        }),
{
    kill_reads(id);
    names_differ();
    plain_texts_are_one_line(pid);
    signals_reach_what_was_started(m.below, pid, m.depth);
    let file = dir_of(id) + "/pid"@;
    let after = kill_program(id).on(m);
    let none = Seq::<char>::empty();
    assert(file + none =~= file);
    if m.files.contains_key(file) && m.files[file] == pid {
        let all = reached(m.below, pid, m.depth).0;
        assert(m.signals + signals_to("TERM"@, all) =~= signals_to("TERM"@, all));
        if !m.alive.contains(pid) {
            assert(signals_to("TERM"@, all) + Seq::<(Seq<char>, Seq<char>)>::empty() =~= signals_to(
                "TERM"@,
                all,
            ));
        }
        if (m.below)(pid).len() == 0 {
            lone_processes_are_reached(m.below, pid, m.depth);
        }
        assert forall|other: Seq<char>|
            (m.below)(other).len() == 0 && #[trigger] stems_from(
                m.below,
                other,
                pid,
                m.depth,
            ) implies after.signals.contains(("TERM"@, other)) by {
            assert(all.contains(other));
            let i = choose|i: int| 0 <= i < all.len() && all[i] == other;
            assert(after.signals[i] == ("TERM"@, other));
        }
        assert forall|i: int| 0 <= i < after.signals.len() implies stems_from(
            m.below,
            (#[trigger] after.signals[i]).1,
            pid,
            m.depth,
        ) by {
            let k = if i < all.len() {
                i
            } else {
                i - all.len()
            };
            assert(after.signals[i].1 == all[k]);
        }
    }
}

/// The word for the file of a log.
pub open spec fn log_file() -> Word {
    Word::Of("path"@, Seq::empty())
}

/// The measuring of a log.
pub open spec fn log_size_program(path: Seq<char>) -> Piece {
    assign("path"@, Word::Quoted(path)).and_then(
        either(is_no_file(log_file()), print_zero(), print_size(log_file())),
    )
}

proof fn log_size_reads(path: Seq<char>)
    ensures
        log_size_program(path).text == log_size_script(path),
{
    reveal_strlit("; if [ ! -f \"$path\" ]; then printf 0; else wc -c < \"$path\" | tr -d ' '; fi");
    reveal_strlit("; ");
    reveal_strlit("if ");
    reveal_strlit("[ ! -f ");
    reveal_strlit("\"$");
    reveal_strlit("path");
    reveal_strlit("\"");
    reveal_strlit(" ]");
    reveal_strlit("; then ");
    reveal_strlit("printf 0");
    reveal_strlit("; else ");
    reveal_strlit("wc -c < ");
    reveal_strlit(" | tr -d ' '");
    reveal_strlit("; fi");
    reveal_strlit("path=");
    reveal_strlit("=");
    let w = shell_word(path);
    assert("path"@ + "="@ + w =~= "path="@ + w);
    assert("; if [ ! -f \"$path\" ]; then printf 0; else wc -c < \"$path\" | tr -d ' '; fi"@ =~= "; "@ + "if "@ + "[ ! -f "@ + "\"$"@ + "path"@ + Seq::<char>::empty() + "\""@ + " ]"@ + "; then "@ + "printf 0"@ + "; else "@ + "wc -c < "@ + "\"$"@ + "path"@ + Seq::<char>::empty() + "\""@ + " | tr -d ' '"@ + "; fi"@);
    assert(log_size_program(path).text =~= log_size_script(path));
}

/// The reading of a part of a log.
pub open spec fn log_program(path: Seq<char>, offset: u64, limit: u64) -> Piece {
    assign("path"@, Word::Quoted(path)).and_then(where_so(is_no_file(log_file()), leave())).and_then(
        print_part(log_file(), (offset + 1) as nat, asked_bytes(limit) as nat),
    )
}

proof fn log_reads(path: Seq<char>, offset: u64, limit: u64)
    ensures
        log_program(path, offset, limit).text == log_script(path, offset, limit),
{
    reveal_strlit("; if [ ! -f \"$path\" ]; then exit 0; fi; tail -c +");
    reveal_strlit(" \"$path\" | head -c ");
    reveal_strlit("; ");
    reveal_strlit("if ");
    reveal_strlit("[ ! -f ");
    reveal_strlit("\"$");
    reveal_strlit("path");
    reveal_strlit("\"");
    reveal_strlit(" ]");
    reveal_strlit("; then ");
    reveal_strlit("exit 0");
    reveal_strlit("; fi");
    reveal_strlit("tail -c +");
    reveal_strlit(" ");
    reveal_strlit(" | head -c ");
    reveal_strlit("path=");
    reveal_strlit("=");
    let w = shell_word(path);
    assert("path"@ + "="@ + w =~= "path="@ + w);
    assert("; if [ ! -f \"$path\" ]; then exit 0; fi; tail -c +"@ =~= "; "@ + "if "@ + "[ ! -f "@ + "\"$"@ + "path"@ + Seq::<char>::empty() + "\""@ + " ]"@ + "; then "@ + "exit 0"@ + "; fi"@ + "; "@ + "tail -c +"@);
    assert(" \"$path\" | head -c "@ =~= " "@ + "\"$"@ + "path"@ + Seq::<char>::empty() + "\""@ + " | head -c "@);
    assert(log_program(path, offset, limit).text =~= log_script(path, offset, limit));
}

/// The scripts for a log print how long its file is, and the part of it that is asked for; of a
/// file that is not there, that it is empty, and nothing. Each character of the file is a byte.
pub proof fn log_scripts_print_the_log(path: Seq<char>, offset: u64, limit: u64, m: Machine)
    requires
        m.left is None,
        m.printed.len() == 0,
    ensures
        ({
            let size = log_size_program(path);
            let part = log_program(path, offset, limit);
            let there = m.files.contains_key(path);
            &&& size.text == log_size_script(path)
            &&& part.text == log_script(path, offset, limit)
            &&& trimmed(size.on(m).printed) == decimal(
                if there {
                    m.files[path].len()
                } else {
                    0
                },
            )
            &&& part.on(m).printed == (if there {
                log_part(m.files[path], offset as int, limit)
            } else {
                Seq::<char>::empty()
            })
            &&& size.on(m).files == m.files
            &&& part.on(m).files == m.files
        }),
{
    log_size_reads(path);
    log_reads(path, offset, limit);
    names_differ();
    reveal_strlit("0");
    let none = Seq::<char>::empty();
    assert(path + none =~= path);
    let n = if m.files.contains_key(path) {
        m.files[path].len()
    } else {
        0
    };
    decimal_is_digits(n);
    assert(m.printed + "0"@ =~= decimal(0));
    trimmed_keeps(decimal(n));
    assert(m.printed + decimal(n) + seq!['\n'] =~= decimal(n).push('\n'));
    let line = decimal(n).push('\n');
    assert(line.drop_last() =~= decimal(n));
    assert(m.printed + log_part(m.files[path], offset as int, limit) =~= log_part(
        m.files[path],
        offset as int,
        limit,
    ));
}

proof fn decimal_is_digits(n: nat)
    ensures
        decimal(n).len() > 0,
        forall|i: int| 0 <= i < decimal(n).len() ==> '0' <= #[trigger] decimal(n)[i] <= '9',
    decreases n,
{
    if n >= 10 {
        decimal_is_digits(n / 10);
    }
}

/// The removal of the files of a process leaves none of them, and touches no others.
pub proof fn swept_processes_leave_no_files(id: ProcessId, m: Machine)
    requires
        m.left is None,
    ensures
        ({
            let program = remove_tree(Word::Quoted(dir_of(id)));
            let after = program.on(m);
            &&& program.text == sweep_script(id)
            &&& forall|path: Seq<char>|
                is_within(path, dir_of(id)) ==> !#[trigger] after.files.contains_key(path)
            &&& forall|path: Seq<char>|
                !is_within(path, dir_of(id)) && m.files.contains_key(path)
                    ==> #[trigger] after.files.contains_key(path) && after.files[path]
                    == m.files[path]
        }),
{
}

proof fn codes_read_back(n: nat)
    requires
        n <= 255,
    ensures
        parsed_int(decimal(n), 0x8000_0000, i32::MAX as nat) == Ok::<int, IntError>(n as int),
        decimal(n) == "0"@ <==> n == 0,
{
    reveal_strlit("0");
    decimal_is_digits(n);
    decimal_reads_back(n, i32::MAX as nat);
    if n == 0 {
        assert(decimal(0) =~= "0"@);
    } else if decimal(n) == "0"@ {
        decimal_reads_back(0, i32::MAX as nat);
        assert(decimal(0) =~= "0"@);
    }
}

proof fn answer_reads(head: Seq<char>, n: nat)
    requires
        head.len() > 0,
        !white(head[0]),
    ensures
        trimmed(head + decimal(n)) == head + decimal(n),
        starts(head + decimal(n), head),
        without_prefix(head + decimal(n), head) == decimal(n),
{
    decimal_is_digits(n);
    trimmed_keeps(head + decimal(n));
    assert((head + decimal(n)).subrange(0, head.len() as int) =~= head);
    assert(without_prefix(head + decimal(n), head) =~= decimal(n));
}

/// A process ends as its command did: once its exit code stands in its file, a probe makes it one
/// that has succeeded exactly where the code is zero, and failed otherwise, or cancelled where it
/// was marked as that, and keeps the code. Before that it runs while it can be reached.
pub proof fn processes_end_as_their_commands_did(
    p: ProcessModel,
    code: nat,
    pid: nat,
    now: TimeModel,
    expiry: TimeModel,
    m: Machine,
)
    requires
        code <= 255,
        pid <= u32::MAX,
        m.left is None,
        m.printed.len() == 0,
    ensures
        ({
            let answer = trimmed(probe_program(p.id).on(m).printed);
            let q = probed(p, answer, now, expiry);
            let ended = m.files.contains_key(dir_of(p.id) + "/exit_code"@);
            let begun = m.files.contains_key(dir_of(p.id) + "/pid"@);
            let cancelled = m.files.contains_key(dir_of(p.id) + "/cancelled"@);
            &&& ended && m.files[dir_of(p.id) + "/exit_code"@] == decimal(code) ==> {
                &&& q.exit_code == Some(code as i32)
                &&& q.finished_at is Some
                &&& q.status == (if cancelled {
                    ProcessStatus::Cancelled
                } else if code == 0 {
                    ProcessStatus::Succeeded
                } else {
                    ProcessStatus::Failed
                })
            }
            &&& !ended && begun && m.files[dir_of(p.id) + "/pid"@] == decimal(pid)
                && m.alive.contains(decimal(pid)) ==> {
                &&& q.status is Running
                &&& q.backend_pid == Some(pid as u32)
                &&& q.exit_code is None
                &&& q.finished_at is None
            }
        }),
{
    probes_say_how_a_process_is_doing(p.id, m);
    codes_read_back(code);
    decimal_is_digits(code);
    decimal_is_digits(pid);
    plain_texts_are_one_line(decimal(code));
    plain_texts_are_one_line(decimal(pid));
    reveal_strlit("cancelled:");
    reveal_strlit("succeeded:");
    reveal_strlit("failed:");
    reveal_strlit("running:");
    answer_reads("cancelled:"@, code);
    answer_reads("succeeded:"@, code);
    answer_reads("failed:"@, code);
    answer_reads("running:"@, pid);
    decimal_reads_back(pid, u32::MAX as nat);
    assert(("cancelled:"@ + decimal(code))[0] == 'c');
    assert(("succeeded:"@ + decimal(code))[0] == 's');
    assert(("failed:"@ + decimal(code))[0] == 'f');
    assert(("running:"@ + decimal(pid))[0] == 'r');
    let a = probe_program(p.id).on(m).printed;
    assert forall|h: Seq<char>| #[trigger] starts(a, h) && h.len() > 0 implies a[0] == h[0] by {
        assert(a.subrange(0, h.len() as int)[0] == h[0]);
    }
    assert(m.printed + ("cancelled:"@ + decimal(code)) =~= "cancelled:"@ + decimal(code));
    assert(m.printed + ("succeeded:"@ + decimal(code)) =~= "succeeded:"@ + decimal(code));
    assert(m.printed + ("failed:"@ + decimal(code)) =~= "failed:"@ + decimal(code));
    assert(m.printed + ("running:"@ + decimal(pid)) =~= "running:"@ + decimal(pid));
}

/// A setup step: it is carried out where its mark is not there, and marked once it has succeeded.
pub open spec fn setup_program(command: Seq<char>) -> Piece {
    let mark = Word::Plain(ensure_marker(command));
    up_to_a_failure().and_below(make_plain_dir(".hyperbox/ensure"@)).and_below(
        where_so_below(is_no_file(mark), foreign(command).and_below(touch(mark))),
    )
}

proof fn setup_reads(command: Seq<char>)
    ensures
        setup_program(command).text == ensure_script(command),
{
    let mark = ensure_marker(command);
    let q = "\""@ + mark + "\""@;
    let head = "set -e\nmkdir -p .hyperbox/ensure\nif [ ! -f \""@;
    assert(head =~= "set -e"@ + "\n"@ + ("mkdir -p "@ + ".hyperbox/ensure"@) + "\n"@ + "if "@
        + "[ ! -f "@ + "\""@) by {
        reveal_strlit("set -e\nmkdir -p .hyperbox/ensure\nif [ ! -f \"");
        reveal_strlit("set -e");
        reveal_strlit("\n");
        reveal_strlit("mkdir -p ");
        reveal_strlit(".hyperbox/ensure");
        reveal_strlit("if ");
        reveal_strlit("[ ! -f ");
        reveal_strlit("\"");
    }
    assert("\" ]; then\n"@ =~= "\""@ + " ]"@ + "; then\n"@) by {
        reveal_strlit("\" ]; then\n");
        reveal_strlit("\"");
        reveal_strlit(" ]");
        reveal_strlit("; then\n");
    }
    assert("\ntouch \""@ =~= "\n"@ + "touch "@ + "\""@) by {
        reveal_strlit("\ntouch \"");
        reveal_strlit("\n");
        reveal_strlit("touch ");
        reveal_strlit("\"");
    }
    assert("\"\nfi"@ =~= "\""@ + "\nfi"@) by {
        reveal_strlit("\"\nfi");
        reveal_strlit("\"");
        reveal_strlit("\nfi");
    }
    assert(setup_program(command).text =~= "set -e"@ + "\n"@ + ("mkdir -p "@
        + ".hyperbox/ensure"@) + "\n"@ + ("if "@ + ("[ ! -f "@ + q + " ]"@) + "; then\n"@ + (command
        + "\n"@ + ("touch "@ + q)) + "\nfi"@));
    assert(setup_program(command).text =~= ensure_script(command));
}

/// A setup step is carried out once. Where its mark is not there the step is run, and marked if
/// and only if it succeeds, so that one that failed is tried again; where the mark is there,
/// nothing is done.
pub proof fn setup_steps_are_marked_when_they_succeed(command: Seq<char>, m: Machine)
    requires
        m.left is None,
    ensures
        ({
            let program = setup_program(command);
            let after = program.on(m);
            let mark = ensure_marker(command);
            let succeeds = (m.codes)(seq![command]) == "0"@;
            &&& program.text == ensure_script(command)
            &&& m.files.contains_key(mark) ==> after == m
            &&& !m.files.contains_key(mark) ==> {
                &&& after.ran == m.ran.push(seq![command])
                &&& succeeds ==> after.left is None && after.files == m.files.insert(
                    mark,
                    Seq::<char>::empty(),
                )
                &&& !succeeds ==> after.left == Some((m.codes)(seq![command])) && after.files
                    == m.files
            }
        }),
{
    setup_reads(command);
}

} // verus!
