//! The debugger front end: the command channel, and the parser that turns a
//! line of input into a command.

use vstd::prelude::*;
use std::sync::mpsc::Sender;
use crate::text::{
    is_space,
    parse_radix, pieces, radix_value, split_char, split_whitespace, str_eq, str_views, words,
};
use super::command::{Command, CommandView};

verus! {

/// The debugger: where parsed commands are sent.
pub struct Debugger {
    pub command_tx: Sender<Command>,
}

impl Debugger {
    /// A debugger sending its commands on `command_tx`.
    pub fn new(command_tx: Sender<Command>) -> (r: Self)
        ensures
            r.command_tx == command_tx,
    {
        Self { command_tx }
    }
}

/// A parse result with its error message as characters.
pub open spec fn result_view<T>(r: Result<T, String>) -> Result<T, Seq<char>> {
    match r {
        Ok(v) => Ok(v),
        Err(e) => Err(e@),
    }
}

/// A parsed command with its error message as characters.
pub open spec fn command_result_view(r: Result<Command, String>) -> Result<CommandView, Seq<char>> {
    match r {
        Ok(c) => Ok(c@),
        Err(e) => Err(e@),
    }
}

/// The argument at position `i`, if there is one.
pub open spec fn arg_at(args: Seq<Seq<char>>, i: int) -> Option<Seq<char>> {
    if 0 <= i < args.len() {
        Some(args[i])
    } else {
        None
    }
}

/// A required number argument (a 16-bit value in the parser's radix).
pub open spec fn num_spec(radix: u32, token: Option<Seq<char>>) -> Result<u16, Seq<char>> {
    match token {
        None => Err("missing argument"@),
        Some(t) => match radix_value(t, radix as int, 0xffff) {
            Some(v) => Ok(v as u16),
            None => Err("invalid number "@ + t),
        },
    }
}

/// An optional number argument.
pub open spec fn num_maybe_spec(radix: u32, token: Option<Seq<char>>) -> Result<Option<u16>, Seq<char>> {
    match token {
        None => Ok(None),
        Some(t) => match radix_value(t, radix as int, 0xffff) {
            Some(v) => Ok(Some(v as u16)),
            None => Err("invalid number "@ + t),
        },
    }
}

/// A byte in the parser's radix.
pub open spec fn byte_spec(radix: u32, t: Seq<char>) -> Result<u8, Seq<char>> {
    match radix_value(t, radix as int, 0xff) {
        Some(v) => Ok(v as u8),
        None => Err("invalid number "@ + t),
    }
}

/// That no argument follows position `i`.
pub open spec fn eos_spec(args: Seq<Seq<char>>, i: int) -> Result<(), Seq<char>> {
    if 0 <= i < args.len() {
        Err("Invalid token "@ + args[i])
    } else {
        Ok(())
    }
}

/// The bytes of a list of comma-separated pieces, or the first bad piece's error.
pub open spec fn bytes_spec(radix: u32, ps: Seq<Seq<char>>) -> Result<Seq<u8>, Seq<char>>
    decreases ps.len(),
{
    if ps.len() == 0 {
        Ok(seq![])
    } else {
        match bytes_spec(radix, ps.drop_last()) {
            Err(e) => Err(e),
            Ok(bs) => match byte_spec(radix, ps.last()) {
                Ok(b) => Ok(bs.push(b)),
                Err(e) => Err(e),
            },
        }
    }
}

/// The data bytes of a list of arguments, each a comma-separated list of bytes.
pub open spec fn data_spec(radix: u32, args: Seq<Seq<char>>) -> Result<Seq<u8>, Seq<char>>
    decreases args.len(),
{
    if args.len() == 0 {
        Ok(seq![])
    } else {
        match data_spec(radix, args.drop_last()) {
            Err(e) => Err(e),
            Ok(bs) => match bytes_spec(radix, pieces(args.last(), ',')) {
                Ok(more) => Ok(bs + more),
                Err(e) => Err(e),
            },
        }
    }
}

/// A command taking one number and nothing after it.
pub open spec fn one_num_spec(radix: u32, args: Seq<Seq<char>>) -> Result<u16, Seq<char>> {
    match num_spec(radix, arg_at(args, 0)) {
        Err(e) => Err(e),
        Ok(v) => match eos_spec(args, 1) {
            Err(e) => Err(e),
            Ok(_) => Ok(v),
        },
    }
}

/// A command taking an optional number and nothing after it.
pub open spec fn maybe_num_spec(radix: u32, args: Seq<Seq<char>>) -> Result<Option<u16>, Seq<char>> {
    match num_maybe_spec(radix, arg_at(args, 0)) {
        Err(e) => Err(e),
        Ok(v) => match eos_spec(args, 1) {
            Err(e) => Err(e),
            Ok(_) => Ok(v),
        },
    }
}

/// A command taking a number, then an optional number, and nothing after them.
pub open spec fn num_then_maybe_spec(radix: u32, args: Seq<Seq<char>>) -> Result<(u16, Option<u16>), Seq<char>> {
    match num_spec(radix, arg_at(args, 0)) {
        Err(e) => Err(e),
        Ok(a) => match num_maybe_spec(radix, arg_at(args, 1)) {
            Err(e) => Err(e),
            Ok(b) => match eos_spec(args, 2) {
                Err(e) => Err(e),
                Ok(_) => Ok((a, b)),
            },
        },
    }
}

/// A command taking two optional numbers and nothing after them.
pub open spec fn two_maybe_spec(radix: u32, args: Seq<Seq<char>>) -> Result<(Option<u16>, Option<u16>), Seq<char>> {
    match num_maybe_spec(radix, arg_at(args, 0)) {
        Err(e) => Err(e),
        Ok(a) => match num_maybe_spec(radix, arg_at(args, 1)) {
            Err(e) => Err(e),
            Ok(b) => match eos_spec(args, 2) {
                Err(e) => Err(e),
                Ok(_) => Ok((a, b)),
            },
        },
    }
}

/// A command taking three numbers and nothing after them.
pub open spec fn three_nums_spec(radix: u32, args: Seq<Seq<char>>) -> Result<(u16, u16, u16), Seq<char>> {
    match num_spec(radix, arg_at(args, 0)) {
        Err(e) => Err(e),
        Ok(a) => match num_spec(radix, arg_at(args, 1)) {
            Err(e) => Err(e),
            Ok(b) => match num_spec(radix, arg_at(args, 2)) {
                Err(e) => Err(e),
                Ok(c) => match eos_spec(args, 3) {
                    Err(e) => Err(e),
                    Ok(_) => Ok((a, b, c)),
                },
            },
        },
    }
}

/// A command taking a start and an end address, then at least one data byte.
pub open spec fn range_data_spec(radix: u32, args: Seq<Seq<char>>) -> Result<(u16, u16, Seq<u8>), Seq<char>> {
    match num_spec(radix, arg_at(args, 0)) {
        Err(e) => Err(e),
        Ok(a) => match num_spec(radix, arg_at(args, 1)) {
            Err(e) => Err(e),
            Ok(b) => match data_spec(radix, args.skip(2)) {
                Err(e) => Err(e),
                Ok(d) => if d.len() >= 1 {
                    Ok((a, b, d))
                } else {
                    Err("Missing data"@)
                },
            },
        },
    }
}

/// A command that takes no arguments.
pub open spec fn no_args_spec(args: Seq<Seq<char>>, c: CommandView) -> Result<CommandView, Seq<char>> {
    match eos_spec(args, 0) {
        Err(e) => Err(e),
        Ok(_) => Ok(c),
    }
}

/// The value of an optional count, 1 when absent.
pub open spec fn count_or_one(v: Option<u16>) -> u16 {
    match v {
        Some(n) => n,
        None => 1,
    }
}

/// The machine commands: goto, next, registers, reset, return, screen, step, stopwatch.
pub open spec fn machine_command(radix: u32, c: Seq<char>, a: Seq<Seq<char>>) -> Option<Result<CommandView, Seq<char>>> {
    if c == "g"@ || c == "goto"@ {
        Some(match one_num_spec(radix, a) { Ok(v) => Ok(CommandView::Goto(v)), Err(e) => Err(e) })
    } else if c == "n"@ || c == "next"@ {
        Some(match maybe_num_spec(radix, a) { Ok(v) => Ok(CommandView::Next(count_or_one(v))), Err(e) => Err(e) })
    } else if c == "r"@ || c == "registers"@ {
        Some(no_args_spec(a, CommandView::Registers))
    } else if c == "reset"@ {
        Some(match maybe_num_spec(radix, a) {
            Ok(v) => Ok(CommandView::Reset(v == Some(1u16))),
            Err(e) => Err(e),
        })
    } else if c == "ret"@ || c == "return"@ {
        Some(no_args_spec(a, CommandView::Return))
    } else if c == "sc"@ || c == "screen"@ {
        Some(no_args_spec(a, CommandView::Screen))
    } else if c == "z"@ || c == "step"@ {
        Some(match maybe_num_spec(radix, a) { Ok(v) => Ok(CommandView::Step(count_or_one(v))), Err(e) => Err(e) })
    } else if c == "sw"@ || c == "stopwatch"@ {
        Some(Ok(CommandView::Stopwatch(a.len() > 0 && a[0] == "reset"@)))
    } else {
        None
    }
}

/// The memory commands: compare, disass, fill, hunt, mem, memchar, petscii, move.
pub open spec fn memory_command(radix: u32, c: Seq<char>, a: Seq<Seq<char>>) -> Option<Result<CommandView, Seq<char>>> {
    if c == "c"@ || c == "compare"@ {
        Some(match three_nums_spec(radix, a) { Ok(v) => Ok(CommandView::Compare(v.0, v.1, v.2)), Err(e) => Err(e) })
    } else if c == "d"@ || c == "disass"@ {
        Some(match two_maybe_spec(radix, a) { Ok(v) => Ok(CommandView::Disassemble(v.0, v.1)), Err(e) => Err(e) })
    } else if c == "f"@ || c == "fill"@ {
        Some(match range_data_spec(radix, a) { Ok(v) => Ok(CommandView::Fill(v.0, v.1, v.2)), Err(e) => Err(e) })
    } else if c == "h"@ || c == "hunt"@ {
        Some(match range_data_spec(radix, a) { Ok(v) => Ok(CommandView::Hunt(v.0, v.1, v.2)), Err(e) => Err(e) })
    } else if c == "m"@ || c == "mem"@ {
        Some(match num_then_maybe_spec(radix, a) { Ok(v) => Ok(CommandView::Read(v.0, v.1)), Err(e) => Err(e) })
    } else if c == "mc"@ || c == "memchar"@ {
        Some(match one_num_spec(radix, a) { Ok(v) => Ok(CommandView::MemChar(v)), Err(e) => Err(e) })
    } else if c == "i"@ || c == "petscii"@ {
        Some(match num_then_maybe_spec(radix, a) { Ok(v) => Ok(CommandView::MemPetscii(v.0, v.1)), Err(e) => Err(e) })
    } else if c == "t"@ || c == "move"@ {
        Some(match three_nums_spec(radix, a) { Ok(v) => Ok(CommandView::Move(v.0, v.1, v.2)), Err(e) => Err(e) })
    } else {
        None
    }
}

/// The monitor and breakpoint commands: exit, help, quit, radix, break, enable,
/// delete, disable, ignore, until.
pub open spec fn monitor_command(radix: u32, c: Seq<char>, a: Seq<Seq<char>>) -> Option<Result<CommandView, Seq<char>>> {
    if c == "x"@ || c == "exit"@ {
        Some(no_args_spec(a, CommandView::Exit))
    } else if c == "help"@ {
        Some(match eos_spec(a, 1) { Ok(_) => Ok(CommandView::Help(arg_at(a, 0))), Err(e) => Err(e) })
    } else if c == "quit"@ {
        Some(no_args_spec(a, CommandView::Quit))
    } else if c == "radix"@ {
        Some(match maybe_num_spec(radix, a) { Ok(v) => Ok(CommandView::Radix(v)), Err(e) => Err(e) })
    } else if c == "bk"@ || c == "break"@ {
        Some(match maybe_num_spec(radix, a) {
            Ok(Some(v)) => Ok(CommandView::BpSet(v)),
            Ok(None) => Ok(CommandView::BpList),
            Err(e) => Err(e),
        })
    } else if c == "en"@ || c == "enable"@ {
        Some(match maybe_num_spec(radix, a) { Ok(v) => Ok(CommandView::BpEnable(v)), Err(e) => Err(e) })
    } else if c == "del"@ || c == "delete"@ {
        Some(match maybe_num_spec(radix, a) { Ok(v) => Ok(CommandView::BpDelete(v)), Err(e) => Err(e) })
    } else if c == "dis"@ || c == "disable"@ {
        Some(match maybe_num_spec(radix, a) { Ok(v) => Ok(CommandView::BpDisable(v)), Err(e) => Err(e) })
    } else if c == "ignore"@ {
        Some(match num_then_maybe_spec(radix, a) {
            Ok(v) => Ok(CommandView::BpIgnore(v.0, count_or_one(v.1))),
            Err(e) => Err(e),
        })
    } else if c == "un"@ || c == "until"@ {
        Some(match maybe_num_spec(radix, a) {
            Ok(Some(v)) => Ok(CommandView::BpUntil(v)),
            Ok(None) => Ok(CommandView::BpList),
            Err(e) => Err(e),
        })
    } else {
        None
    }
}

/// What parsing a line gives: the first word names the command and the
/// other words are its arguments; an empty line or an unknown command is
/// refused with the whole line.
pub open spec fn parse_spec(radix: u32, input: Seq<char>) -> Result<CommandView, Seq<char>> {
    let w = words(input);
    let invalid = Err("Invalid command "@ + input);
    if w.len() == 0 {
        invalid
    } else {
        let c = w[0];
        let a = w.drop_first();
        match machine_command(radix, c, a) {
            Some(r) => r,
            None => match memory_command(radix, c, a) {
                Some(r) => r,
                None => match monitor_command(radix, c, a) {
                    Some(r) => r,
                    None => invalid,
                },
            },
        }
    }
}

/// The usage line of a debugger command, by either of its names.
pub open spec fn command_usage(name: Seq<char>) -> Option<Seq<char>> {
    if name == "bk"@ || name == "break"@ {
        Some("break [address] -- set a breakpoint at address, or list the breakpoints"@)
    } else if name == "c"@ || name == "compare"@ {
        Some("compare <start> <end> <dest> -- compare memory from start to end with memory at dest"@)
    } else if name == "del"@ || name == "delete"@ {
        Some("delete [index] -- delete breakpoint index, or all breakpoints"@)
    } else if name == "dis"@ || name == "disable"@ {
        Some("disable [index] -- disable breakpoint index, or all breakpoints"@)
    } else if name == "d"@ || name == "disass"@ {
        Some("disass [start] [end] -- disassemble from start to end"@)
    } else if name == "en"@ || name == "enable"@ {
        Some("enable [index] -- enable breakpoint index, or all breakpoints"@)
    } else if name == "x"@ || name == "exit"@ {
        Some("exit -- leave the debugger and resume"@)
    } else if name == "f"@ || name == "fill"@ {
        Some("fill <start> <end> <data> -- fill memory from start to end with data"@)
    } else if name == "g"@ || name == "goto"@ {
        Some("goto <address> -- continue execution at address"@)
    } else if name == "help"@ {
        Some("help [command] -- list the commands, or describe command"@)
    } else if name == "h"@ || name == "hunt"@ {
        Some("hunt <start> <end> <data> -- find data in memory from start to end"@)
    } else if name == "ignore"@ {
        Some("ignore <index> [count] -- ignore breakpoint index count times"@)
    } else if name == "m"@ || name == "mem"@ {
        Some("mem <start> [end] -- show memory from start to end"@)
    } else if name == "mc"@ || name == "memchar"@ {
        Some("memchar <address> -- show memory at address as characters"@)
    } else if name == "t"@ || name == "move"@ {
        Some("move <start> <end> <dest> -- copy memory from start to end to dest"@)
    } else if name == "n"@ || name == "next"@ {
        Some("next [count] -- step over count instructions"@)
    } else if name == "i"@ || name == "petscii"@ {
        Some("petscii <start> [end] -- show memory from start to end as PETSCII text"@)
    } else if name == "quit"@ {
        Some("quit -- stop the emulator"@)
    } else if name == "radix"@ {
        Some("radix [radix] -- set or show the radix numbers are read in"@)
    } else if name == "r"@ || name == "registers"@ {
        Some("registers -- show the registers"@)
    } else if name == "reset"@ {
        Some("reset [1] -- reset the machine, a hard reset with 1"@)
    } else if name == "ret"@ || name == "return"@ {
        Some("return -- run until the current subroutine returns"@)
    } else if name == "sc"@ || name == "screen"@ {
        Some("screen -- show the screen"@)
    } else if name == "z"@ || name == "step"@ {
        Some("step [count] -- execute count instructions"@)
    } else if name == "sw"@ || name == "stopwatch"@ {
        Some("stopwatch [reset] -- show or reset the cycle count"@)
    } else if name == "un"@ || name == "until"@ {
        Some("until <address> -- run until address"@)
    } else {
        None
    }
}

/// The list of commands the help command shows without a topic.
pub open spec fn command_list() -> Seq<char> {
    "Available commands: break (bk), compare (c), delete (del), disable (dis), disass (d), enable (en), exit (x), fill (f), goto (g), help, hunt (h), ignore, mem (m), memchar (mc), move (t), next (n), petscii (i), quit, radix, registers (r), reset, return (ret), screen (sc), step (z), stopwatch (sw), until (un)\nType help <command> for a command's usage."@
}

/// What the help command replies: the command list, or the usage of the
/// named command, or that no command has that name.
pub open spec fn help_spec(topic: Option<Seq<char>>) -> Seq<char> {
    match topic {
        None => command_list(),
        Some(name) => match command_usage(name) {
            Some(u) => u,
            None => "Unknown command "@ + name,
        },
    }
}

/// The usage line of a debugger command, by either of its names.
fn usage_of(name: &str) -> (r: Option<&'static str>)
    ensures
        match command_usage(name@) {
            Some(u) => r matches Some(t) && t@ == u,
            None => r is None,
        },
{
    if str_eq(name, "bk") || str_eq(name, "break") {
        Some("break [address] -- set a breakpoint at address, or list the breakpoints")
    } else if str_eq(name, "c") || str_eq(name, "compare") {
        Some("compare <start> <end> <dest> -- compare memory from start to end with memory at dest")
    } else if str_eq(name, "del") || str_eq(name, "delete") {
        Some("delete [index] -- delete breakpoint index, or all breakpoints")
    } else if str_eq(name, "dis") || str_eq(name, "disable") {
        Some("disable [index] -- disable breakpoint index, or all breakpoints")
    } else if str_eq(name, "d") || str_eq(name, "disass") {
        Some("disass [start] [end] -- disassemble from start to end")
    } else if str_eq(name, "en") || str_eq(name, "enable") {
        Some("enable [index] -- enable breakpoint index, or all breakpoints")
    } else if str_eq(name, "x") || str_eq(name, "exit") {
        Some("exit -- leave the debugger and resume")
    } else if str_eq(name, "f") || str_eq(name, "fill") {
        Some("fill <start> <end> <data> -- fill memory from start to end with data")
    } else if str_eq(name, "g") || str_eq(name, "goto") {
        Some("goto <address> -- continue execution at address")
    } else if str_eq(name, "help") {
        Some("help [command] -- list the commands, or describe command")
    } else if str_eq(name, "h") || str_eq(name, "hunt") {
        Some("hunt <start> <end> <data> -- find data in memory from start to end")
    } else if str_eq(name, "ignore") {
        Some("ignore <index> [count] -- ignore breakpoint index count times")
    } else if str_eq(name, "m") || str_eq(name, "mem") {
        Some("mem <start> [end] -- show memory from start to end")
    } else if str_eq(name, "mc") || str_eq(name, "memchar") {
        Some("memchar <address> -- show memory at address as characters")
    } else if str_eq(name, "t") || str_eq(name, "move") {
        Some("move <start> <end> <dest> -- copy memory from start to end to dest")
    } else if str_eq(name, "n") || str_eq(name, "next") {
        Some("next [count] -- step over count instructions")
    } else if str_eq(name, "i") || str_eq(name, "petscii") {
        Some("petscii <start> [end] -- show memory from start to end as PETSCII text")
    } else if str_eq(name, "quit") {
        Some("quit -- stop the emulator")
    } else if str_eq(name, "radix") {
        Some("radix [radix] -- set or show the radix numbers are read in")
    } else if str_eq(name, "r") || str_eq(name, "registers") {
        Some("registers -- show the registers")
    } else if str_eq(name, "reset") {
        Some("reset [1] -- reset the machine, a hard reset with 1")
    } else if str_eq(name, "ret") || str_eq(name, "return") {
        Some("return -- run until the current subroutine returns")
    } else if str_eq(name, "sc") || str_eq(name, "screen") {
        Some("screen -- show the screen")
    } else if str_eq(name, "z") || str_eq(name, "step") {
        Some("step [count] -- execute count instructions")
    } else if str_eq(name, "sw") || str_eq(name, "stopwatch") {
        Some("stopwatch [reset] -- show or reset the cycle count")
    } else if str_eq(name, "un") || str_eq(name, "until") {
        Some("until <address> -- run until address")
    } else {
        None
    }
}

/// The reply to the help command: the command list without a topic, else
/// the topic command's usage.
pub fn help_text(topic: Option<&str>) -> (r: String)
    ensures
        r@ == help_spec(match topic {
            Some(t) => Some(t@),
            None => None,
        }),
{
    match topic {
        None => String::from_str("Available commands: break (bk), compare (c), delete (del), disable (dis), disass (d), enable (en), exit (x), fill (f), goto (g), help, hunt (h), ignore, mem (m), memchar (mc), move (t), next (n), petscii (i), quit, radix, registers (r), reset, return (ret), screen (sc), step (z), stopwatch (sw), until (un)\nType help <command> for a command's usage."),
        Some(name) => match usage_of(name) {
            Some(u) => String::from_str(u),
            None => message("Unknown command ", name),
        },
    }
}

/// Words added after a separating space become the last word.
proof fn lemma_words_append(p: Seq<char>, t: Seq<char>)
    requires
        p.len() > 0,
        is_space(p.last()),
        t.len() > 0,
        forall|i: int| 0 <= i < t.len() ==> !is_space(t[i]),
    ensures
        words(p + t) == words(p).push(t),
    decreases t.len(),
{
    let s = p + t;
    assert(s.drop_last() =~= p + t.drop_last());
    assert(s.last() == t.last());
    if t.len() == 1 {
        assert(p + t.drop_last() =~= p);
        assert(s[s.len() - 2] == p.last());
        assert(t =~= seq![t.last()]);
    } else {
        let u = t.drop_last();
        lemma_words_append(p, u);
        assert(s[s.len() - 2] == u.last());
        let w = words(p).push(u);
        assert(u.push(t.last()) =~= t);
        assert(w.update(w.len() - 1, w.last().push(t.last())) =~= words(p).push(t));
    }
}

/// With the radix set to `radix`, `g` and a token without white space
/// reads the token as an unsigned `from_str_radix` in that radix does: a
/// goto to its value, or "invalid number" and the token.
pub proof fn law_goto_in_radix(radix: u32, t: Seq<char>)
    requires
        t.len() > 0,
        forall|i: int| 0 <= i < t.len() ==> !is_space(t[i]),
    ensures
        parse_spec(radix, "g "@ + t) == match radix_value(t, radix as int, 0xffff) {
            Some(v) => Ok::<CommandView, Seq<char>>(CommandView::Goto(v as u16)),
            None => Err("invalid number "@ + t),
        },
{
    reveal_strlit("g ");
    reveal_strlit("g");
    let p = "g "@;
    assert(p.len() == 2 && p[0] == 'g' && p[1] == ' ');
    assert(is_space(' '));
    assert(!is_space('g'));
    assert(p.last() == ' ');
    assert(p.drop_last() =~= seq!['g']);
    assert(seq!['g'].drop_last() =~= Seq::<char>::empty());
    assert(words(Seq::<char>::empty()) == Seq::<Seq<char>>::empty());
    assert(words(seq!['g'].drop_last()) == Seq::<Seq<char>>::empty());
    assert(seq!['g'].last() == 'g');
    assert(Seq::<Seq<char>>::empty().push(seq!['g']) =~= seq![seq!['g']]);
    assert(words(seq!['g']) == seq![seq!['g']]);
    assert(words(p) == seq![seq!['g']]);
    lemma_words_append(p, t);
    let w = words(p + t);
    assert(w =~= seq![seq!['g'], t]);
    assert(w[0] =~= "g"@);
    assert(w.drop_first() =~= seq![t]);
}

/// A word without white space is one word.
proof fn lemma_one_word(w: Seq<char>)
    requires
        w.len() > 0,
        forall|i: int| 0 <= i < w.len() ==> !is_space(w[i]),
    ensures
        words(w) == seq![w],
    decreases w.len(),
{
    if w.len() == 1 {
        assert(w.drop_last() =~= Seq::<char>::empty());
        assert(words(Seq::<char>::empty()) == Seq::<Seq<char>>::empty());
        assert(w =~= seq![w.last()]);
        assert(Seq::<Seq<char>>::empty().push(seq![w.last()]) =~= seq![w]);
    } else {
        let u = w.drop_last();
        lemma_one_word(u);
        assert(w[w.len() - 2] == u.last());
        assert(u.push(w.last()) =~= w);
        assert(seq![u].update(0, u.push(w.last())) =~= seq![w]);
    }
}

/// A command word, a space and an argument word make two words.
proof fn lemma_two_words(name: Seq<char>, t: Seq<char>)
    requires
        name.len() > 0,
        forall|i: int| 0 <= i < name.len() ==> !is_space(name[i]),
        t.len() > 0,
        forall|i: int| 0 <= i < t.len() ==> !is_space(t[i]),
    ensures
        words(name + " "@ + t) == seq![name, t],
{
    reveal_strlit(" ");
    assert(is_space(' '));
    let p = name + " "@;
    assert(p.last() == ' ');
    assert(p.drop_last() =~= name);
    lemma_one_word(name);
    lemma_words_append(p, t);
    assert(seq![name].push(t) =~= seq![name, t]);
}

/// The result of a command taking one number `t` in `radix`: the command
/// `f` builds from its value, or "invalid number" and the token.
pub open spec fn number_command(radix: u32, t: Seq<char>, f: spec_fn(u16) -> CommandView) -> Result<CommandView, Seq<char>> {
    match radix_value(t, radix as int, 0xffff) {
        Some(v) => Ok(f(v as u16)),
        None => Err("invalid number "@ + t),
    }
}

/// What each command word does with one number read in the current radix:
/// goto jumps there, next and step run that many instructions, reset is
/// hard for 1, disass, mem, memchar and petscii show memory from there,
/// radix sets the radix, break sets a breakpoint there, enable, disable and
/// delete act on that breakpoint, ignore skips it once, and until runs to
/// the address; a token that is not a number is refused.
#[verifier::rlimit(80)]
pub proof fn law_one_number_commands(radix: u32, name: Seq<char>, t: Seq<char>)
    requires
        name.len() > 0,
        forall|i: int| 0 <= i < name.len() ==> !is_space(name[i]),
        t.len() > 0,
        forall|i: int| 0 <= i < t.len() ==> !is_space(t[i]),
    ensures
        (name == "g"@ || name == "goto"@) ==> parse_spec(radix, name + " "@ + t) == number_command(radix, t, |v: u16| CommandView::Goto(v)),
        (name == "n"@ || name == "next"@) ==> parse_spec(radix, name + " "@ + t) == number_command(radix, t, |v: u16| CommandView::Next(v)),
        (name == "z"@ || name == "step"@) ==> parse_spec(radix, name + " "@ + t) == number_command(radix, t, |v: u16| CommandView::Step(v)),
        (name == "reset"@) ==> parse_spec(radix, name + " "@ + t) == number_command(radix, t, |v: u16| CommandView::Reset(v == 1u16)),
        (name == "d"@ || name == "disass"@) ==> parse_spec(radix, name + " "@ + t) == number_command(radix, t, |v: u16| CommandView::Disassemble(Some(v), None)),
        (name == "m"@ || name == "mem"@) ==> parse_spec(radix, name + " "@ + t) == number_command(radix, t, |v: u16| CommandView::Read(v, None)),
        (name == "mc"@ || name == "memchar"@) ==> parse_spec(radix, name + " "@ + t) == number_command(radix, t, |v: u16| CommandView::MemChar(v)),
        (name == "i"@ || name == "petscii"@) ==> parse_spec(radix, name + " "@ + t) == number_command(radix, t, |v: u16| CommandView::MemPetscii(v, None)),
        (name == "radix"@) ==> parse_spec(radix, name + " "@ + t) == number_command(radix, t, |v: u16| CommandView::Radix(Some(v))),
        (name == "bk"@ || name == "break"@) ==> parse_spec(radix, name + " "@ + t) == number_command(radix, t, |v: u16| CommandView::BpSet(v)),
        (name == "en"@ || name == "enable"@) ==> parse_spec(radix, name + " "@ + t) == number_command(radix, t, |v: u16| CommandView::BpEnable(Some(v))),
        (name == "dis"@ || name == "disable"@) ==> parse_spec(radix, name + " "@ + t) == number_command(radix, t, |v: u16| CommandView::BpDisable(Some(v))),
        (name == "del"@ || name == "delete"@) ==> parse_spec(radix, name + " "@ + t) == number_command(radix, t, |v: u16| CommandView::BpDelete(Some(v))),
        (name == "ignore"@) ==> parse_spec(radix, name + " "@ + t) == number_command(radix, t, |v: u16| CommandView::BpIgnore(v, 1)),
        (name == "un"@ || name == "until"@) ==> parse_spec(radix, name + " "@ + t) == number_command(radix, t, |v: u16| CommandView::BpUntil(v)),
{
    reveal_strlit("bk");
    reveal_strlit("break");
    reveal_strlit("c");
    reveal_strlit("compare");
    reveal_strlit("d");
    reveal_strlit("del");
    reveal_strlit("delete");
    reveal_strlit("dis");
    reveal_strlit("disable");
    reveal_strlit("disass");
    reveal_strlit("en");
    reveal_strlit("enable");
    reveal_strlit("exit");
    reveal_strlit("f");
    reveal_strlit("fill");
    reveal_strlit("g");
    reveal_strlit("goto");
    reveal_strlit("h");
    reveal_strlit("help");
    reveal_strlit("hunt");
    reveal_strlit("i");
    reveal_strlit("ignore");
    reveal_strlit("m");
    reveal_strlit("mc");
    reveal_strlit("mem");
    reveal_strlit("memchar");
    reveal_strlit("move");
    reveal_strlit("n");
    reveal_strlit("next");
    reveal_strlit("petscii");
    reveal_strlit("quit");
    reveal_strlit("r");
    reveal_strlit("radix");
    reveal_strlit("registers");
    reveal_strlit("reset");
    reveal_strlit("ret");
    reveal_strlit("return");
    reveal_strlit("sc");
    reveal_strlit("screen");
    reveal_strlit("step");
    reveal_strlit("stopwatch");
    reveal_strlit("sw");
    reveal_strlit("t");
    reveal_strlit("un");
    reveal_strlit("until");
    reveal_strlit("x");
    reveal_strlit("z");
    assert("bk"@.len() == 2 && "bk"@[0] == 'b' && "bk"@[1] == 'k');
    assert("break"@.len() == 5 && "break"@[0] == 'b' && "break"@[1] == 'r' && "break"@[2] == 'e' && "break"@[3] == 'a' && "break"@[4] == 'k');
    assert("c"@.len() == 1 && "c"@[0] == 'c');
    assert("compare"@.len() == 7 && "compare"@[0] == 'c' && "compare"@[1] == 'o' && "compare"@[2] == 'm' && "compare"@[3] == 'p' && "compare"@[4] == 'a' && "compare"@[5] == 'r' && "compare"@[6] == 'e');
    assert("d"@.len() == 1 && "d"@[0] == 'd');
    assert("del"@.len() == 3 && "del"@[0] == 'd' && "del"@[1] == 'e' && "del"@[2] == 'l');
    assert("delete"@.len() == 6 && "delete"@[0] == 'd' && "delete"@[1] == 'e' && "delete"@[2] == 'l' && "delete"@[3] == 'e' && "delete"@[4] == 't' && "delete"@[5] == 'e');
    assert("dis"@.len() == 3 && "dis"@[0] == 'd' && "dis"@[1] == 'i' && "dis"@[2] == 's');
    assert("disable"@.len() == 7 && "disable"@[0] == 'd' && "disable"@[1] == 'i' && "disable"@[2] == 's' && "disable"@[3] == 'a' && "disable"@[4] == 'b' && "disable"@[5] == 'l' && "disable"@[6] == 'e');
    assert("disass"@.len() == 6 && "disass"@[0] == 'd' && "disass"@[1] == 'i' && "disass"@[2] == 's' && "disass"@[3] == 'a' && "disass"@[4] == 's' && "disass"@[5] == 's');
    assert("en"@.len() == 2 && "en"@[0] == 'e' && "en"@[1] == 'n');
    assert("enable"@.len() == 6 && "enable"@[0] == 'e' && "enable"@[1] == 'n' && "enable"@[2] == 'a' && "enable"@[3] == 'b' && "enable"@[4] == 'l' && "enable"@[5] == 'e');
    assert("exit"@.len() == 4 && "exit"@[0] == 'e' && "exit"@[1] == 'x' && "exit"@[2] == 'i' && "exit"@[3] == 't');
    assert("f"@.len() == 1 && "f"@[0] == 'f');
    assert("fill"@.len() == 4 && "fill"@[0] == 'f' && "fill"@[1] == 'i' && "fill"@[2] == 'l' && "fill"@[3] == 'l');
    assert("g"@.len() == 1 && "g"@[0] == 'g');
    assert("goto"@.len() == 4 && "goto"@[0] == 'g' && "goto"@[1] == 'o' && "goto"@[2] == 't' && "goto"@[3] == 'o');
    assert("h"@.len() == 1 && "h"@[0] == 'h');
    assert("help"@.len() == 4 && "help"@[0] == 'h' && "help"@[1] == 'e' && "help"@[2] == 'l' && "help"@[3] == 'p');
    assert("hunt"@.len() == 4 && "hunt"@[0] == 'h' && "hunt"@[1] == 'u' && "hunt"@[2] == 'n' && "hunt"@[3] == 't');
    assert("i"@.len() == 1 && "i"@[0] == 'i');
    assert("ignore"@.len() == 6 && "ignore"@[0] == 'i' && "ignore"@[1] == 'g' && "ignore"@[2] == 'n' && "ignore"@[3] == 'o' && "ignore"@[4] == 'r' && "ignore"@[5] == 'e');
    assert("m"@.len() == 1 && "m"@[0] == 'm');
    assert("mc"@.len() == 2 && "mc"@[0] == 'm' && "mc"@[1] == 'c');
    assert("mem"@.len() == 3 && "mem"@[0] == 'm' && "mem"@[1] == 'e' && "mem"@[2] == 'm');
    assert("memchar"@.len() == 7 && "memchar"@[0] == 'm' && "memchar"@[1] == 'e' && "memchar"@[2] == 'm' && "memchar"@[3] == 'c' && "memchar"@[4] == 'h' && "memchar"@[5] == 'a' && "memchar"@[6] == 'r');
    assert("move"@.len() == 4 && "move"@[0] == 'm' && "move"@[1] == 'o' && "move"@[2] == 'v' && "move"@[3] == 'e');
    assert("n"@.len() == 1 && "n"@[0] == 'n');
    assert("next"@.len() == 4 && "next"@[0] == 'n' && "next"@[1] == 'e' && "next"@[2] == 'x' && "next"@[3] == 't');
    assert("petscii"@.len() == 7 && "petscii"@[0] == 'p' && "petscii"@[1] == 'e' && "petscii"@[2] == 't' && "petscii"@[3] == 's' && "petscii"@[4] == 'c' && "petscii"@[5] == 'i' && "petscii"@[6] == 'i');
    assert("quit"@.len() == 4 && "quit"@[0] == 'q' && "quit"@[1] == 'u' && "quit"@[2] == 'i' && "quit"@[3] == 't');
    assert("r"@.len() == 1 && "r"@[0] == 'r');
    assert("radix"@.len() == 5 && "radix"@[0] == 'r' && "radix"@[1] == 'a' && "radix"@[2] == 'd' && "radix"@[3] == 'i' && "radix"@[4] == 'x');
    assert("registers"@.len() == 9 && "registers"@[0] == 'r' && "registers"@[1] == 'e' && "registers"@[2] == 'g' && "registers"@[3] == 'i' && "registers"@[4] == 's' && "registers"@[5] == 't' && "registers"@[6] == 'e' && "registers"@[7] == 'r' && "registers"@[8] == 's');
    assert("reset"@.len() == 5 && "reset"@[0] == 'r' && "reset"@[1] == 'e' && "reset"@[2] == 's' && "reset"@[3] == 'e' && "reset"@[4] == 't');
    assert("ret"@.len() == 3 && "ret"@[0] == 'r' && "ret"@[1] == 'e' && "ret"@[2] == 't');
    assert("return"@.len() == 6 && "return"@[0] == 'r' && "return"@[1] == 'e' && "return"@[2] == 't' && "return"@[3] == 'u' && "return"@[4] == 'r' && "return"@[5] == 'n');
    assert("sc"@.len() == 2 && "sc"@[0] == 's' && "sc"@[1] == 'c');
    assert("screen"@.len() == 6 && "screen"@[0] == 's' && "screen"@[1] == 'c' && "screen"@[2] == 'r' && "screen"@[3] == 'e' && "screen"@[4] == 'e' && "screen"@[5] == 'n');
    assert("step"@.len() == 4 && "step"@[0] == 's' && "step"@[1] == 't' && "step"@[2] == 'e' && "step"@[3] == 'p');
    assert("stopwatch"@.len() == 9 && "stopwatch"@[0] == 's' && "stopwatch"@[1] == 't' && "stopwatch"@[2] == 'o' && "stopwatch"@[3] == 'p' && "stopwatch"@[4] == 'w' && "stopwatch"@[5] == 'a' && "stopwatch"@[6] == 't' && "stopwatch"@[7] == 'c' && "stopwatch"@[8] == 'h');
    assert("sw"@.len() == 2 && "sw"@[0] == 's' && "sw"@[1] == 'w');
    assert("t"@.len() == 1 && "t"@[0] == 't');
    assert("un"@.len() == 2 && "un"@[0] == 'u' && "un"@[1] == 'n');
    assert("until"@.len() == 5 && "until"@[0] == 'u' && "until"@[1] == 'n' && "until"@[2] == 't' && "until"@[3] == 'i' && "until"@[4] == 'l');
    assert("x"@.len() == 1 && "x"@[0] == 'x');
    assert("z"@.len() == 1 && "z"@[0] == 'z');
    lemma_two_words(name, t);
    let w = words(name + " "@ + t);
    assert(w[0] == name);
    assert(w.drop_first() =~= seq![t]);
}

/// What each command word does alone: registers, return, screen, exit,
/// quit, help and stopwatch do their work; break lists the breakpoints;
/// next and step run one instruction; radix shows the radix; enable,
/// disable and delete act on every breakpoint; disass goes on from the last
/// address; reset is soft.
#[verifier::rlimit(80)]
pub proof fn law_bare_commands(radix: u32, name: Seq<char>)
    requires
        name.len() > 0,
        forall|i: int| 0 <= i < name.len() ==> !is_space(name[i]),
    ensures
        (name == "r"@ || name == "registers"@) ==> parse_spec(radix, name) == Ok::<CommandView, Seq<char>>(CommandView::Registers),
        (name == "ret"@ || name == "return"@) ==> parse_spec(radix, name) == Ok::<CommandView, Seq<char>>(CommandView::Return),
        (name == "sc"@ || name == "screen"@) ==> parse_spec(radix, name) == Ok::<CommandView, Seq<char>>(CommandView::Screen),
        (name == "x"@ || name == "exit"@) ==> parse_spec(radix, name) == Ok::<CommandView, Seq<char>>(CommandView::Exit),
        (name == "quit"@) ==> parse_spec(radix, name) == Ok::<CommandView, Seq<char>>(CommandView::Quit),
        (name == "bk"@ || name == "break"@) ==> parse_spec(radix, name) == Ok::<CommandView, Seq<char>>(CommandView::BpList),
        (name == "help"@) ==> parse_spec(radix, name) == Ok::<CommandView, Seq<char>>(CommandView::Help(None)),
        (name == "sw"@ || name == "stopwatch"@) ==> parse_spec(radix, name) == Ok::<CommandView, Seq<char>>(CommandView::Stopwatch(false)),
        (name == "n"@ || name == "next"@) ==> parse_spec(radix, name) == Ok::<CommandView, Seq<char>>(CommandView::Next(1)),
        (name == "z"@ || name == "step"@) ==> parse_spec(radix, name) == Ok::<CommandView, Seq<char>>(CommandView::Step(1)),
        (name == "radix"@) ==> parse_spec(radix, name) == Ok::<CommandView, Seq<char>>(CommandView::Radix(None)),
        (name == "en"@ || name == "enable"@) ==> parse_spec(radix, name) == Ok::<CommandView, Seq<char>>(CommandView::BpEnable(None)),
        (name == "dis"@ || name == "disable"@) ==> parse_spec(radix, name) == Ok::<CommandView, Seq<char>>(CommandView::BpDisable(None)),
        (name == "del"@ || name == "delete"@) ==> parse_spec(radix, name) == Ok::<CommandView, Seq<char>>(CommandView::BpDelete(None)),
        (name == "d"@ || name == "disass"@) ==> parse_spec(radix, name) == Ok::<CommandView, Seq<char>>(CommandView::Disassemble(None, None)),
        (name == "reset"@) ==> parse_spec(radix, name) == Ok::<CommandView, Seq<char>>(CommandView::Reset(false)),
{
    reveal_strlit("bk");
    reveal_strlit("break");
    reveal_strlit("c");
    reveal_strlit("compare");
    reveal_strlit("d");
    reveal_strlit("del");
    reveal_strlit("delete");
    reveal_strlit("dis");
    reveal_strlit("disable");
    reveal_strlit("disass");
    reveal_strlit("en");
    reveal_strlit("enable");
    reveal_strlit("exit");
    reveal_strlit("f");
    reveal_strlit("fill");
    reveal_strlit("g");
    reveal_strlit("goto");
    reveal_strlit("h");
    reveal_strlit("help");
    reveal_strlit("hunt");
    reveal_strlit("i");
    reveal_strlit("ignore");
    reveal_strlit("m");
    reveal_strlit("mc");
    reveal_strlit("mem");
    reveal_strlit("memchar");
    reveal_strlit("move");
    reveal_strlit("n");
    reveal_strlit("next");
    reveal_strlit("petscii");
    reveal_strlit("quit");
    reveal_strlit("r");
    reveal_strlit("radix");
    reveal_strlit("registers");
    reveal_strlit("reset");
    reveal_strlit("ret");
    reveal_strlit("return");
    reveal_strlit("sc");
    reveal_strlit("screen");
    reveal_strlit("step");
    reveal_strlit("stopwatch");
    reveal_strlit("sw");
    reveal_strlit("t");
    reveal_strlit("un");
    reveal_strlit("until");
    reveal_strlit("x");
    reveal_strlit("z");
    assert("bk"@.len() == 2 && "bk"@[0] == 'b' && "bk"@[1] == 'k');
    assert("break"@.len() == 5 && "break"@[0] == 'b' && "break"@[1] == 'r' && "break"@[2] == 'e' && "break"@[3] == 'a' && "break"@[4] == 'k');
    assert("c"@.len() == 1 && "c"@[0] == 'c');
    assert("compare"@.len() == 7 && "compare"@[0] == 'c' && "compare"@[1] == 'o' && "compare"@[2] == 'm' && "compare"@[3] == 'p' && "compare"@[4] == 'a' && "compare"@[5] == 'r' && "compare"@[6] == 'e');
    assert("d"@.len() == 1 && "d"@[0] == 'd');
    assert("del"@.len() == 3 && "del"@[0] == 'd' && "del"@[1] == 'e' && "del"@[2] == 'l');
    assert("delete"@.len() == 6 && "delete"@[0] == 'd' && "delete"@[1] == 'e' && "delete"@[2] == 'l' && "delete"@[3] == 'e' && "delete"@[4] == 't' && "delete"@[5] == 'e');
    assert("dis"@.len() == 3 && "dis"@[0] == 'd' && "dis"@[1] == 'i' && "dis"@[2] == 's');
    assert("disable"@.len() == 7 && "disable"@[0] == 'd' && "disable"@[1] == 'i' && "disable"@[2] == 's' && "disable"@[3] == 'a' && "disable"@[4] == 'b' && "disable"@[5] == 'l' && "disable"@[6] == 'e');
    assert("disass"@.len() == 6 && "disass"@[0] == 'd' && "disass"@[1] == 'i' && "disass"@[2] == 's' && "disass"@[3] == 'a' && "disass"@[4] == 's' && "disass"@[5] == 's');
    assert("en"@.len() == 2 && "en"@[0] == 'e' && "en"@[1] == 'n');
    assert("enable"@.len() == 6 && "enable"@[0] == 'e' && "enable"@[1] == 'n' && "enable"@[2] == 'a' && "enable"@[3] == 'b' && "enable"@[4] == 'l' && "enable"@[5] == 'e');
    assert("exit"@.len() == 4 && "exit"@[0] == 'e' && "exit"@[1] == 'x' && "exit"@[2] == 'i' && "exit"@[3] == 't');
    assert("f"@.len() == 1 && "f"@[0] == 'f');
    assert("fill"@.len() == 4 && "fill"@[0] == 'f' && "fill"@[1] == 'i' && "fill"@[2] == 'l' && "fill"@[3] == 'l');
    assert("g"@.len() == 1 && "g"@[0] == 'g');
    assert("goto"@.len() == 4 && "goto"@[0] == 'g' && "goto"@[1] == 'o' && "goto"@[2] == 't' && "goto"@[3] == 'o');
    assert("h"@.len() == 1 && "h"@[0] == 'h');
    assert("help"@.len() == 4 && "help"@[0] == 'h' && "help"@[1] == 'e' && "help"@[2] == 'l' && "help"@[3] == 'p');
    assert("hunt"@.len() == 4 && "hunt"@[0] == 'h' && "hunt"@[1] == 'u' && "hunt"@[2] == 'n' && "hunt"@[3] == 't');
    assert("i"@.len() == 1 && "i"@[0] == 'i');
    assert("ignore"@.len() == 6 && "ignore"@[0] == 'i' && "ignore"@[1] == 'g' && "ignore"@[2] == 'n' && "ignore"@[3] == 'o' && "ignore"@[4] == 'r' && "ignore"@[5] == 'e');
    assert("m"@.len() == 1 && "m"@[0] == 'm');
    assert("mc"@.len() == 2 && "mc"@[0] == 'm' && "mc"@[1] == 'c');
    assert("mem"@.len() == 3 && "mem"@[0] == 'm' && "mem"@[1] == 'e' && "mem"@[2] == 'm');
    assert("memchar"@.len() == 7 && "memchar"@[0] == 'm' && "memchar"@[1] == 'e' && "memchar"@[2] == 'm' && "memchar"@[3] == 'c' && "memchar"@[4] == 'h' && "memchar"@[5] == 'a' && "memchar"@[6] == 'r');
    assert("move"@.len() == 4 && "move"@[0] == 'm' && "move"@[1] == 'o' && "move"@[2] == 'v' && "move"@[3] == 'e');
    assert("n"@.len() == 1 && "n"@[0] == 'n');
    assert("next"@.len() == 4 && "next"@[0] == 'n' && "next"@[1] == 'e' && "next"@[2] == 'x' && "next"@[3] == 't');
    assert("petscii"@.len() == 7 && "petscii"@[0] == 'p' && "petscii"@[1] == 'e' && "petscii"@[2] == 't' && "petscii"@[3] == 's' && "petscii"@[4] == 'c' && "petscii"@[5] == 'i' && "petscii"@[6] == 'i');
    assert("quit"@.len() == 4 && "quit"@[0] == 'q' && "quit"@[1] == 'u' && "quit"@[2] == 'i' && "quit"@[3] == 't');
    assert("r"@.len() == 1 && "r"@[0] == 'r');
    assert("radix"@.len() == 5 && "radix"@[0] == 'r' && "radix"@[1] == 'a' && "radix"@[2] == 'd' && "radix"@[3] == 'i' && "radix"@[4] == 'x');
    assert("registers"@.len() == 9 && "registers"@[0] == 'r' && "registers"@[1] == 'e' && "registers"@[2] == 'g' && "registers"@[3] == 'i' && "registers"@[4] == 's' && "registers"@[5] == 't' && "registers"@[6] == 'e' && "registers"@[7] == 'r' && "registers"@[8] == 's');
    assert("reset"@.len() == 5 && "reset"@[0] == 'r' && "reset"@[1] == 'e' && "reset"@[2] == 's' && "reset"@[3] == 'e' && "reset"@[4] == 't');
    assert("ret"@.len() == 3 && "ret"@[0] == 'r' && "ret"@[1] == 'e' && "ret"@[2] == 't');
    assert("return"@.len() == 6 && "return"@[0] == 'r' && "return"@[1] == 'e' && "return"@[2] == 't' && "return"@[3] == 'u' && "return"@[4] == 'r' && "return"@[5] == 'n');
    assert("sc"@.len() == 2 && "sc"@[0] == 's' && "sc"@[1] == 'c');
    assert("screen"@.len() == 6 && "screen"@[0] == 's' && "screen"@[1] == 'c' && "screen"@[2] == 'r' && "screen"@[3] == 'e' && "screen"@[4] == 'e' && "screen"@[5] == 'n');
    assert("step"@.len() == 4 && "step"@[0] == 's' && "step"@[1] == 't' && "step"@[2] == 'e' && "step"@[3] == 'p');
    assert("stopwatch"@.len() == 9 && "stopwatch"@[0] == 's' && "stopwatch"@[1] == 't' && "stopwatch"@[2] == 'o' && "stopwatch"@[3] == 'p' && "stopwatch"@[4] == 'w' && "stopwatch"@[5] == 'a' && "stopwatch"@[6] == 't' && "stopwatch"@[7] == 'c' && "stopwatch"@[8] == 'h');
    assert("sw"@.len() == 2 && "sw"@[0] == 's' && "sw"@[1] == 'w');
    assert("t"@.len() == 1 && "t"@[0] == 't');
    assert("un"@.len() == 2 && "un"@[0] == 'u' && "un"@[1] == 'n');
    assert("until"@.len() == 5 && "until"@[0] == 'u' && "until"@[1] == 'n' && "until"@[2] == 't' && "until"@[3] == 'i' && "until"@[4] == 'l');
    assert("x"@.len() == 1 && "x"@[0] == 'x');
    assert("z"@.len() == 1 && "z"@[0] == 'z');
    lemma_one_word(name);
    assert(words(name)[0] == name);
    assert(words(name).drop_first() =~= Seq::<Seq<char>>::empty());
}

/// The text of an error about `value`: `prefix` followed by it.
fn message(prefix: &str, value: &str) -> (r: String)
    ensures
        r@ == prefix@ + value@,
{
    let mut e = String::from_str(prefix);
    e.append(value);
    e
}

/// The argument at position `i`, if there is one.
fn arg<'a>(args: &Vec<&'a str>, i: usize) -> (r: Option<&'a str>)
    ensures
        match r {
            Some(t) => arg_at(str_views(args@), i as int) == Some(t@),
            None => arg_at(str_views(args@), i as int) is None,
        },
{
    if i < args.len() {
        Some(args[i])
    } else {
        None
    }
}

/// Parses the debugger's command language; numbers are read in `radix`.
pub struct CommandParser {
    pub radix: u32,
}

impl CommandParser {
    /// A parser reading numbers in hexadecimal.
    pub fn new() -> (r: Self)
        ensures
            r.radix == 16,
    {
        Self { radix: 16 }
    }

    /// The radix numbers are read in.
    pub fn get_radix(&self) -> (r: u32)
        ensures
            r == self.radix,
    {
        self.radix
    }

    /// Sets the radix numbers are read in.
    pub fn set_radix(&mut self, radix: u32)
        ensures
            final(self).radix == radix,
    {
        self.radix = radix;
    }

    /// Parses one line of input into a command.
    pub fn parse(&self, input: &String) -> (r: Result<Command, String>)
        requires
            2 <= self.radix <= 36,
        ensures
            command_result_view(r) == parse_spec(self.radix, input@),
    {
        let line = input.as_str();
        let w = split_whitespace(line);
        if w.len() == 0 {
            return Err(message("Invalid command ", line));
        }
        let command = w[0];
        let mut args: Vec<&str> = Vec::new();
        let mut i: usize = 1;
        while i < w.len()
            invariant
                1 <= i <= w@.len(),
                str_views(args@) == str_views(w@).subrange(1, i as int),
            decreases w@.len() - i,
        {
            let ghost before = str_views(args@);
            args.push(w[i]);
            assert(str_views(args@) =~= before.push(w@[i as int]@));
            assert(str_views(w@).subrange(1, i + 1) =~= str_views(w@).subrange(1, i as int).push(
                w@[i as int]@,
            ));
            i = i + 1;
        }
        assert(str_views(w@).subrange(1, w@.len() as int) =~= str_views(w@).drop_first());
        assert(str_views(w@)[0] == command@);
        match self.parse_machine(command, &args) {
            Some(r) => r,
            None => match self.parse_memory_command(command, &args) {
                Some(r) => r,
                None => match self.parse_monitor(command, &args) {
                    Some(r) => r,
                    None => Err(message("Invalid command ", line)),
                },
            },
        }
    }

    /// The machine commands.
    fn parse_machine(&self, c: &str, a: &Vec<&str>) -> (r: Option<Result<Command, String>>)
        requires
            2 <= self.radix <= 36,
        ensures
            match machine_command(self.radix, c@, str_views(a@)) {
                Some(s) => r matches Some(x) && command_result_view(x) == s,
                None => r is None,
            },
    {
        if str_eq(c, "g") || str_eq(c, "goto") {
            Some(self.parse_goto(a))
        } else if str_eq(c, "n") || str_eq(c, "next") {
            Some(self.parse_next(a))
        } else if str_eq(c, "r") || str_eq(c, "registers") {
            Some(self.parse_no_args(a, Command::Registers))
        } else if str_eq(c, "reset") {
            Some(self.parse_reset(a))
        } else if str_eq(c, "ret") || str_eq(c, "return") {
            Some(self.parse_no_args(a, Command::Return))
        } else if str_eq(c, "sc") || str_eq(c, "screen") {
            Some(self.parse_no_args(a, Command::Screen))
        } else if str_eq(c, "z") || str_eq(c, "step") {
            Some(self.parse_step(a))
        } else if str_eq(c, "sw") || str_eq(c, "stopwatch") {
            Some(Ok(self.parse_stopwatch(a)))
        } else {
            None
        }
    }

    /// The memory commands.
    fn parse_memory_command(&self, c: &str, a: &Vec<&str>) -> (r: Option<Result<Command, String>>)
        requires
            2 <= self.radix <= 36,
        ensures
            match memory_command(self.radix, c@, str_views(a@)) {
                Some(s) => r matches Some(x) && command_result_view(x) == s,
                None => r is None,
            },
    {
        if str_eq(c, "c") || str_eq(c, "compare") {
            Some(self.parse_compare(a))
        } else if str_eq(c, "d") || str_eq(c, "disass") {
            Some(self.parse_disassemble(a))
        } else if str_eq(c, "f") || str_eq(c, "fill") {
            Some(self.parse_fill(a))
        } else if str_eq(c, "h") || str_eq(c, "hunt") {
            Some(self.parse_hunt(a))
        } else if str_eq(c, "m") || str_eq(c, "mem") {
            Some(self.parse_memory(a))
        } else if str_eq(c, "mc") || str_eq(c, "memchar") {
            Some(self.parse_mem_char(a))
        } else if str_eq(c, "i") || str_eq(c, "petscii") {
            Some(self.parse_mem_petscii(a))
        } else if str_eq(c, "t") || str_eq(c, "move") {
            Some(self.parse_move(a))
        } else {
            None
        }
    }

    /// The monitor and breakpoint commands.
    fn parse_monitor(&self, c: &str, a: &Vec<&str>) -> (r: Option<Result<Command, String>>)
        requires
            2 <= self.radix <= 36,
        ensures
            match monitor_command(self.radix, c@, str_views(a@)) {
                Some(s) => r matches Some(x) && command_result_view(x) == s,
                None => r is None,
            },
    {
        if str_eq(c, "x") || str_eq(c, "exit") {
            Some(self.parse_no_args(a, Command::Exit))
        } else if str_eq(c, "help") {
            Some(self.parse_help(a))
        } else if str_eq(c, "quit") {
            Some(self.parse_no_args(a, Command::Quit))
        } else if str_eq(c, "radix") {
            Some(self.parse_radix(a))
        } else if str_eq(c, "bk") || str_eq(c, "break") {
            Some(self.parse_bp_bk(a))
        } else if str_eq(c, "en") || str_eq(c, "enable") {
            Some(self.parse_bp_enable(a))
        } else if str_eq(c, "del") || str_eq(c, "delete") {
            Some(self.parse_bp_delete(a))
        } else if str_eq(c, "dis") || str_eq(c, "disable") {
            Some(self.parse_bp_disable(a))
        } else if str_eq(c, "ignore") {
            Some(self.parse_bp_ignore(a))
        } else if str_eq(c, "un") || str_eq(c, "until") {
            Some(self.parse_bp_until(a))
        } else {
            None
        }
    }

    // Machine

    fn parse_goto(&self, a: &Vec<&str>) -> (r: Result<Command, String>)
        requires
            2 <= self.radix <= 36,
        ensures
            command_result_view(r) == match one_num_spec(self.radix, str_views(a@)) {
                Ok(v) => Ok(CommandView::Goto(v)),
                Err(e) => Err(e),
            },
    {
        match self.parse_one_num(a) {
            Ok(address) => Ok(Command::Goto(address)),
            Err(e) => Err(e),
        }
    }

    fn parse_next(&self, a: &Vec<&str>) -> (r: Result<Command, String>)
        requires
            2 <= self.radix <= 36,
        ensures
            command_result_view(r) == match maybe_num_spec(self.radix, str_views(a@)) {
                Ok(v) => Ok(CommandView::Next(count_or_one(v))),
                Err(e) => Err(e),
            },
    {
        match self.parse_maybe_num(a) {
            Ok(count) => Ok(Command::Next(unwrap_or_one(count))),
            Err(e) => Err(e),
        }
    }

    fn parse_reset(&self, a: &Vec<&str>) -> (r: Result<Command, String>)
        requires
            2 <= self.radix <= 36,
        ensures
            command_result_view(r) == match maybe_num_spec(self.radix, str_views(a@)) {
                Ok(v) => Ok(CommandView::Reset(v == Some(1u16))),
                Err(e) => Err(e),
            },
    {
        match self.parse_maybe_num(a) {
            Ok(mode) => {
                let hard = match mode {
                    Some(m) => m == 1,
                    None => false,
                };
                Ok(Command::Reset(hard))
            },
            Err(e) => Err(e),
        }
    }

    fn parse_step(&self, a: &Vec<&str>) -> (r: Result<Command, String>)
        requires
            2 <= self.radix <= 36,
        ensures
            command_result_view(r) == match maybe_num_spec(self.radix, str_views(a@)) {
                Ok(v) => Ok(CommandView::Step(count_or_one(v))),
                Err(e) => Err(e),
            },
    {
        match self.parse_maybe_num(a) {
            Ok(count) => Ok(Command::Step(unwrap_or_one(count))),
            Err(e) => Err(e),
        }
    }

    fn parse_stopwatch(&self, a: &Vec<&str>) -> (r: Command)
        ensures
            r@ == CommandView::Stopwatch(a@.len() > 0 && str_views(a@)[0] == "reset"@),
    {
        let reset = if a.len() > 0 {
            str_eq(a[0], "reset")
        } else {
            false
        };
        Command::Stopwatch(reset)
    }

    fn parse_help(&self, a: &Vec<&str>) -> (r: Result<Command, String>)
        ensures
            command_result_view(r) == match eos_spec(str_views(a@), 1) {
                Ok(_) => Ok(CommandView::Help(arg_at(str_views(a@), 0))),
                Err(e) => Err(e),
            },
    {
        match self.ensure_eos(a, 1) {
            Ok(_) => {
                let topic = match arg(a, 0) {
                    Some(t) => Some(String::from_str(t)),
                    None => None,
                };
                Ok(Command::Help(topic))
            },
            Err(e) => Err(e),
        }
    }

    fn parse_no_args(&self, a: &Vec<&str>, c: Command) -> (r: Result<Command, String>)
        ensures
            command_result_view(r) == no_args_spec(str_views(a@), c@),
    {
        match self.ensure_eos(a, 0) {
            Ok(_) => Ok(c),
            Err(e) => Err(e),
        }
    }

    // Memory

    fn parse_compare(&self, a: &Vec<&str>) -> (r: Result<Command, String>)
        requires
            2 <= self.radix <= 36,
        ensures
            command_result_view(r) == match three_nums_spec(self.radix, str_views(a@)) {
                Ok(v) => Ok(CommandView::Compare(v.0, v.1, v.2)),
                Err(e) => Err(e),
            },
    {
        match self.parse_three_nums(a) {
            Ok((start, end, target)) => Ok(Command::Compare(start, end, target)),
            Err(e) => Err(e),
        }
    }

    fn parse_disassemble(&self, a: &Vec<&str>) -> (r: Result<Command, String>)
        requires
            2 <= self.radix <= 36,
        ensures
            command_result_view(r) == match two_maybe_spec(self.radix, str_views(a@)) {
                Ok(v) => Ok(CommandView::Disassemble(v.0, v.1)),
                Err(e) => Err(e),
            },
    {
        let start = match self.parse_num_maybe(arg(a, 0)) {
            Ok(v) => v,
            Err(e) => {
                return Err(e);
            },
        };
        let end = match self.parse_num_maybe(arg(a, 1)) {
            Ok(v) => v,
            Err(e) => {
                return Err(e);
            },
        };
        match self.ensure_eos(a, 2) {
            Ok(_) => Ok(Command::Disassemble(start, end)),
            Err(e) => Err(e),
        }
    }

    fn parse_fill(&self, a: &Vec<&str>) -> (r: Result<Command, String>)
        requires
            2 <= self.radix <= 36,
        ensures
            command_result_view(r) == match range_data_spec(self.radix, str_views(a@)) {
                Ok(v) => Ok(CommandView::Fill(v.0, v.1, v.2)),
                Err(e) => Err(e),
            },
    {
        match self.parse_range_data(a) {
            Ok((start, end, data)) => Ok(Command::Fill(start, end, data)),
            Err(e) => Err(e),
        }
    }

    fn parse_hunt(&self, a: &Vec<&str>) -> (r: Result<Command, String>)
        requires
            2 <= self.radix <= 36,
        ensures
            command_result_view(r) == match range_data_spec(self.radix, str_views(a@)) {
                Ok(v) => Ok(CommandView::Hunt(v.0, v.1, v.2)),
                Err(e) => Err(e),
            },
    {
        match self.parse_range_data(a) {
            Ok((start, end, data)) => Ok(Command::Hunt(start, end, data)),
            Err(e) => Err(e),
        }
    }

    fn parse_mem_char(&self, a: &Vec<&str>) -> (r: Result<Command, String>)
        requires
            2 <= self.radix <= 36,
        ensures
            command_result_view(r) == match one_num_spec(self.radix, str_views(a@)) {
                Ok(v) => Ok(CommandView::MemChar(v)),
                Err(e) => Err(e),
            },
    {
        match self.parse_one_num(a) {
            Ok(address) => Ok(Command::MemChar(address)),
            Err(e) => Err(e),
        }
    }

    fn parse_mem_petscii(&self, a: &Vec<&str>) -> (r: Result<Command, String>)
        requires
            2 <= self.radix <= 36,
        ensures
            command_result_view(r) == match num_then_maybe_spec(self.radix, str_views(a@)) {
                Ok(v) => Ok(CommandView::MemPetscii(v.0, v.1)),
                Err(e) => Err(e),
            },
    {
        match self.parse_num_then_maybe(a) {
            Ok((start, end)) => Ok(Command::MemPetscii(start, end)),
            Err(e) => Err(e),
        }
    }

    fn parse_memory(&self, a: &Vec<&str>) -> (r: Result<Command, String>)
        requires
            2 <= self.radix <= 36,
        ensures
            command_result_view(r) == match num_then_maybe_spec(self.radix, str_views(a@)) {
                Ok(v) => Ok(CommandView::Read(v.0, v.1)),
                Err(e) => Err(e),
            },
    {
        match self.parse_num_then_maybe(a) {
            Ok((start, end)) => Ok(Command::Read(start, end)),
            Err(e) => Err(e),
        }
    }

    fn parse_move(&self, a: &Vec<&str>) -> (r: Result<Command, String>)
        requires
            2 <= self.radix <= 36,
        ensures
            command_result_view(r) == match three_nums_spec(self.radix, str_views(a@)) {
                Ok(v) => Ok(CommandView::Move(v.0, v.1, v.2)),
                Err(e) => Err(e),
            },
    {
        match self.parse_three_nums(a) {
            Ok((start, end, target)) => Ok(Command::Move(start, end, target)),
            Err(e) => Err(e),
        }
    }

    // Monitor

    fn parse_radix(&self, a: &Vec<&str>) -> (r: Result<Command, String>)
        requires
            2 <= self.radix <= 36,
        ensures
            command_result_view(r) == match maybe_num_spec(self.radix, str_views(a@)) {
                Ok(v) => Ok(CommandView::Radix(v)),
                Err(e) => Err(e),
            },
    {
        match self.parse_maybe_num(a) {
            Ok(radix) => Ok(Command::Radix(radix)),
            Err(e) => Err(e),
        }
    }

    // Breakpoints

    fn parse_bp_bk(&self, a: &Vec<&str>) -> (r: Result<Command, String>)
        requires
            2 <= self.radix <= 36,
        ensures
            command_result_view(r) == match maybe_num_spec(self.radix, str_views(a@)) {
                Ok(Some(v)) => Ok(CommandView::BpSet(v)),
                Ok(None) => Ok(CommandView::BpList),
                Err(e) => Err(e),
            },
    {
        match self.parse_maybe_num(a) {
            Ok(Some(address)) => Ok(Command::BpSet(address)),
            Ok(None) => Ok(Command::BpList),
            Err(e) => Err(e),
        }
    }

    fn parse_bp_enable(&self, a: &Vec<&str>) -> (r: Result<Command, String>)
        requires
            2 <= self.radix <= 36,
        ensures
            command_result_view(r) == match maybe_num_spec(self.radix, str_views(a@)) {
                Ok(v) => Ok(CommandView::BpEnable(v)),
                Err(e) => Err(e),
            },
    {
        match self.parse_maybe_num(a) {
            Ok(index) => Ok(Command::BpEnable(index)),
            Err(e) => Err(e),
        }
    }

    fn parse_bp_delete(&self, a: &Vec<&str>) -> (r: Result<Command, String>)
        requires
            2 <= self.radix <= 36,
        ensures
            command_result_view(r) == match maybe_num_spec(self.radix, str_views(a@)) {
                Ok(v) => Ok(CommandView::BpDelete(v)),
                Err(e) => Err(e),
            },
    {
        match self.parse_maybe_num(a) {
            Ok(index) => Ok(Command::BpDelete(index)),
            Err(e) => Err(e),
        }
    }

    fn parse_bp_disable(&self, a: &Vec<&str>) -> (r: Result<Command, String>)
        requires
            2 <= self.radix <= 36,
        ensures
            command_result_view(r) == match maybe_num_spec(self.radix, str_views(a@)) {
                Ok(v) => Ok(CommandView::BpDisable(v)),
                Err(e) => Err(e),
            },
    {
        match self.parse_maybe_num(a) {
            Ok(index) => Ok(Command::BpDisable(index)),
            Err(e) => Err(e),
        }
    }

    fn parse_bp_ignore(&self, a: &Vec<&str>) -> (r: Result<Command, String>)
        requires
            2 <= self.radix <= 36,
        ensures
            command_result_view(r) == match num_then_maybe_spec(self.radix, str_views(a@)) {
                Ok(v) => Ok(CommandView::BpIgnore(v.0, count_or_one(v.1))),
                Err(e) => Err(e),
            },
    {
        match self.parse_num_then_maybe(a) {
            Ok((index, count)) => Ok(Command::BpIgnore(index, unwrap_or_one(count))),
            Err(e) => Err(e),
        }
    }

    fn parse_bp_until(&self, a: &Vec<&str>) -> (r: Result<Command, String>)
        requires
            2 <= self.radix <= 36,
        ensures
            command_result_view(r) == match maybe_num_spec(self.radix, str_views(a@)) {
                Ok(Some(v)) => Ok(CommandView::BpUntil(v)),
                Ok(None) => Ok(CommandView::BpList),
                Err(e) => Err(e),
            },
    {
        match self.parse_maybe_num(a) {
            Ok(Some(address)) => Ok(Command::BpUntil(address)),
            Ok(None) => Ok(Command::BpList),
            Err(e) => Err(e),
        }
    }

    // Argument shapes

    fn parse_one_num(&self, a: &Vec<&str>) -> (r: Result<u16, String>)
        requires
            2 <= self.radix <= 36,
        ensures
            result_view(r) == one_num_spec(self.radix, str_views(a@)),
    {
        let value = match self.parse_num(arg(a, 0)) {
            Ok(v) => v,
            Err(e) => {
                return Err(e);
            },
        };
        match self.ensure_eos(a, 1) {
            Ok(_) => Ok(value),
            Err(e) => Err(e),
        }
    }

    fn parse_maybe_num(&self, a: &Vec<&str>) -> (r: Result<Option<u16>, String>)
        requires
            2 <= self.radix <= 36,
        ensures
            result_view(r) == maybe_num_spec(self.radix, str_views(a@)),
    {
        let value = match self.parse_num_maybe(arg(a, 0)) {
            Ok(v) => v,
            Err(e) => {
                return Err(e);
            },
        };
        match self.ensure_eos(a, 1) {
            Ok(_) => Ok(value),
            Err(e) => Err(e),
        }
    }

    fn parse_num_then_maybe(&self, a: &Vec<&str>) -> (r: Result<(u16, Option<u16>), String>)
        requires
            2 <= self.radix <= 36,
        ensures
            result_view(r) == num_then_maybe_spec(self.radix, str_views(a@)),
    {
        let first = match self.parse_num(arg(a, 0)) {
            Ok(v) => v,
            Err(e) => {
                return Err(e);
            },
        };
        let second = match self.parse_num_maybe(arg(a, 1)) {
            Ok(v) => v,
            Err(e) => {
                return Err(e);
            },
        };
        match self.ensure_eos(a, 2) {
            Ok(_) => Ok((first, second)),
            Err(e) => Err(e),
        }
    }

    fn parse_three_nums(&self, a: &Vec<&str>) -> (r: Result<(u16, u16, u16), String>)
        requires
            2 <= self.radix <= 36,
        ensures
            result_view(r) == three_nums_spec(self.radix, str_views(a@)),
    {
        let first = match self.parse_num(arg(a, 0)) {
            Ok(v) => v,
            Err(e) => {
                return Err(e);
            },
        };
        let second = match self.parse_num(arg(a, 1)) {
            Ok(v) => v,
            Err(e) => {
                return Err(e);
            },
        };
        let third = match self.parse_num(arg(a, 2)) {
            Ok(v) => v,
            Err(e) => {
                return Err(e);
            },
        };
        match self.ensure_eos(a, 3) {
            Ok(_) => Ok((first, second, third)),
            Err(e) => Err(e),
        }
    }

    fn parse_range_data(&self, a: &Vec<&str>) -> (r: Result<(u16, u16, Vec<u8>), String>)
        requires
            2 <= self.radix <= 36,
        ensures
            match r {
                Ok(v) => range_data_spec(self.radix, str_views(a@)) == Ok::<
                    (u16, u16, Seq<u8>),
                    Seq<char>,
                >((v.0, v.1, v.2@)),
                Err(e) => range_data_spec(self.radix, str_views(a@)) == Err::<
                    (u16, u16, Seq<u8>),
                    Seq<char>,
                >(e@),
            },
    {
        let start = match self.parse_num(arg(a, 0)) {
            Ok(v) => v,
            Err(e) => {
                return Err(e);
            },
        };
        let end = match self.parse_num(arg(a, 1)) {
            Ok(v) => v,
            Err(e) => {
                return Err(e);
            },
        };
        assert(a@.len() >= 2);
        let mut data: Vec<u8> = Vec::new();
        let mut i: usize = 2;
        let ghost args = str_views(a@);
        assert(args.skip(2).subrange(0, 0) =~= Seq::<Seq<char>>::empty());
        while i < a.len()
            invariant
                2 <= self.radix <= 36,
                args == str_views(a@),
                2 <= i <= a@.len(),
                data_spec(self.radix, args.skip(2).take(i - 2)) == Ok::<Seq<u8>, Seq<char>>(data@),
                num_spec(self.radix, arg_at(args, 0)) == Ok::<u16, Seq<char>>(start),
                num_spec(self.radix, arg_at(args, 1)) == Ok::<u16, Seq<char>>(end),
            decreases a@.len() - i,
        {
            let token = a[i];
            let values = split_char(token, ',');
            let mut j: usize = 0;
            let ghost before = data@;
            assert(str_views(values@).subrange(0, 0) =~= Seq::<Seq<char>>::empty());
            assert(data@.subrange(before.len() as int, data@.len() as int) =~= Seq::<u8>::empty());
            assert(data@.subrange(0, before.len() as int) =~= before);
            while j < values.len()
                invariant
                    2 <= self.radix <= 36,
                    args == str_views(a@),
                    2 <= i < a@.len(),
                    token@ == args[i as int],
                    str_views(values@) == pieces(token@, ','),
                    data_spec(self.radix, args.skip(2).take(i - 2)) == Ok::<Seq<u8>, Seq<char>>(before),
                    num_spec(self.radix, arg_at(args, 0)) == Ok::<u16, Seq<char>>(start),
                    num_spec(self.radix, arg_at(args, 1)) == Ok::<u16, Seq<char>>(end),
                    0 <= j <= values@.len(),
                    bytes_spec(self.radix, str_views(values@).subrange(0, j as int))
                        == Ok::<Seq<u8>, Seq<char>>(data@.subrange(before.len() as int, data@.len() as int)),
                    data@.subrange(0, before.len() as int) == before,
                    before.len() <= data@.len(),
                decreases values@.len() - j,
            {
                let ghost prefix = str_views(values@).subrange(0, j as int);
                let ghost next = str_views(values@).subrange(0, j + 1);
                assert(next.drop_last() =~= prefix);
                assert(next.last() == values@[j as int]@);
                match self.parse_byte(values[j]) {
                    Ok(b) => {
                        let ghost old_data = data@;
                        data.push(b);
                        assert(data@.subrange(before.len() as int, data@.len() as int) =~= old_data.subrange(
                            before.len() as int,
                            old_data.len() as int,
                        ).push(b));
                        assert(data@.subrange(0, before.len() as int) =~= old_data.subrange(0, before.len() as int));
                    },
                    Err(e) => {
                        proof {
                            assert(byte_spec(self.radix, next.last()) == Err::<u8, Seq<char>>(e@));
                            assert(bytes_spec(self.radix, next) == Err::<Seq<u8>, Seq<char>>(e@));
                            lemma_bytes_error_sticks(self.radix, str_views(values@), j as int + 1);
                            assert(bytes_spec(self.radix, pieces(token@, ',')) == Err::<Seq<u8>, Seq<char>>(e@));
                            let t = args.skip(2).take(i - 1);
                            assert(t.drop_last() =~= args.skip(2).take(i - 2));
                            assert(t.last() == token@);
                            assert(data_spec(self.radix, t) == Err::<Seq<u8>, Seq<char>>(e@));
                            lemma_data_error_sticks(self.radix, args.skip(2), i - 1);
                            assert(data_spec(self.radix, args.skip(2)) == Err::<Seq<u8>, Seq<char>>(e@));
                        }
                        return Err(e);
                    },
                }
                j = j + 1;
            }
            proof {
                assert(str_views(values@).subrange(0, j as int) =~= str_views(values@));
                assert(data@ =~= before + data@.subrange(before.len() as int, data@.len() as int));
                let t = args.skip(2).take(i - 1);
                assert(t.drop_last() =~= args.skip(2).take(i - 2));
                assert(t.last() == token@);
            }
            i = i + 1;
        }
        assert(args.skip(2).take(i - 2) =~= args.skip(2));
        if data.len() >= 1 {
            Ok((start, end, data))
        } else {
            Err(String::from_str("Missing data"))
        }
    }

    // Helpers

    fn ensure_eos(&self, a: &Vec<&str>, i: usize) -> (r: Result<(), String>)
        ensures
            result_view(r) == eos_spec(str_views(a@), i as int),
    {
        match arg(a, i) {
            Some(token) => Err(message("Invalid token ", token)),
            None => Ok(()),
        }
    }

    fn parse_byte(&self, value: &str) -> (r: Result<u8, String>)
        requires
            2 <= self.radix <= 36,
        ensures
            result_view(r) == byte_spec(self.radix, value@),
    {
        match parse_radix(value, self.radix, 0xff) {
            Some(v) => Ok(v as u8),
            None => Err(message("invalid number ", value)),
        }
    }

    fn parse_num(&self, input: Option<&str>) -> (r: Result<u16, String>)
        requires
            2 <= self.radix <= 36,
        ensures
            result_view(r) == num_spec(
                self.radix,
                match input {
                    Some(t) => Some(t@),
                    None => None,
                },
            ),
    {
        match input {
            Some(value) => match parse_radix(value, self.radix, 0xffff) {
                Some(v) => Ok(v as u16),
                None => Err(message("invalid number ", value)),
            },
            None => Err(String::from_str("missing argument")),
        }
    }

    fn parse_num_maybe(&self, input: Option<&str>) -> (r: Result<Option<u16>, String>)
        requires
            2 <= self.radix <= 36,
        ensures
            result_view(r) == num_maybe_spec(
                self.radix,
                match input {
                    Some(t) => Some(t@),
                    None => None,
                },
            ),
    {
        match input {
            Some(value) => match parse_radix(value, self.radix, 0xffff) {
                Some(v) => Ok(Some(v as u16)),
                None => Err(message("invalid number ", value)),
            },
            None => Ok(None),
        }
    }
}

/// A count, 1 when absent.
fn unwrap_or_one(v: Option<u16>) -> (r: u16)
    ensures
        r == count_or_one(v),
{
    match v {
        Some(n) => n,
        None => 1,
    }
}

/// Once a piece fails to parse, the whole list fails with its error.
proof fn lemma_bytes_error_sticks(radix: u32, ps: Seq<Seq<char>>, k: int)
    requires
        0 < k <= ps.len(),
        bytes_spec(radix, ps.subrange(0, k)) is Err,
    ensures
        bytes_spec(radix, ps) == bytes_spec(radix, ps.subrange(0, k)),
    decreases ps.len() - k,
{
    if k < ps.len() {
        let next = ps.subrange(0, k + 1);
        assert(next.drop_last() =~= ps.subrange(0, k));
        lemma_bytes_error_sticks(radix, ps, k + 1);
    } else {
        assert(ps.subrange(0, k) =~= ps);
    }
}

/// Once an argument fails to parse, the whole data list fails with its error.
proof fn lemma_data_error_sticks(radix: u32, args: Seq<Seq<char>>, k: int)
    requires
        0 < k <= args.len(),
        data_spec(radix, args.take(k)) is Err,
    ensures
        data_spec(radix, args) == data_spec(radix, args.take(k)),
    decreases args.len() - k,
{
    if k < args.len() {
        let next = args.take(k + 1);
        assert(next.drop_last() =~= args.take(k));
        lemma_data_error_sticks(radix, args, k + 1);
    } else {
        assert(args.take(k) =~= args);
    }
}

} // verus!
