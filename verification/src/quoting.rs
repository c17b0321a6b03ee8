//! Windows command lines: quoting arguments so that a program reads back what was meant.
use vstd::prelude::*;

use crate::text;

verus! {

/// A run of backslashes.
pub open spec fn backslashes(n: nat) -> Seq<char> {
    Seq::new(n, |i: int| '\\')
}

/// Whether an argument has to stand in quotes.
pub open spec fn needs_quotes(arg: Seq<char>) -> bool {
    ||| arg.len() == 0
    ||| exists|i: int| 0 <= i < arg.len() && breaks_argument(#[trigger] arg[i])
}

/// The characters that end an argument, or change how one is read.
pub open spec fn breaks_argument(c: char) -> bool {
    c == ' ' || c == '\t' || c == '"'
}

/// The first position from `i` on that holds no backslash, or the length.
pub open spec fn slash_run_end(s: Seq<char>, i: int) -> int
    decreases s.len() - i,
{
    if 0 <= i < s.len() && s[i] == '\\' {
        slash_run_end(s, i + 1)
    } else {
        i
    }
}

/// How the character at position `i` of an argument stands between quotes: a quote behind a
/// backslash; a backslash twice where only backslashes stand between it and a quote or the end;
/// every other character as it is.
pub open spec fn escaped_char(s: Seq<char>, i: int) -> Seq<char> {
    if s[i] == '"' {
        seq!['\\', '"']
    } else if s[i] == '\\' {
        let end = slash_run_end(s, i);
        if end >= s.len() || s[end] == '"' {
            seq!['\\', '\\']
        } else {
            seq!['\\']
        }
    } else {
        seq![s[i]]
    }
}

/// How the characters of an argument from position `i` on stand between quotes.
pub open spec fn escaped_from(s: Seq<char>, i: int) -> Seq<char>
    decreases s.len() - i,
{
    if i < 0 || i >= s.len() {
        seq![]
    } else {
        escaped_char(s, i) + escaped_from(s, i + 1)
    }
}

/// An argument as it stands on a command line.
pub open spec fn quoted(arg: Seq<char>) -> Seq<char> {
    if needs_quotes(arg) {
        seq!['"'] + escaped_from(arg, 0) + seq!['"']
    } else {
        arg
    }
}

/// The arguments, each as it stands on a command line.
pub open spec fn all_quoted(args: Seq<Seq<char>>) -> Seq<Seq<char>> {
    Seq::new(args.len(), |i: int| quoted(args[i]))
}

/// A command line.
pub open spec fn command_line(args: Seq<Seq<char>>) -> Seq<char> {
    text::joined(all_quoted(args), seq![' '])
}

/// Backslashes up to position `i`, which holds none, all end their run there.
proof fn lemma_slash_run_is(s: Seq<char>, k: int, i: int)
    requires
        0 <= k <= i <= s.len(),
        forall|j: int| k <= j < i ==> s[j] == '\\',
        i < s.len() ==> s[i] != '\\',
    ensures
        slash_run_end(s, k) == i,
    decreases i - k,
{
    if k < i {
        lemma_slash_run_is(s, k + 1, i);
    }
}

/// A run of `n` backslashes that ends at position `i` is written `2 * n` times before a quote or
/// the end, and `n` times elsewhere.
proof fn lemma_escaped_run(s: Seq<char>, i: int, n: nat)
    requires
        n <= i <= s.len(),
        forall|j: int| i - n <= j < i ==> s[j] == '\\',
        i < s.len() ==> s[i] != '\\',
    ensures
        escaped_from(s, i - n) == (if i >= s.len() || s[i] == '"' {
            backslashes(2 * n)
        } else {
            backslashes(n)
        }) + escaped_from(s, i),
    decreases n,
{
    if n == 0 {
        assert(backslashes(0) + escaped_from(s, i) =~= escaped_from(s, i));
    } else {
        let k = i - n;
        lemma_escaped_run(s, i, (n - 1) as nat);
        lemma_slash_run_is(s, k, i);
        assert(escaped_from(s, k) == escaped_char(s, k) + escaped_from(s, k + 1));
        if i >= s.len() || s[i] == '"' {
            assert(escaped_from(s, k) =~= backslashes(2 * n) + escaped_from(s, i));
        } else {
            assert(escaped_from(s, k) =~= backslashes(n) + escaped_from(s, i));
        }
    }
}

/// Puts a run of backslashes behind a text.
fn push_backslashes(output: &mut String, n: usize)
    ensures
        final(output)@ == old(output)@ + backslashes(n as nat),
{
    let ghost before = output@;
    assert(before + backslashes(0) =~= before);
    for i in 0..n
        invariant
            output@ == before + backslashes(i as nat),
    {
        output.push('\\');
        assert(output@ =~= before + backslashes((i + 1) as nat));
    }
}

/// The argument as it stands on a command line.
pub fn quote_windows_argument(arg: &str) -> (r: String)
    ensures
        r@ == quoted(arg@),
{
    let chars: Vec<char> = text::chars_of(arg);
    let mut plain = chars.len() > 0;
    for i in 0..chars.len()
        invariant
            chars@ == arg@,
            plain == (arg@.len() > 0 && forall|k: int|
                0 <= k < i ==> !breaks_argument(#[trigger] arg@[k])),
    {
        if chars[i] == ' ' || chars[i] == '\t' || chars[i] == '"' {
            assert(breaks_argument(arg@[i as int]));
            plain = false;
        }
    }
    if plain {
        return text::string_of(chars.as_slice());
    }
    assert(needs_quotes(arg@));
    let mut output = String::new();
    output.push('"');
    let mut pending: usize = 0;
    assert(output@ + escaped_from(arg@, 0) =~= seq!['"'] + escaped_from(arg@, 0));
    for i in 0..chars.len()
        invariant
            chars@ == arg@,
            pending <= i,
            forall|j: int| i - pending <= j < i ==> arg@[j] == '\\',
            output@ + escaped_from(arg@, i - pending) == seq!['"'] + escaped_from(arg@, 0),
    {
        let c: char = chars[i];
        let ghost before = output@;
        let ghost rest = escaped_from(arg@, i + 1);
        if c == '\\' {
            pending = pending + 1;
        } else {
            proof {
                lemma_escaped_run(arg@, i as int, pending as nat);
            }
            if c == '"' {
                push_backslashes(&mut output, pending);
                push_backslashes(&mut output, pending);
                output.push('\\');
                assert(before + (backslashes((2 * pending) as nat) + (seq!['\\', '"'] + rest))
                    =~= output@.push('"') + rest);
            } else {
                push_backslashes(&mut output, pending);
                assert(before + (backslashes(pending as nat) + (seq![c] + rest))
                    =~= output@.push(c) + rest);
            }
            output.push(c);
            pending = 0;
        }
    }
    proof {
        lemma_escaped_run(arg@, arg@.len() as int, pending as nat);
    }
    let ghost before = output@;
    push_backslashes(&mut output, pending);
    push_backslashes(&mut output, pending);
    assert(before + (backslashes((2 * pending) as nat) + escaped_from(arg@, arg@.len() as int))
        =~= output@);
    output.push('"');
    assert(output@ =~= seq!['"'] + escaped_from(arg@, 0) + seq!['"']);
    output
}

/// The arguments as one command line.
pub fn command_line_arguments(args: &[String]) -> (r: String)
    ensures
        r@ == command_line(args.deep_view()),
{
    let mut parts: Vec<String> = Vec::new();
    for i in 0..args.len()
        invariant
            parts@.len() == i,
            forall|k: int| 0 <= k < i ==> (#[trigger] parts@[k])@ == quoted(args@[k]@),
    {
        let part: String = quote_windows_argument(args[i].as_str());
        parts.push(part);
    }
    assert(parts.deep_view() =~= all_quoted(args.deep_view()));
    proof {
        reveal_strlit(" ");
        assert(" "@ =~= seq![' ']);
    }
    text::join(parts.as_slice(), " ")
}

// ---- reading a command line --------------------------------------------------------------

/// What a Windows program knows while it splits its command line: the arguments so far, the one
/// that it is in, whether it is in one, whether it stands between quotes, and how many
/// backslashes wait for what follows them.
pub struct Splitting {
    pub done: Seq<Seq<char>>,
    pub current: Seq<char>,
    pub started: bool,
    pub in_quotes: bool,
    pub slashes: nat,
}

/// Before the first character.
pub open spec fn split_start() -> Splitting {
    Splitting {
        done: seq![],
        current: seq![],
        started: false,
        in_quotes: false,
        slashes: 0,
    }
}

/// Reads one character as the C runtime of Windows does. Backslashes stand for themselves unless
/// a quote follows: then each two stand for one, and one left over makes the quote a character
/// of the argument. A quote otherwise opens or closes a quoted stretch. Outside one, a space or
/// a tab ends the argument.
pub open spec fn split_char(st: Splitting, c: char) -> Splitting {
    if c == '\\' {
        Splitting { started: true, slashes: st.slashes + 1, ..st }
    } else if c == '"' {
        let read = st.current + backslashes(st.slashes / 2);
        if st.slashes % 2 == 1 {
            Splitting { current: read.push('"'), started: true, slashes: 0, ..st }
        } else {
            Splitting {
                current: read,
                started: true,
                in_quotes: !st.in_quotes,
                slashes: 0,
                ..st
            }
        }
    } else if (c == ' ' || c == '\t') && !st.in_quotes {
        if st.started {
            Splitting {
                done: st.done.push(st.current + backslashes(st.slashes)),
                current: seq![],
                started: false,
                in_quotes: false,
                slashes: 0,
            }
        } else {
            st
        }
    } else {
        Splitting {
            current: (st.current + backslashes(st.slashes)).push(c),
            started: true,
            slashes: 0,
            ..st
        }
    }
}

/// Reads characters one after the other.
pub open spec fn split_chars(st: Splitting, s: Seq<char>) -> Splitting
    decreases s.len(),
{
    if s.len() == 0 {
        st
    } else {
        split_char(split_chars(st, s.drop_last()), s.last())
    }
}

/// The arguments that a Windows program reads from a command line.
pub open spec fn split_command_line(s: Seq<char>) -> Seq<Seq<char>> {
    let end = split_chars(split_start(), s);
    if end.started {
        end.done.push(end.current + backslashes(end.slashes))
    } else {
        end.done
    }
}

proof fn lemma_split_concat(st: Splitting, a: Seq<char>, b: Seq<char>)
    ensures
        split_chars(st, a + b) == split_chars(split_chars(st, a), b),
    decreases b.len(),
{
    if b.len() == 0 {
        assert(a + b =~= a);
    } else {
        assert((a + b).drop_last() =~= a + b.drop_last());
        assert((a + b).last() == b.last());
        lemma_split_concat(st, a, b.drop_last());
    }
}

proof fn lemma_split_one(st: Splitting, c: char)
    ensures
        split_chars(st, seq![c]) == split_char(st, c),
{
    assert(seq![c].drop_last() =~= seq![]);
    assert(split_chars(st, seq![c].drop_last()) == st);
}

proof fn lemma_split_backslashes(st: Splitting, n: nat)
    requires
        st.started,
    ensures
        split_chars(st, backslashes(n)) == (Splitting { slashes: st.slashes + n, ..st }),
    decreases n,
{
    if n > 0 {
        assert(backslashes(n).drop_last() =~= backslashes((n - 1) as nat));
        lemma_split_backslashes(st, (n - 1) as nat);
    }
}

/// Between quotes, what stands for the characters from position `i` on is read as these
/// characters.
proof fn lemma_split_escaped(st: Splitting, s: Seq<char>, i: int, n: nat)
    requires
        n <= i <= s.len(),
        forall|j: int| i - n <= j < i ==> s[j] == '\\',
        st.started,
        st.in_quotes,
        st.slashes == 0,
        st.current == s.take(i - n),
    ensures
        ({
            let end = split_char(split_chars(st, escaped_from(s, i - n)), '"');
            end == (Splitting { current: s, in_quotes: false, slashes: 0, ..st })
        }),
    decreases s.len() - i,
{
    if i < s.len() && s[i] == '\\' {
        lemma_split_escaped(st, s, i + 1, n + 1);
    } else {
        lemma_escaped_run(s, i, n);
        assert(s.take(i) =~= s.take(i - n) + backslashes(n));
        if i >= s.len() {
            assert(backslashes(2 * n) + escaped_from(s, i) =~= backslashes(2 * n));
            lemma_split_backslashes(st, 2 * n);
            assert(s.take(i) =~= s);
        } else {
            let rest = escaped_from(s, i + 1);
            assert(s.take(i + 1) =~= s.take(i).push(s[i]));
            let head = if s[i] == '"' {
                backslashes(2 * n + 1)
            } else {
                backslashes(n)
            };
            assert(escaped_from(s, i - n) =~= head + (seq![s[i]] + rest));
            lemma_split_concat(st, head, seq![s[i]] + rest);
            lemma_split_backslashes(st, head.len());
            let mid = split_chars(st, head);
            lemma_split_concat(mid, seq![s[i]], rest);
            lemma_split_one(mid, s[i]);
            let next = split_char(mid, s[i]);
            if s[i] == '"' {
                assert((2 * n + 1) / 2 == n && (2 * n + 1) % 2 == 1) by (nonlinear_arith);
            }
            assert(next.current =~= s.take(i + 1));
            assert(next == (Splitting { current: s.take(i + 1), ..st }));
            lemma_split_escaped(next, s, i + 1, 0);
        }
    }
}

/// An argument without quotes is read as it is; backslashes at its end wait for what follows.
proof fn lemma_split_plain(st: Splitting, arg: Seq<char>)
    requires
        !st.started,
        !st.in_quotes,
        st.slashes == 0,
        st.current.len() == 0,
        forall|k: int| 0 <= k < arg.len() ==> !breaks_argument(#[trigger] arg[k]),
    ensures
        ({
            let end = split_chars(st, arg);
            &&& end.done == st.done
            &&& !end.in_quotes
            &&& end.started == (arg.len() > 0)
            &&& end.current + backslashes(end.slashes) == arg
        }),
    decreases arg.len(),
{
    if arg.len() == 0 {
        assert(st.current + backslashes(0) =~= arg);
    } else {
        let head = arg.drop_last();
        assert forall|k: int| 0 <= k < head.len() implies !breaks_argument(
            #[trigger] head[k],
        ) by {
            assert(head[k] == arg[k]);
        }
        lemma_split_plain(st, head);
        let mid = split_chars(st, head);
        let end = split_chars(st, arg);
        assert(!breaks_argument(arg[arg.len() - 1]));
        assert(end == split_char(mid, arg.last()));
        assert(end.current + backslashes(end.slashes) =~= (mid.current + backslashes(
            mid.slashes,
        )).push(arg.last()));
        assert(head.push(arg.last()) =~= arg);
    }
}

/// A quoted argument is read as the argument.
proof fn lemma_split_quoted(st: Splitting, arg: Seq<char>)
    requires
        !st.started,
        !st.in_quotes,
        st.slashes == 0,
        st.current.len() == 0,
    ensures
        ({
            let end = split_chars(st, quoted(arg));
            &&& end.done == st.done
            &&& !end.in_quotes
            &&& end.started
            &&& end.current + backslashes(end.slashes) == arg
        }),
{
    if needs_quotes(arg) {
        let open = split_char(st, '"');
        lemma_split_one(st, '"');
        let inner = escaped_from(arg, 0);
        lemma_split_concat(st, seq!['"'] + inner, seq!['"']);
        lemma_split_concat(st, seq!['"'], inner);
        assert(open.current =~= arg.take(0));
        lemma_split_escaped(open, arg, 0, 0);
        let mid = split_chars(open, inner);
        lemma_split_one(mid, '"');
        let end = split_chars(st, quoted(arg));
        assert(end.current + backslashes(0) =~= arg);
    } else {
        lemma_split_plain(st, arg);
    }
}

proof fn lemma_split_line(args: Seq<Seq<char>>)
    ensures
        ({
            let end = split_chars(split_start(), command_line(args));
            &&& !end.in_quotes
            &&& end.started == (args.len() > 0)
            &&& args.len() > 0 ==> end.done == args.drop_last() && end.current + backslashes(
                end.slashes,
            ) == args.last()
            &&& args.len() == 0 ==> end == split_start()
        }),
    decreases args.len(),
{
    let parts = all_quoted(args);
    if args.len() == 0 {
    } else if args.len() == 1 {
        assert(command_line(args) == quoted(args[0]));
        lemma_split_quoted(split_start(), args[0]);
        assert(args.drop_last() =~= seq![]);
    } else {
        let head = args.drop_last();
        lemma_split_line(head);
        assert(all_quoted(args).drop_last() =~= all_quoted(head));
        let before = command_line(head);
        assert(command_line(args) == before + seq![' '] + quoted(args.last()));
        lemma_split_concat(split_start(), before + seq![' '], quoted(args.last()));
        lemma_split_concat(split_start(), before, seq![' ']);
        let mid = split_chars(split_start(), before);
        lemma_split_one(mid, ' ');
        let next = split_char(mid, ' ');
        assert(head.drop_last().push(head.last()) =~= head);
        lemma_split_quoted(next, args.last());
    }
}

/// A Windows program reads from the command line the arguments that it was made of, whatever
/// they hold.
pub proof fn command_line_reads_back(args: Seq<Seq<char>>)
    ensures
        split_command_line(command_line(args)) == args,
{
    lemma_split_line(args);
    if args.len() > 0 {
        assert(args.drop_last().push(args.last()) =~= args);
    } else {
        assert(args =~= seq![]);
    }
}

} // verus!
