//! Git in a project on another host: the commands that are run there over SSH.
use vstd::prelude::*;

use crate::text;

verus! {

/// A project on another host.
#[derive(Debug, Clone)]
pub struct UpstreamRemoteProject {
    pub project_id: String,
    pub host_id: String,
    pub remote_path: String,
    pub label: String,
}

/// Where an SSH connection goes.
#[derive(Debug, Clone)]
pub struct SshTarget {
    pub user: String,
    pub host: String,
    pub port: Option<u16>,
}

/// A command that is run on another host.
#[derive(Debug)]
pub struct RemoteCommand {
    pub destination: String,
    pub port: Option<u16>,
    pub command: String,
}

// ---- quoting for the shell ---------------------------------------------------------------

/// A text between single quotes, each single quote in it given as an end of the quotes, an
/// escaped quote, and a beginning of quotes.
pub open spec fn between_quotes(s: Seq<char>) -> Seq<char>
    decreases s.len(),
{
    if s.len() == 0 {
        seq!['\'']
    } else if s.last() == '\'' {
        between_quotes(s.drop_last()) + seq!['\'', '\\', '\'', '\'']
    } else {
        between_quotes(s.drop_last()).push(s.last())
    }
}

/// A text as one word of a shell.
pub open spec fn shell_quoted(s: Seq<char>) -> Seq<char> {
    between_quotes(s).push('\'')
}

/// The text as one word of a shell.
pub fn shell_quote(value: &str) -> (r: String)
    ensures
        r@ == shell_quoted(value@),
        shell_words(r@) == Some(seq![value@]),
{
    let chars: Vec<char> = text::chars_of(value);
    proof {
        quoted_text_reads_back(value@);
    }
    let mut r = String::new();
    r.push('\'');
    assert(value@.take(0) =~= seq![]);
    assert(r@ =~= between_quotes(value@.take(0)));
    for i in 0..chars.len()
        invariant
            chars@ == value@,
            r@ == between_quotes(value@.take(i as int)),
    {
        let ghost before = r@;
        assert(value@.take(i + 1).drop_last() =~= value@.take(i as int));
        assert(value@.take(i + 1).last() == value@[i as int]);
        if chars[i] == '\'' {
            r.push('\'');
            r.push('\\');
            r.push('\'');
            r.push('\'');
            assert(r@ =~= before + seq!['\'', '\\', '\'', '\'']);
        } else {
            r.push(chars[i]);
        }
    }
    assert(value@.take(value@.len() as int) =~= value@);
    r.push('\'');
    r
}

/// The words, each quoted, with a space between two.
pub open spec fn shell_line(words: Seq<Seq<char>>) -> Seq<char>
    decreases words.len(),
{
    if words.len() == 0 {
        seq![]
    } else if words.len() == 1 {
        shell_quoted(words[0])
    } else {
        shell_line(words.drop_last()) + seq![' '] + shell_quoted(words.last())
    }
}

// ---- what a shell reads ------------------------------------------------------------------

/// What a shell has read of a line: whole words, the word that it is in, if it is in one, and
/// whether it is between quotes or behind a backslash.
pub struct Reading {
    pub words: Seq<Seq<char>>,
    pub word: Option<Seq<char>>,
    pub quoted: bool,
    pub escaped: bool,
}

/// The word that a shell is in, or a new one.
pub open spec fn word_in(r: Reading) -> Seq<char> {
    match r.word {
        Some(word) => word,
        None => seq![],
    }
}

/// What a shell has read after one more character.
pub open spec fn read_char(r: Reading, c: char) -> Reading {
    if r.escaped {
        Reading { word: Some(word_in(r).push(c)), escaped: false, ..r }
    } else if r.quoted {
        if c == '\'' {
            Reading { quoted: false, ..r }
        } else {
            Reading { word: Some(word_in(r).push(c)), ..r }
        }
    } else if c == '\'' {
        Reading { word: Some(word_in(r)), quoted: true, ..r }
    } else if c == '\\' {
        Reading { word: Some(word_in(r)), escaped: true, ..r }
    } else if c == ' ' {
        match r.word {
            Some(word) => Reading { words: r.words.push(word), word: None, ..r },
            None => r,
        }
    } else {
        Reading { word: Some(word_in(r).push(c)), ..r }
    }
}

/// What a shell has read after more characters.
pub open spec fn read_on(r: Reading, s: Seq<char>) -> Reading
    decreases s.len(),
{
    if s.len() == 0 {
        r
    } else {
        read_char(read_on(r, s.drop_last()), s.last())
    }
}

/// The words of a line, as a shell reads single quotes, backslashes and spaces; nothing where
/// the line ends between quotes or behind a backslash.
pub open spec fn shell_words(line: Seq<char>) -> Option<Seq<Seq<char>>> {
    let r = read_on(
        Reading { words: seq![], word: None, quoted: false, escaped: false },
        line,
    );
    if r.quoted || r.escaped {
        None
    } else {
        match r.word {
            Some(word) => Some(r.words.push(word)),
            None => Some(r.words),
        }
    }
}

proof fn lemma_read_on(r: Reading, a: Seq<char>, b: Seq<char>)
    ensures
        read_on(r, a + b) == read_on(read_on(r, a), b),
    decreases b.len(),
{
    if b.len() == 0 {
        assert(a + b =~= a);
    } else {
        assert((a + b).drop_last() =~= a + b.drop_last());
        lemma_read_on(r, a, b.drop_last());
    }
}

proof fn lemma_read_two(r: Reading, a: char, b: char)
    ensures
        read_on(r, seq![a]) == read_char(r, a),
        read_on(r, seq![a, b]) == read_char(read_char(r, a), b),
{
    reveal_with_fuel(read_on, 3);
    assert(seq![a].drop_last() =~= seq![]);
    assert(seq![a, b].drop_last() =~= seq![a]);
}

/// Between words, a shell reads an opening quote and what follows as the text that was quoted.
proof fn lemma_between_quotes(words: Seq<Seq<char>>, s: Seq<char>)
    ensures
        read_on(
            Reading { words, word: None, quoted: false, escaped: false },
            between_quotes(s),
        ) == (Reading { words, word: Some(s), quoted: true, escaped: false }),
    decreases s.len(),
{
    let start = Reading { words, word: None, quoted: false, escaped: false };
    if s.len() == 0 {
        lemma_read_two(start, '\'', '\'');
        assert(s =~= seq![]);
    } else {
        let rest = s.drop_last();
        lemma_between_quotes(words, rest);
        let here = read_on(start, between_quotes(rest));
        assert(rest.push(s.last()) =~= s);
        if s.last() == '\'' {
            lemma_read_on(start, between_quotes(rest), seq!['\'', '\\', '\'', '\'']);
            assert(seq!['\'', '\\', '\'', '\''] =~= seq!['\'', '\\'] + seq!['\'', '\'']);
            lemma_read_on(here, seq!['\'', '\\'], seq!['\'', '\'']);
            lemma_read_two(here, '\'', '\\');
            lemma_read_two(read_on(here, seq!['\'', '\\']), '\'', '\'');
        } else {
            assert(between_quotes(s).drop_last() =~= between_quotes(rest));
        }
    }
}

/// Between words, a shell reads a quoted text as a word.
proof fn lemma_quoted_word(words: Seq<Seq<char>>, s: Seq<char>)
    ensures
        read_on(
            Reading { words, word: None, quoted: false, escaped: false },
            shell_quoted(s),
        ) == (Reading { words, word: Some(s), quoted: false, escaped: false }),
{
    lemma_between_quotes(words, s);
    assert(shell_quoted(s).drop_last() =~= between_quotes(s));
}

proof fn lemma_shell_line(words: Seq<Seq<char>>)
    requires
        words.len() > 0,
    ensures
        read_on(
            Reading { words: seq![], word: None, quoted: false, escaped: false },
            shell_line(words),
        ) == (Reading {
            words: words.drop_last(),
            word: Some(words.last()),
            quoted: false,
            escaped: false,
        }),
    decreases words.len(),
{
    let start = Reading { words: seq![], word: None, quoted: false, escaped: false };
    if words.len() == 1 {
        lemma_quoted_word(seq![], words[0]);
        assert(words.drop_last() =~= seq![]);
    } else {
        let rest = words.drop_last();
        let line = shell_line(rest);
        lemma_shell_line(rest);
        lemma_read_on(start, line, seq![' ']);
        lemma_read_two(read_on(start, line), ' ', ' ');
        assert(rest.drop_last().push(rest.last()) =~= rest);
        lemma_read_on(start, line + seq![' '], shell_quoted(words.last()));
        lemma_quoted_word(rest, words.last());
    }
}

/// A shell reads a line of quoted words as these words, whatever they hold.
pub proof fn shell_line_reads_back(words: Seq<Seq<char>>)
    ensures
        shell_words(shell_line(words)) == Some(words),
{
    if words.len() == 0 {
        assert(shell_words(shell_line(words)) == Some(words));
    } else {
        lemma_shell_line(words);
        assert(words.drop_last().push(words.last()) =~= words);
    }
}

/// A shell reads a quoted text as one word, which is that text.
pub proof fn quoted_text_reads_back(s: Seq<char>)
    ensures
        shell_words(shell_quoted(s)) == Some(seq![s]),
{
    lemma_quoted_word(seq![], s);
    assert(Seq::<Seq<char>>::empty().push(s) =~= seq![s]);
}

// ---- paths -------------------------------------------------------------------------------

/// A path without the slashes at its end.
pub open spec fn without_slashes(path: Seq<char>) -> Seq<char>
    decreases path.len(),
{
    if path.len() > 0 && path.last() == '/' {
        without_slashes(path.drop_last())
    } else {
        path
    }
}

/// Whether a path on the other host is absolute.
pub open spec fn is_absolute(path: Seq<char>) -> bool {
    path.len() > 0 && path[0] == '/'
}

/// A path on the other host, a relative one being taken from the base.
pub open spec fn joined_path(base: Seq<char>, path: Seq<char>) -> Seq<char> {
    if is_absolute(path) {
        path
    } else {
        without_slashes(base).push('/') + path
    }
}

/// The path on the other host, a relative one being taken from the base.
pub fn remote_path_join(base: &str, path: &str) -> (r: String)
    ensures
        r@ == joined_path(base@, path@),
        path@.len() > 0 && path@[0] == '/' ==> r@ == path@,
        path@.len() == 0 || path@[0] != '/' ==> path@.is_suffix_of(r@) && r@.len() > path@.len()
            && r@[r@.len() - path@.len() - 1] == '/',
{
    if text::starts_with(path, "/") {
        proof {
            reveal_strlit("/");
            assert(path@[0] == "/"@[0]);
        }
        return path.to_string();
    }
    proof {
        reveal_strlit("/");
        if is_absolute(path@) {
            assert("/"@ =~= path@.subrange(0, 1));
        }
    }
    let chars: Vec<char> = text::chars_of(base);
    let mut end: usize = chars.len();
    assert(base@.take(base@.len() as int) =~= base@);
    while end > 0 && chars[end - 1] == '/'
        invariant
            end <= chars@.len(),
            chars@ == base@,
            without_slashes(base@.take(end as int)) == without_slashes(base@),
        decreases end,
    {
        assert(base@.take(end as int).drop_last() =~= base@.take(end - 1));
        end = end - 1;
    }
    let mut r: String = text::string_of_range(chars.as_slice(), 0, end);
    assert(base@.take(end as int) =~= base@.subrange(0, end as int));
    r.push('/');
    r.append(path);
    assert(r@.subrange(r@.len() - path@.len(), r@.len() as int) =~= path@);
    r
}

/// A path that is taken from an absolute base is absolute.
pub proof fn joined_paths_are_absolute(base: Seq<char>, path: Seq<char>)
    requires
        is_absolute(base),
    ensures
        is_absolute(joined_path(base, path)),
{
    lemma_without_slashes(base);
}

/// An absolute path stays as it is. A relative one stands behind the base, with one slash between
/// them, however many slashes the base ends in.
pub proof fn relative_paths_stand_behind_the_base(base: Seq<char>, path: Seq<char>)
    ensures
        path.len() > 0 && path[0] == '/' ==> joined_path(base, path) == path,
        (path.len() == 0 || path[0] != '/') && (base.len() == 0 || base.last() != '/')
            ==> joined_path(base, path) == base + seq!['/'] + path,
        joined_path(base.push('/'), path) == joined_path(base, path),
{
    assert(base.push('/').drop_last() =~= base);
    assert(base.push('/') =~= base + seq!['/']);
}

proof fn lemma_without_slashes(path: Seq<char>)
    ensures
        without_slashes(path).len() <= path.len(),
        forall|k: int|
            0 <= k < without_slashes(path).len() ==> #[trigger] without_slashes(path)[k] == path[k],
    decreases path.len(),
{
    if path.len() > 0 && path.last() == '/' {
        lemma_without_slashes(path.drop_last());
    }
}

// ---- commands ----------------------------------------------------------------------------

/// The words of a git command in a project on another host.
pub open spec fn git_words(remote_path: Seq<char>, args: Seq<Seq<char>>) -> Seq<Seq<char>> {
    seq!["git"@, "-C"@, remote_path] + args
}

/// The git command with the given arguments, in the project, over SSH.
pub fn remote_git_command(
    project: &UpstreamRemoteProject,
    target: &SshTarget,
    args: &[&str],
) -> (r: RemoteCommand)
    ensures
        r.destination@ == target.user@ + "@"@ + target.host@,
        r.port == target.port,
        r.command@ == shell_line(git_words(project.remote_path@, args.deep_view())),
        shell_words(r.command@) == Some(
            seq!["git"@, "-C"@, project.remote_path@] + args.deep_view(),
        ),
{
    proof {
        remote_git_command_reads_back(project.remote_path@, args.deep_view());
    }
    let mut destination = target.user.clone();
    destination.append("@");
    destination.append(target.host.as_str());
    let ghost path = project.remote_path@;
    let ghost texts = args.deep_view();
    let mut command: String = shell_quote("git");
    proof {
        assert(shell_line(seq!["git"@]) == command@);
    }
    let option: String = shell_quote("-C");
    command.append(" ");
    command.append(option.as_str());
    proof {
        reveal_strlit(" ");
        assert(" "@ =~= seq![' ']);
        assert(seq!["git"@, "-C"@].drop_last() =~= seq!["git"@]);
        assert(command@ =~= shell_line(seq!["git"@, "-C"@]));
    }
    let place: String = shell_quote(project.remote_path.as_str());
    command.append(" ");
    command.append(place.as_str());
    proof {
        assert(seq!["git"@, "-C"@, path].drop_last() =~= seq!["git"@, "-C"@]);
        assert(command@ =~= shell_line(seq!["git"@, "-C"@, path]));
        assert(git_words(path, texts.take(0)) =~= seq!["git"@, "-C"@, path]);
    }
    for i in 0..args.len()
        invariant
            " "@ == seq![' '],
            path == project.remote_path@,
            texts == args.deep_view(),
            command@ == shell_line(git_words(path, texts.take(i as int))),
    {
        let word: String = shell_quote(args[i]);
        command.append(" ");
        command.append(word.as_str());
        proof {
            let words = git_words(path, texts.take(i + 1));
            assert(words.drop_last() =~= git_words(path, texts.take(i as int)));
            assert(words.last() == texts[i as int]);
        }
    }
    assert(texts.take(args@.len() as int) =~= texts);
    RemoteCommand { destination, port: target.port, command }
}

/// A git command changes to the project's directory first, and the given arguments come last.
pub proof fn git_runs_in_the_project(remote_path: Seq<char>, args: Seq<Seq<char>>)
    ensures
        git_words(remote_path, args).len() == 3 + args.len(),
        git_words(remote_path, args)[0] == seq!['g', 'i', 't'],
        git_words(remote_path, args)[1] == seq!['-', 'C'],
        git_words(remote_path, args)[2] == remote_path,
        git_words(remote_path, args).skip(3) == args,
{
    reveal_strlit("git");
    reveal_strlit("-C");
    assert("git"@ =~= seq!['g', 'i', 't']);
    assert("-C"@ =~= seq!['-', 'C']);
    assert(git_words(remote_path, args).skip(3) =~= args);
}

/// A remote shell runs git in the project's directory, with the given arguments, whatever they
/// hold.
pub proof fn remote_git_command_reads_back(remote_path: Seq<char>, args: Seq<Seq<char>>)
    ensures
        shell_words(shell_line(git_words(remote_path, args))) == Some(git_words(remote_path, args)),
{
    shell_line_reads_back(git_words(remote_path, args));
}

/// The script that collects what is known of a project by default, in one connection.
pub open spec fn snapshot_script(remote_path: Seq<char>) -> Seq<char> {
    text::joined(
        seq![
            "cd "@ + shell_quoted(remote_path),
            "git rev-parse --show-toplevel"@,
            "git branch --show-current"@,
            "git remote"@,
            "git for-each-ref '--format=%(refname)' refs/remotes"@,
            "git worktree list --porcelain"@,
        ],
        " && "@,
    )
}

/// The script changes to the project's directory, and goes on only where that went well: with the
/// top of the work tree, the current branch, the remotes, their branches, and the work trees.
pub proof fn snapshot_collects_the_defaults(remote_path: Seq<char>)
    ensures
        snapshot_script(remote_path) == "cd "@ + shell_quoted(remote_path)
            + " && git rev-parse --show-toplevel"@ + " && git branch --show-current"@
            + " && git remote"@ + " && git for-each-ref '--format=%(refname)' refs/remotes"@
            + " && git worktree list --porcelain"@,
{
    let a = "cd "@ + shell_quoted(remote_path);
    let b = "git rev-parse --show-toplevel"@;
    let c = "git branch --show-current"@;
    let d = "git remote"@;
    let e = "git for-each-ref '--format=%(refname)' refs/remotes"@;
    let f = "git worktree list --porcelain"@;
    reveal_with_fuel(text::joined, 7);
    assert(seq![a, b, c, d, e, f].drop_last() =~= seq![a, b, c, d, e]);
    assert(seq![a, b, c, d, e].drop_last() =~= seq![a, b, c, d]);
    assert(seq![a, b, c, d].drop_last() =~= seq![a, b, c]);
    assert(seq![a, b, c].drop_last() =~= seq![a, b]);
    assert(seq![a, b].drop_last() =~= seq![a]);
    reveal_strlit(" && ");
    reveal_strlit("git rev-parse --show-toplevel");
    reveal_strlit("git branch --show-current");
    reveal_strlit("git remote");
    reveal_strlit("git for-each-ref '--format=%(refname)' refs/remotes");
    reveal_strlit("git worktree list --porcelain");
    reveal_strlit(" && git rev-parse --show-toplevel");
    reveal_strlit(" && git branch --show-current");
    reveal_strlit(" && git remote");
    reveal_strlit(" && git for-each-ref '--format=%(refname)' refs/remotes");
    reveal_strlit(" && git worktree list --porcelain");
    assert(" && "@ + b =~= " && git rev-parse --show-toplevel"@);
    assert(" && "@ + c =~= " && git branch --show-current"@);
    assert(" && "@ + d =~= " && git remote"@);
    assert(" && "@ + e =~= " && git for-each-ref '--format=%(refname)' refs/remotes"@);
    assert(" && "@ + f =~= " && git worktree list --porcelain"@);
    assert(snapshot_script(remote_path) =~= a + (" && "@ + b) + (" && "@ + c) + (" && "@ + d) + (
    " && "@ + e) + (" && "@ + f));
}

/// The script that collects what is known of the project by default, in one connection.
pub fn remote_defaults_snapshot_script(remote_path: &str) -> (r: String)
    ensures
        r@ == snapshot_script(remote_path@),
{
    let place: String = shell_quote(remote_path);
    let mut change = "cd ".to_string();
    change.append(place.as_str());
    let commands: Vec<String> = vec![
        change,
        "git rev-parse --show-toplevel".to_string(),
        "git branch --show-current".to_string(),
        "git remote".to_string(),
        "git for-each-ref '--format=%(refname)' refs/remotes".to_string(),
        "git worktree list --porcelain".to_string(),
    ];
    assert(commands.deep_view() =~= seq![
        "cd "@ + shell_quoted(remote_path@),
        "git rev-parse --show-toplevel"@,
        "git branch --show-current"@,
        "git remote"@,
        "git for-each-ref '--format=%(refname)' refs/remotes"@,
        "git worktree list --porcelain"@,
    ]);
    text::join(commands.as_slice(), " && ")
}

} // verus!
