use vstd::prelude::*;

verus! {

/// Whether `c` is white space: the characters of Unicode's `White_Space`
/// property, as `char::is_whitespace` documents them.
pub open spec fn is_white(c: char) -> bool {
    ('\u{9}' <= c && c <= '\u{d}') || c == ' ' || c == '\u{85}' || c == '\u{a0}' || c == '\u{1680}'
        || ('\u{2000}' <= c && c <= '\u{200a}') || c == '\u{2028}' || c == '\u{2029}'
        || c == '\u{202f}' || c == '\u{205f}' || c == '\u{3000}'
}

/// Reading `s` from the left: the words already closed by white space, and
/// the word still open at the end.
pub open spec fn scan_words(s: Seq<char>) -> (Seq<Seq<char>>, Seq<char>)
    decreases s.len(),
{
    if s.len() == 0 {
        (Seq::empty(), Seq::empty())
    } else {
        let (done, open) = scan_words(s.drop_last());
        if is_white(s.last()) {
            if open.len() > 0 {
                (done.push(open), Seq::empty())
            } else {
                (done, Seq::empty())
            }
        } else {
            (done, open.push(s.last()))
        }
    }
}

/// The words of `s`: its longest runs of characters that are not white
/// space, in order. None of them is empty.
pub open spec fn words(s: Seq<char>) -> Seq<Seq<char>> {
    let (done, open) = scan_words(s);
    if open.len() > 0 {
        done.push(open)
    } else {
        done
    }
}

pub open spec fn string_views(v: Seq<String>) -> Seq<Seq<char>> {
    v.map_values(|p: String| p@)
}

/// Whether `c` is white space.
pub fn is_whitespace(c: char) -> (r: bool)
    ensures
        r == is_white(c),
{
    ('\u{9}' <= c && c <= '\u{d}') || c == ' ' || c == '\u{85}' || c == '\u{a0}' || c == '\u{1680}'
        || ('\u{2000}' <= c && c <= '\u{200a}') || c == '\u{2028}' || c == '\u{2029}'
        || c == '\u{202f}' || c == '\u{205f}' || c == '\u{3000}'
}

/// Splits `cmd` into its words.
pub fn split_command(cmd: &str) -> (r: Vec<String>)
    ensures
        string_views(r@) == words(cmd@),
{
    let n = cmd.unicode_len();
    let mut done: Vec<String> = Vec::new();
    let mut start: usize = 0;
    let mut i: usize = 0;
    proof {
        assert(cmd@.subrange(0, 0) =~= Seq::<char>::empty());
        assert(string_views(done@) =~= Seq::<Seq<char>>::empty());
    }
    while i < n
        invariant
            n == cmd@.len(),
            start <= i <= n,
            string_views(done@) == scan_words(cmd@.subrange(0, i as int)).0,
            cmd@.subrange(start as int, i as int) == scan_words(cmd@.subrange(0, i as int)).1,
        decreases n - i,
    {
        let c = cmd.get_char(i);
        let ghost pre = cmd@.subrange(0, i as int);
        let ghost next = cmd@.subrange(0, i + 1);
        assert(next.drop_last() =~= pre);
        assert(next.last() == c);
        assert(cmd@.subrange(i + 1, i + 1) =~= Seq::<char>::empty());
        if is_whitespace(c) {
            if start < i {
                let piece = cmd.substring_char(start, i).to_owned();
                let ghost before = done@;
                done.push(piece);
                proof {
                    assert(string_views(done@) =~= string_views(before).push(piece@));
                }
            }
            start = i + 1;
        } else {
            proof {
                assert(cmd@.subrange(start as int, i + 1) =~= cmd@.subrange(start as int, i as int).push(c));
            }
        }
        i = i + 1;
    }
    proof {
        assert(cmd@.subrange(0, n as int) =~= cmd@);
    }
    if start < n {
        let last = cmd.substring_char(start, n).to_owned();
        let ghost before = done@;
        done.push(last);
        proof {
            assert(string_views(done@) =~= string_views(before).push(last@));
        }
    }
    done
}

/// A reconnect command: the program and the arguments it is started with.
#[derive(Debug)]
pub struct NetworkCommand {
    pub cmd: String,
    pub args: Vec<String>,
}

/// Whether `c` is the command that `text` holds: its first word the
/// program, the other words its arguments.
pub open spec fn parses_to(text: Seq<char>, c: NetworkCommand) -> bool {
    &&& c.cmd@ == words(text)[0]
    &&& string_views(c.args@) == words(text).drop_first()
}

/// The same command as the configuration holds it.
pub type SharedCommand = NetworkCommand;

impl NetworkCommand {
    fn from_words(pieces: Vec<String>) -> (r: NetworkCommand)
        requires
            pieces@.len() >= 1,
        ensures
            r.cmd@ == string_views(pieces@)[0],
            string_views(r.args@) == string_views(pieces@).drop_first(),
    {
        let mut pieces = pieces;
        let ghost all = pieces@;
        let program = pieces.remove(0);
        proof {
            assert(string_views(pieces@) =~= string_views(all).drop_first());
        }
        NetworkCommand { cmd: program, args: pieces }
    }

    /// Splits `cmd` into the program and its arguments; `None` where it
    /// holds no word.
    pub fn parse(cmd: &str) -> (r: Option<NetworkCommand>)
        ensures
            match r {
                Some(c) => words(cmd@).len() >= 1 && parses_to(cmd@, c),
                None => words(cmd@).len() == 0,
            },
    {
        let pieces = split_command(cmd);
        if pieces.len() == 0 {
            None
        } else {
            Some(NetworkCommand::from_words(pieces))
        }
    }

    /// Splits `cmd`, which holds at least one word, into the program and its
    /// arguments.
    pub fn new(cmd: &String) -> (r: NetworkCommand)
        requires
            words(cmd@).len() >= 1,
        ensures
            parses_to(cmd@, r),
    {
        NetworkCommand::from_words(split_command(cmd.as_str()))
    }
}

/// Lets one reconnect run at a time: a run may begin only while no other
/// is under way.
#[derive(Debug)]
pub struct NetworkCommandLimiter {
    cmd: NetworkCommand,
    is_running: bool,
}

impl NetworkCommandLimiter {
    pub closed spec fn running(&self) -> bool {
        self.is_running
    }

    pub closed spec fn command_spec(&self) -> NetworkCommand {
        self.cmd
    }

    /// An idle limiter for the command `cmd`, which holds at least one word.
    pub fn new(cmd: &String) -> (r: NetworkCommandLimiter)
        requires
            words(cmd@).len() >= 1,
        ensures
            !r.running(),
            parses_to(cmd@, r.command_spec()),
    {
        NetworkCommandLimiter::with_command(NetworkCommand::new(cmd))
    }

    /// An idle limiter for a command already split.
    pub fn with_command(cmd: NetworkCommand) -> (r: NetworkCommandLimiter)
        ensures
            !r.running(),
            r.command_spec() == cmd,
    {
        NetworkCommandLimiter { cmd, is_running: false }
    }

    /// Begins a run where none is under way and returns true; returns false,
    /// and changes nothing, where one is. The caller that got true executes
    /// the command and then calls `finish`.
    pub fn run(&mut self) -> (started: bool)
        ensures
            started == !old(self).running(),
            final(self).running(),
            final(self).command_spec() == old(self).command_spec(),
    {
        if self.is_running {
            false
        } else {
            self.is_running = true;
            true
        }
    }

    /// Marks the run as over.
    pub fn finish(&mut self)
        ensures
            !final(self).running(),
            final(self).command_spec() == old(self).command_spec(),
    {
        self.is_running = false;
    }

    pub fn is_running(&self) -> (r: bool)
        ensures
            r == self.running(),
    {
        self.is_running
    }

    /// The command that each run executes.
    pub fn command(&self) -> (r: &NetworkCommand)
        ensures
            *r == self.command_spec(),
    {
        &self.cmd
    }
}

} // verus!
