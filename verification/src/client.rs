//! The client's decisions: numbering calls, reading REPL commands, and
//! turning argument text into call parameters.

use crate::json::{
    is_simple_json, is_simple_json_text, json_of, lemma_simple_json_text_unique, parse_json,
    JsonValue,
};
use crate::text::{
    after_first_word, first_word, is_piece, is_whitespace, lemma_first_word_shape,
    lemma_piece_of_piece, lemma_subrange_is_piece, lemma_trim_is_piece, lemma_trim_shape,
    spec_trim, split_first_word, trim,
};
use vstd::prelude::*;

verus! {

/// Source of call identifiers: 1, 2, 3, ... in the order they are asked
/// for, wrapping around after `u64::MAX` as an atomic counter does.
#[derive(Debug, PartialEq)]
pub struct IdGenerator {
    next: u64,
}

impl IdGenerator {
    /// The identifier the next call of [`IdGenerator::next_id`] hands out.
    pub closed spec fn peek(&self) -> u64 {
        self.next
    }

    /// A generator whose first identifier is 1.
    pub fn new() -> (g: Self)
        ensures
            g.peek() == 1,
    {
        IdGenerator { next: 1 }
    }

    /// Hand out the next call identifier.
    pub fn next_id(&mut self) -> (id: u64)
        ensures
            id == old(self).peek(),
            final(self).peek() == advance(old(self).peek()),
    {
        let id = self.next;
        self.next = self.next.wrapping_add(1);
        id
    }
}

/// The identifier that follows `id`: one more, or 0 after `u64::MAX`.
pub open spec fn advance(id: u64) -> u64 {
    if id == u64::MAX {
        0
    } else {
        (id + 1) as u64
    }
}

/// The identifier handed out by the `i`-th call (counting from 0) of
/// `next_id` on a generator whose next identifier is `first`.
pub open spec fn nth_id(first: u64, i: nat) -> u64
    decreases i,
{
    if i == 0 {
        first
    } else {
        advance(nth_id(first, (i - 1) as nat))
    }
}

/// Identifiers handed out one after the other increase by one, and so
/// all differ, as long as the counter does not pass `u64::MAX`; the
/// `i`-th identifier of a fresh generator is `i + 1`.
pub proof fn lemma_ids_increase(first: u64, i: nat, j: nat)
    requires
        i < j,
        first + j <= u64::MAX,
    ensures
        nth_id(first, i) == first + i,
        nth_id(first, j) == first + j,
        nth_id(first, i) < nth_id(first, j),
    decreases j,
{
    if j > i + 1 {
        lemma_ids_increase(first, i, (j - 1) as nat);
    } else if i > 0 {
        lemma_ids_increase(first, (i - 1) as nat, i);
    }
}

/// A line of the interactive shell, read as a command.
#[derive(Debug, PartialEq)]
pub enum ReplCommand {
    /// A blank line: nothing to do.
    Empty,
    /// `quit` or `exit`: leave the shell.
    Quit,
    /// `ping`: send `ping`.
    Ping,
    /// `echo <json>`: send `echo` with the parameters in the text.
    Echo(String),
    /// `call <method> <json>`: send any method with the parameters in
    /// the text.
    Call(String, String),
    /// `call` without a method name.
    CallUsage,
    /// `help` or `?`: list the commands.
    Help,
    /// Any other command word.
    Unknown(String),
}

/// Whether `c` is the command that the lowercased command word `cmd`
/// and the argument text `rest` make.
pub open spec fn is_command(c: ReplCommand, cmd: Seq<char>, rest: Seq<char>) -> bool {
    if cmd == "quit"@ || cmd == "exit"@ {
        c is Quit
    } else if cmd == "ping"@ {
        c is Ping
    } else if cmd == "echo"@ {
        c matches ReplCommand::Echo(args) && args@ == rest
    } else if cmd == "call"@ {
        let method = first_word(rest);
        let args = match after_first_word(rest) {
            Some(a) => a,
            None => Seq::empty(),
        };
        if method.len() == 0 {
            c is CallUsage
        } else {
            c matches ReplCommand::Call(m, a) && m@ == method && a@ == args
        }
    } else if cmd == "help"@ || cmd == "?"@ {
        c is Help
    } else {
        c matches ReplCommand::Unknown(other) && other@ == cmd
    }
}

/// The command made of the (already lowercased) command word `cmd` and
/// the trimmed argument text `rest`.
pub fn command_from_parts(cmd: &str, rest: &str) -> (c: ReplCommand)
    ensures
        is_command(c, cmd@, rest@),
{
    let word = cmd.to_owned();
    if word == String::from_str("quit") || word == String::from_str("exit") {
        ReplCommand::Quit
    } else if word == String::from_str("ping") {
        ReplCommand::Ping
    } else if word == String::from_str("echo") {
        ReplCommand::Echo(rest.to_owned())
    } else if word == String::from_str("call") {
        let (method, args) = split_first_word(rest);
        if method.is_empty() {
            ReplCommand::CallUsage
        } else {
            let args = match args {
                Some(a) => a,
                None => {
                    let e = rest.substring_char(0, 0);
                    assert(e@ =~= Seq::<char>::empty());
                    e
                },
            };
            ReplCommand::Call(method.to_owned(), args.to_owned())
        }
    } else if word == String::from_str("help") || word == String::from_str("?") {
        ReplCommand::Help
    } else {
        ReplCommand::Unknown(word)
    }
}

/// The lowercase form of `s`, as `str::to_lowercase` computes it.
pub uninterp spec fn lowercase(s: Seq<char>) -> Seq<char>;

/// Calls `str::to_lowercase`, which maps every character to its Unicode
/// lowercase form. The result is named by [`lowercase`]; nothing more is
/// stated of it.
#[verifier::external_body]
fn to_lowercase(s: &str) -> (r: String)
    ensures
        r@ == lowercase(s@),
{
    s.to_lowercase()
}

/// Whether `c` is the command the shell reads from `line`: a blank line
/// is [`ReplCommand::Empty`]; otherwise the first word of the trimmed
/// line, lowercased, is the command word, and the rest of the line,
/// trimmed, is its argument text.
pub open spec fn is_command_of_line(c: ReplCommand, line: Seq<char>) -> bool {
    let t = spec_trim(line);
    if t.len() == 0 {
        c is Empty
    } else {
        let rest = match after_first_word(t) {
            Some(r) => spec_trim(r),
            None => Seq::empty(),
        };
        is_command(c, lowercase(first_word(t)), rest)
    }
}

/// Read one line of the interactive shell as a command.
pub fn parse_command(line: &str) -> (c: ReplCommand)
    ensures
        is_command_of_line(c, line@),
{
    let t = trim(line);
    if t.is_empty() {
        return ReplCommand::Empty;
    }
    let (first, rest) = split_first_word(t);
    let cmd = to_lowercase(first);
    let rest = match rest {
        Some(r) => trim(r),
        None => {
            let e = t.substring_char(0, 0);
            assert(e@ =~= Seq::<char>::empty());
            e
        },
    };
    command_from_parts(cmd.as_str(), rest)
}

/// The parameters a shell command sends for argument text `text`, given
/// what parsing `text` as JSON gave (`None` when it is not JSON): none
/// for empty text, the elements of an array, a lone value otherwise, and
/// the text itself as a string when it does not parse.
pub fn repl_params(text: &str, parsed: Option<JsonValue>) -> (params: Vec<JsonValue>)
    ensures
        text@.len() == 0 ==> params@.len() == 0,
        text@.len() > 0 ==> match parsed {
            Some(JsonValue::Array(items)) => params@ == items@,
            Some(v) => params@ == seq![v],
            None => params@.len() == 1 && (params@[0] matches JsonValue::String(s) && s@
                == text@),
        },
{
    if text.is_empty() {
        return Vec::new();
    }
    match parsed {
        Some(JsonValue::Array(items)) => items,
        Some(v) => {
            let mut params = Vec::new();
            params.push(v);
            params
        },
        None => {
            let mut params = Vec::new();
            params.push(JsonValue::String(text.to_owned()));
            params
        },
    }
}

/// The parameters a one-shot command-line call sends for the trimmed
/// argument text `text`, given what parsing it as JSON gave: none for
/// empty text or text that does not parse, the elements of an array, a
/// lone value otherwise.
pub fn cli_params(text: &str, parsed: Option<JsonValue>) -> (params: Vec<JsonValue>)
    ensures
        text@.len() == 0 ==> params@.len() == 0,
        text@.len() > 0 ==> match parsed {
            Some(JsonValue::Array(items)) => params@ == items@,
            Some(v) => params@ == seq![v],
            None => params@.len() == 0,
        },
{
    if text.is_empty() {
        return Vec::new();
    }
    match parsed {
        Some(JsonValue::Array(items)) => items,
        Some(v) => {
            let mut params = Vec::new();
            params.push(v);
            params
        },
        None => Vec::new(),
    }
}

/// Whether `params` are the parameters that shell argument text `s`
/// stands for: none for empty text, the elements of a JSON array, a lone
/// JSON value, or the text itself as a JSON string when it is not JSON;
/// for the simplest JSON texts, the one value they are the text of.
pub open spec fn is_args_of(s: Seq<char>, params: Seq<JsonValue>) -> bool {
    &&& s.len() == 0 ==> params.len() == 0
    &&& s.len() > 0 ==> match json_of(s) {
        Some(JsonValue::Array(items)) => params == items@,
        Some(v) => params == seq![v],
        None => params.len() == 1 && (params[0] matches JsonValue::String(t) && t@ == s),
    }
    &&& is_simple_json(s) ==> params.len() == 1 && is_simple_json_text(s, params[0])
}

/// The parameters that shell argument text `s` stands for.
pub fn parse_args(s: &str) -> (params: Vec<JsonValue>)
    ensures
        s@.len() == 0 ==> params@.len() == 0,
        s@.len() > 0 ==> match json_of(s@) {
            Some(JsonValue::Array(items)) => params@ == items@,
            Some(v) => params@ == seq![v],
            None => params@.len() == 1 && (params@[0] matches JsonValue::String(t) && t@ == s@),
        },
        is_args_of(s@, params@),
{
    if s.is_empty() {
        return Vec::new();
    }
    let parsed = parse_json(s);
    let params = repl_params(s, parsed);
    proof {
        if is_simple_json(s@) {
            let w = parsed.unwrap();
            if let JsonValue::Array(_) = w {
                assert(false);
            }
            assert(params@ == seq![w]);
        }
    }
    params
}

/// Whether `params` and `unusable` are what a one-shot call from the
/// command line sends for the joined argument words `joined`: none for
/// blank text, the elements of a JSON array, a lone JSON value, and none,
/// with `unusable` set, for text that is not JSON; for the simplest JSON
/// texts, the one value they are the text of.
pub open spec fn is_command_line_params_of(
    joined: Seq<char>,
    params: Seq<JsonValue>,
    unusable: bool,
) -> bool {
    let t = spec_trim(joined);
    &&& t.len() == 0 ==> params.len() == 0 && !unusable
    &&& t.len() > 0 ==> match json_of(t) {
        Some(JsonValue::Array(items)) => params == items@ && !unusable,
        Some(v) => params == seq![v] && !unusable,
        None => params.len() == 0 && unusable,
    }
    &&& is_simple_json(t) ==> params.len() == 1 && is_simple_json_text(t, params[0]) && !unusable
}

/// The parameters of a one-shot call from the command line, whose
/// argument words are joined into `joined`, and whether they had to be
/// dropped because the trimmed text is not JSON (the caller warns).
pub fn command_line_params(joined: &str) -> (r: (Vec<JsonValue>, bool))
    ensures
        spec_trim(joined@).len() == 0 ==> r.0@.len() == 0 && !r.1,
        spec_trim(joined@).len() > 0 ==> match json_of(spec_trim(joined@)) {
            Some(JsonValue::Array(items)) => r.0@ == items@ && !r.1,
            Some(v) => r.0@ == seq![v] && !r.1,
            None => r.0@.len() == 0 && r.1,
        },
        is_command_line_params_of(joined@, r.0@, r.1),
{
    let text = trim(joined);
    if text.is_empty() {
        return (Vec::new(), false);
    }
    let parsed = parse_json(text);
    let unusable = parsed.is_none();
    let params = cli_params(text, parsed);
    proof {
        if is_simple_json(text@) {
            let w = parsed.unwrap();
            if let JsonValue::Array(_) = w {
                assert(false);
            }
            assert(params@ == seq![w]);
        }
    }
    (params, unusable)
}

/// Whether a call that fails (the link or the reply is broken) ends the
/// shell: it does for `ping`, while `echo` and `call` report the failure
/// and read the next line.
pub fn call_failure_ends_session(command: &ReplCommand) -> (ends: bool)
    ensures
        ends == (command is Ping),
{
    match command {
        ReplCommand::Ping => true,
        _ => false,
    }
}

/// The method of a `call` command is the first word of its argument
/// text exactly as typed (a name with no whitespace, which starts the
/// text and ends at whitespace or at its end), and the method's own
/// argument text is a piece of that text as typed; without a method
/// word the command is the usage error.
pub proof fn lemma_call_method_as_typed(c: ReplCommand, rest: Seq<char>)
    requires
        is_command(c, "call"@, rest),
    ensures
        first_word(rest).len() == 0 ==> c is CallUsage,
        first_word(rest).len() > 0 ==> (c matches ReplCommand::Call(m, a) && {
            &&& 0 < m@.len() <= rest.len()
            &&& m@ == rest.subrange(0, m@.len() as int)
            &&& forall|k: int| 0 <= k < m@.len() ==> !is_whitespace(#[trigger] m@[k])
            &&& m@.len() < rest.len() ==> is_whitespace(rest[m@.len() as int])
            &&& is_piece(rest, a@)
        }),
{
    reveal_strlit("call");
    reveal_strlit("quit");
    reveal_strlit("exit");
    reveal_strlit("ping");
    reveal_strlit("echo");
    assert("call"@[0] != "quit"@[0] && "call"@[0] != "exit"@[0] && "call"@[0] != "ping"@[0]
        && "call"@[0] != "echo"@[0]);
    assert("call"@ != "quit"@ && "call"@ != "exit"@ && "call"@ != "ping"@ && "call"@ != "echo"@);
    lemma_first_word_shape(rest);
    lemma_subrange_is_piece(rest, 0, 0);
    if let ReplCommand::Call(m, a) = c {
        assert(m@ == first_word(rest));
        match after_first_word(rest) {
            Some(r) => assert(a@ == r),
            None => assert(a@ == Seq::<char>::empty()),
        }
    }
}

/// The argument text of a command read from a line is a piece of the
/// line exactly as typed, with no whitespace at either end; for `call`
/// the method name is a piece of the line as typed too, nonempty and
/// without whitespace. Only the command word is lowercased: an unknown
/// command is reported as the lowercase of the line's first word.
pub proof fn lemma_line_arguments_as_typed(c: ReplCommand, line: Seq<char>)
    requires
        is_command_of_line(c, line),
    ensures
        c matches ReplCommand::Echo(a) ==> is_piece(line, a@) && spec_trim(a@) == a@,
        c matches ReplCommand::Call(m, a) ==> {
            &&& is_piece(line, m@)
            &&& m@.len() > 0
            &&& forall|k: int| 0 <= k < m@.len() ==> !is_whitespace(#[trigger] m@[k])
            &&& is_piece(line, a@)
        },
        c matches ReplCommand::Unknown(w) ==> w@ == lowercase(first_word(spec_trim(line))),
{
    let t = spec_trim(line);
    lemma_trim_is_piece(line);
    lemma_first_word_shape(t);
    if t.len() > 0 {
        let rest = match after_first_word(t) {
            Some(r) => spec_trim(r),
            None => Seq::empty(),
        };
        match after_first_word(t) {
            Some(r) => {
                lemma_piece_of_piece(line, t, r);
                lemma_trim_is_piece(r);
                lemma_piece_of_piece(line, r, rest);
                crate::text::lemma_trim_idempotent(r);
            },
            None => {
                lemma_subrange_is_piece(line, 0, 0);
                assert(spec_trim(rest) =~= rest);
            },
        }
        assert(is_piece(line, rest));
        if let ReplCommand::Call(m, a) = c {
            lemma_first_word_shape(rest);
            lemma_subrange_is_piece(rest, 0, 0);
            assert(m@ == first_word(rest));
            lemma_piece_of_piece(line, rest, m@);
            match after_first_word(rest) {
                Some(r2) => {
                    lemma_piece_of_piece(line, rest, r2);
                },
                None => {
                    lemma_piece_of_piece(line, rest, Seq::empty());
                },
            }
        }
    }
}

/// Argument text that is the simplest JSON text of a value (`null`,
/// `true`, `false`, a string in quotes with no escapes, a short integer)
/// is sent as exactly that one value: the same boolean, a string with
/// the same text, a number for a number.
pub proof fn lemma_literal_args_kept(s: Seq<char>, params: Seq<JsonValue>, v: JsonValue)
    requires
        is_args_of(s, params),
        is_simple_json_text(s, v),
    ensures
        params.len() == 1,
        v is Null ==> params[0] is Null,
        v matches JsonValue::Bool(b) ==> params[0] == JsonValue::Bool(b),
        v matches JsonValue::String(x) ==> (params[0] matches JsonValue::String(y) && y@ == x@),
        v is Number ==> params[0] is Number,
{
    assert(is_simple_json(s));
    lemma_simple_json_text_unique(s, v, params[0]);
}

/// On the command line, argument words whose trimmed text is the
/// simplest JSON text of a value send exactly that one value, and no
/// warning.
pub proof fn lemma_literal_command_line_kept(
    joined: Seq<char>,
    params: Seq<JsonValue>,
    unusable: bool,
    v: JsonValue,
)
    requires
        is_command_line_params_of(joined, params, unusable),
        is_simple_json_text(spec_trim(joined), v),
    ensures
        params.len() == 1,
        !unusable,
        v is Null ==> params[0] is Null,
        v matches JsonValue::Bool(b) ==> params[0] == JsonValue::Bool(b),
        v matches JsonValue::String(x) ==> (params[0] matches JsonValue::String(y) && y@ == x@),
        v is Number ==> params[0] is Number,
{
    assert(is_simple_json(spec_trim(joined)));
    lemma_simple_json_text_unique(spec_trim(joined), v, params[0]);
}

} // verus!
