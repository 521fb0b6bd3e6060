//! Safe interpolation primitives: POSIX shell quoting and
//! terminal-automation (AppleScript) string escaping.
//!
//! Each escaper has an exact character-by-character specification, and
//! the shell quoter is proved to round-trip through a model of a
//! POSIX-shell tokenizer: the quoted form of any string is read back
//! as exactly that string, as a single word.

use vstd::prelude::*;
use crate::text::chars_of;
use crate::text::chars_to_string;

verus! {

/// How a single character appears inside the shell-quoted form: a
/// literal single quote becomes the five-character sequence that
/// closes the quote, inserts a double-quoted single quote, and
/// reopens the quote; every other character stands unchanged.
pub open spec fn shell_quoted_char(c: char) -> Seq<char> {
    if c == '\'' {
        seq!['\'', '"', '\'', '"', '\'']
    } else {
        seq![c]
    }
}

/// The body of the shell-quoted form of `s` (without the outer quotes).
pub open spec fn shell_quoted_body(s: Seq<char>) -> Seq<char>
    decreases s.len(),
{
    if s.len() == 0 {
        Seq::empty()
    } else {
        shell_quoted_char(s[0]) + shell_quoted_body(s.drop_first())
    }
}

/// The shell-quoted form of `s`: the escaped body wrapped in single quotes.
pub open spec fn shell_quoted(s: Seq<char>) -> Seq<char> {
    seq!['\''] + shell_quoted_body(s) + seq!['\'']
}

proof fn lemma_shell_body_push(s: Seq<char>, c: char)
    ensures
        shell_quoted_body(s.push(c)) == shell_quoted_body(s) + shell_quoted_char(c),
    decreases s.len(),
{
    if s.len() == 0 {
        assert(s.push(c)[0] == c);
        assert(s.push(c).drop_first() =~= Seq::<char>::empty());
        assert(shell_quoted_body(s.push(c)) == shell_quoted_char(c) + shell_quoted_body(
            Seq::<char>::empty(),
        ));
        assert(shell_quoted_char(c) + Seq::<char>::empty() =~= shell_quoted_char(c));
        assert(Seq::<char>::empty() + shell_quoted_char(c) =~= shell_quoted_char(c));
    } else {
        assert(s.push(c)[0] == s[0]);
        assert(s.push(c).drop_first() =~= s.drop_first().push(c));
        assert(shell_quoted_body(s.push(c)) == shell_quoted_char(s[0]) + shell_quoted_body(
            s.drop_first().push(c),
        ));
        assert(shell_quoted_body(s) == shell_quoted_char(s[0]) + shell_quoted_body(
            s.drop_first(),
        ));
        lemma_shell_body_push(s.drop_first(), c);
        assert(shell_quoted_char(s[0]) + (shell_quoted_body(s.drop_first()) + shell_quoted_char(
            c,
        )) =~= (shell_quoted_char(s[0]) + shell_quoted_body(s.drop_first())) + shell_quoted_char(
            c,
        ));
    }
}

/// Wraps `value` in single quotes, escaping any single quote inside it,
/// so that a POSIX shell reads the result as one literal word equal to
/// `value` (see `lemma_shell_quote_round_trip`).
pub fn shell_quote(value: &str) -> (r: String)
    ensures
        r@ == shell_quoted(value@),
{
    let v = chars_of(value);
    let n = v.len();
    let mut out: Vec<char> = Vec::new();
    out.push('\'');
    let mut i: usize = 0;
    while i < n
        invariant
            n == v@.len(),
            v@ == value@,
            i <= n,
            out@ == seq!['\''] + shell_quoted_body(v@.take(i as int)),
        decreases n - i,
    {
        let c = v[i];
        if c == '\'' {
            out.push('\'');
            out.push('"');
            out.push('\'');
            out.push('"');
            out.push('\'');
        } else {
            out.push(c);
        }
        proof {
            lemma_shell_body_push(v@.take(i as int), v@[i as int]);
            assert(v@.take(i + 1) =~= v@.take(i as int).push(v@[i as int]));
            assert(out@ =~= seq!['\''] + shell_quoted_body(v@.take(i + 1)));
        }
        i = i + 1;
    }
    out.push('\'');
    proof {
        assert(v@.take(n as int) =~= v@);
        assert(out@ =~= shell_quoted(value@));
    }
    chars_to_string(&out)
}

/// Whether a POSIX shell reads `c`, unquoted, as a literal character:
/// word separators, operators, quoting and expansion characters are
/// all excluded (a conservative set).
pub open spec fn sh_plain(c: char) -> bool {
    !(c == ' ' || c == '\t' || c == '\n' || c == '|' || c == '&' || c == ';' || c == '(' || c
        == ')' || c == '<' || c == '>' || c == '\'' || c == '"' || c == '\\' || c == '$' || c == '`'
        || c == '*' || c == '?' || c == '[' || c == '#' || c == '~' || c == '{' || c == '}' || c
        == '!')
}

/// A model of a POSIX-shell tokenizer reading all of `s` as one word,
/// starting outside any quotes: `Some(w)` means the shell accepts `s`
/// as the single literal word `w`; `None` means `s` is not one plain
/// word (it contains an unquoted metacharacter, an expansion, or an
/// unterminated quote).
pub open spec fn sh_word(s: Seq<char>) -> Option<Seq<char>>
    decreases s.len(),
{
    if s.len() == 0 {
        Some(Seq::empty())
    } else if s[0] == '\'' {
        sh_single(s.drop_first())
    } else if s[0] == '"' {
        sh_double(s.drop_first())
    } else if sh_plain(s[0]) {
        match sh_word(s.drop_first()) {
            Some(t) => Some(seq![s[0]] + t),
            None => None,
        }
    } else {
        None
    }
}

/// The tokenizer inside single quotes: every character is literal
/// until the closing single quote.
pub open spec fn sh_single(s: Seq<char>) -> Option<Seq<char>>
    decreases s.len(),
{
    if s.len() == 0 {
        None
    } else if s[0] == '\'' {
        sh_word(s.drop_first())
    } else {
        match sh_single(s.drop_first()) {
            Some(t) => Some(seq![s[0]] + t),
            None => None,
        }
    }
}

/// The tokenizer inside double quotes: characters are literal until
/// the closing double quote, except that `$`, backtick and backslash
/// would start an expansion or escape and are rejected outright.
pub open spec fn sh_double(s: Seq<char>) -> Option<Seq<char>>
    decreases s.len(),
{
    if s.len() == 0 {
        None
    } else if s[0] == '"' {
        sh_word(s.drop_first())
    } else if s[0] == '$' || s[0] == '`' || s[0] == '\\' {
        None
    } else {
        match sh_double(s.drop_first()) {
            Some(t) => Some(seq![s[0]] + t),
            None => None,
        }
    }
}

proof fn lemma_body_single(s: Seq<char>, rest: Seq<char>)
    ensures
        sh_single(shell_quoted_body(s) + seq!['\''] + rest) == match sh_word(rest) {
            Some(t) => Some(s + t),
            None => None::<Seq<char>>,
        },
    decreases s.len(),
{
    let input = shell_quoted_body(s) + seq!['\''] + rest;
    if s.len() == 0 {
        assert(input =~= seq!['\''] + rest);
        assert(input[0] == '\'');
        assert(input.drop_first() =~= rest);
        assert(sh_single(input) == sh_word(rest));
        match sh_word(rest) {
            Some(t) => {
                assert(s + t =~= t);
            },
            None => {},
        }
    } else {
        let c = s[0];
        let s1 = s.drop_first();
        let tail = shell_quoted_body(s1) + seq!['\''] + rest;
        lemma_body_single(s1, rest);
        if c != '\'' {
            assert(input =~= seq![c] + tail);
            assert(input[0] == c);
            assert(input.drop_first() =~= tail);
            assert(sh_single(input) == match sh_single(tail) {
                Some(t) => Some(seq![c] + t),
                None => None::<Seq<char>>,
            });
            match sh_word(rest) {
                Some(t) => {
                    assert(seq![c] + (s1 + t) =~= s + t);
                },
                None => {},
            }
        } else {
            assert(input =~= seq!['\'', '"', '\'', '"', '\''] + tail);
            let i1 = input.drop_first();
            let i2 = i1.drop_first();
            let i3 = i2.drop_first();
            let i4 = i3.drop_first();
            let i5 = i4.drop_first();
            assert(i1 =~= seq!['"', '\'', '"', '\''] + tail);
            assert(i2 =~= seq!['\'', '"', '\''] + tail);
            assert(i3 =~= seq!['"', '\''] + tail);
            assert(i4 =~= seq!['\''] + tail);
            assert(i5 =~= tail);
            assert(input[0] == '\'');
            assert(sh_single(input) == sh_word(i1));
            assert(i1[0] == '"');
            assert(sh_word(i1) == sh_double(i2));
            assert(i2[0] == '\'');
            assert(sh_double(i2) == match sh_double(i3) {
                Some(t) => Some(seq!['\''] + t),
                None => None::<Seq<char>>,
            });
            assert(i3[0] == '"');
            assert(sh_double(i3) == sh_word(i4));
            assert(i4[0] == '\'');
            assert(sh_word(i4) == sh_single(i5));
            match sh_word(rest) {
                Some(t) => {
                    assert(sh_single(tail) == Some(s1 + t));
                    assert(seq!['\''] + (s1 + t) =~= s + t);
                },
                None => {},
            }
        }
    }
}

/// Shell quoting is safe for any content: the quoted form of `s`,
/// read by a POSIX-shell tokenizer, is accepted as exactly one word
/// whose literal value is `s` — whatever quotes, dollar signs,
/// backticks, semicolons or newlines `s` contains.
pub proof fn lemma_shell_quote_round_trip(s: Seq<char>)
    ensures
        sh_word(shell_quoted(s)) == Some(s),
{
    let q = shell_quoted(s);
    assert(q[0] == '\'');
    assert(q.drop_first() =~= shell_quoted_body(s) + seq!['\''] + Seq::<char>::empty());
    lemma_body_single(s, Seq::<char>::empty());
    assert(sh_word(Seq::<char>::empty()) == Some(Seq::<char>::empty()));
    assert(s + Seq::<char>::empty() =~= s);
    assert(sh_word(q) == sh_single(q.drop_first()));
}

/// How a single character appears inside the automation-script string
/// literal: backslash and double quote are the two characters the
/// script language treats specially, and each is preceded by a
/// backslash; every other character stands unchanged.
pub open spec fn applescript_escaped_char(c: char) -> Seq<char> {
    if c == '\\' {
        seq!['\\', '\\']
    } else if c == '"' {
        seq!['\\', '"']
    } else {
        seq![c]
    }
}

/// The automation-script-escaped form of `s`.
pub open spec fn applescript_escaped(s: Seq<char>) -> Seq<char>
    decreases s.len(),
{
    if s.len() == 0 {
        Seq::empty()
    } else {
        applescript_escaped_char(s[0]) + applescript_escaped(s.drop_first())
    }
}

proof fn lemma_applescript_push(s: Seq<char>, c: char)
    ensures
        applescript_escaped(s.push(c)) == applescript_escaped(s) + applescript_escaped_char(c),
    decreases s.len(),
{
    if s.len() == 0 {
        assert(s.push(c)[0] == c);
        assert(s.push(c).drop_first() =~= Seq::<char>::empty());
        assert(applescript_escaped(s.push(c)) == applescript_escaped_char(c) + applescript_escaped(
            Seq::<char>::empty(),
        ));
        assert(applescript_escaped_char(c) + Seq::<char>::empty() =~= applescript_escaped_char(c));
        assert(Seq::<char>::empty() + applescript_escaped_char(c) =~= applescript_escaped_char(c));
    } else {
        assert(s.push(c)[0] == s[0]);
        assert(s.push(c).drop_first() =~= s.drop_first().push(c));
        assert(applescript_escaped(s.push(c)) == applescript_escaped_char(s[0])
            + applescript_escaped(s.drop_first().push(c)));
        assert(applescript_escaped(s) == applescript_escaped_char(s[0]) + applescript_escaped(
            s.drop_first(),
        ));
        lemma_applescript_push(s.drop_first(), c);
        assert(applescript_escaped_char(s[0]) + (applescript_escaped(s.drop_first())
            + applescript_escaped_char(c)) =~= (applescript_escaped_char(s[0])
            + applescript_escaped(s.drop_first())) + applescript_escaped_char(c));
    }
}

/// A model of the automation script's reader consuming a
/// double-quoted string literal, positioned just after the opening
/// quote: `Some((v, rest))` means the literal's value is `v` and
/// `rest` stands after the closing quote; `None` means the literal is
/// unterminated or uses an escape this model does not admit.
pub open spec fn as_read(s: Seq<char>) -> Option<(Seq<char>, Seq<char>)>
    decreases s.len(),
{
    if s.len() == 0 {
        None
    } else if s[0] == '"' {
        Some((Seq::empty(), s.drop_first()))
    } else if s[0] == '\\' {
        if s.len() >= 2 && (s[1] == '\\' || s[1] == '"') {
            match as_read(s.skip(2)) {
                Some((v, r)) => Some((seq![s[1]] + v, r)),
                None => None,
            }
        } else {
            None
        }
    } else {
        match as_read(s.drop_first()) {
            Some((v, r)) => Some((seq![s[0]] + v, r)),
            None => None,
        }
    }
}

/// Automation-script escaping is safe for any content: the escaped
/// form of `s`, followed by a closing quote and anything after it,
/// is read back as a string literal holding exactly `s` — no
/// character of `s` can close the literal early or start an escape
/// of its own.
pub proof fn lemma_applescript_escape_round_trip(s: Seq<char>, rest: Seq<char>)
    ensures
        as_read(applescript_escaped(s) + seq!['"'] + rest) == Some((s, rest)),
    decreases s.len(),
{
    let input = applescript_escaped(s) + seq!['"'] + rest;
    if s.len() == 0 {
        assert(input =~= seq!['"'] + rest);
        assert(input[0] == '"');
        assert(input.drop_first() =~= rest);
        assert(Seq::<char>::empty() =~= s);
    } else {
        let c = s[0];
        let s1 = s.drop_first();
        let tail = applescript_escaped(s1) + seq!['"'] + rest;
        lemma_applescript_escape_round_trip(s1, rest);
        if c == '\\' || c == '"' {
            assert(input =~= seq!['\\', c] + tail);
            assert(input[0] == '\\' && input[1] == c);
            assert(input.skip(2) =~= tail);
            assert(as_read(input) == match as_read(tail) {
                Some((v, r)) => Some((seq![c] + v, r)),
                None => None::<(Seq<char>, Seq<char>)>,
            });
            assert(seq![c] + s1 =~= s);
        } else {
            assert(input =~= seq![c] + tail);
            assert(input[0] == c);
            assert(input.drop_first() =~= tail);
            assert(as_read(input) == match as_read(tail) {
                Some((v, r)) => Some((seq![c] + v, r)),
                None => None::<(Seq<char>, Seq<char>)>,
            });
            assert(seq![c] + s1 =~= s);
        }
    }
}

/// Escapes `value` for embedding inside a double-quoted string literal
/// of the terminal-automation script: backslashes and double quotes
/// are each preceded by a backslash.
pub fn escape_applescript(value: &str) -> (r: String)
    ensures
        r@ == applescript_escaped(value@),
{
    let v = chars_of(value);
    let n = v.len();
    let mut out: Vec<char> = Vec::new();
    let mut i: usize = 0;
    while i < n
        invariant
            n == v@.len(),
            v@ == value@,
            i <= n,
            out@ == applescript_escaped(v@.take(i as int)),
        decreases n - i,
    {
        let c = v[i];
        if c == '\\' {
            out.push('\\');
            out.push('\\');
        } else if c == '"' {
            out.push('\\');
            out.push('"');
        } else {
            out.push(c);
        }
        proof {
            lemma_applescript_push(v@.take(i as int), v@[i as int]);
            assert(v@.take(i + 1) =~= v@.take(i as int).push(v@[i as int]));
            assert(out@ =~= applescript_escaped(v@.take(i + 1)));
        }
        i = i + 1;
    }
    proof {
        assert(v@.take(n as int) =~= v@);
    }
    chars_to_string(&out)
}

} // verus!
