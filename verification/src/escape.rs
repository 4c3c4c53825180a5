use vstd::prelude::*;

verus! {

/// The characters that a POSIX shell reads as themselves outside quotes:
/// ASCII letters and digits and `- _ = / , . +`.
pub open spec fn is_plain(c: char) -> bool {
    ||| ('a' <= c && c <= 'z')
    ||| ('A' <= c && c <= 'Z')
    ||| ('0' <= c && c <= '9')
    ||| c == '-'
    ||| c == '_'
    ||| c == '='
    ||| c == '/'
    ||| c == ','
    ||| c == '.'
    ||| c == '+'
}

/// Whether `s` is not empty and made of plain characters only, so that it
/// needs no quotes.
pub open spec fn is_bare(s: Seq<char>) -> bool {
    s.len() > 0 && forall|i: int| 0 <= i < s.len() ==> is_plain(#[trigger] s[i])
}

/// One character as it stands between single quotes: `'` and `!` close the
/// quotes, stand behind a backslash and open them again.
pub open spec fn quoted_char(c: char) -> Seq<char> {
    if c == '\'' || c == '!' {
        seq!['\'', '\\', c, '\'']
    } else {
        seq![c]
    }
}

/// The characters of `s`, each as it stands between single quotes.
pub open spec fn quoted_body(s: Seq<char>) -> Seq<char>
    decreases s.len(),
{
    if s.len() == 0 {
        Seq::empty()
    } else {
        quoted_body(s.drop_last()) + quoted_char(s.last())
    }
}

/// `s` as one word of a POSIX shell command line: itself where it is bare,
/// else between single quotes.
pub open spec fn shell_quoted(s: Seq<char>) -> Seq<char> {
    if is_bare(s) {
        s
    } else {
        seq!['\''] + quoted_body(s) + seq!['\'']
    }
}

/// `shell_escape::unix::escape`: hands a bare string back as it is, and puts
/// any other between single quotes, with each `'` and `!` of it written as
/// `'\''` and `'\!'`. The result depends on the string alone.
#[verifier::external_body]
pub(crate) fn shell_quote(s: &str) -> (out: String)
    ensures
        out@ == shell_quoted(s@),
{
    shell_escape::unix::escape(std::borrow::Cow::Borrowed(s)).into_owned()
}

} // verus!
