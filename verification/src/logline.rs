use vstd::prelude::*;
use crate::lookup::DirLookup;

verus! {

/// Characters that the quoted rendering protects with a leading backslash.
pub open spec fn needs_escape(c: char) -> bool {
    c == '\\' || c == '"'
}

/// How one character appears inside the quotes.
pub open spec fn escaped_char(c: char) -> Seq<char> {
    if needs_escape(c) {
        seq!['\\', c]
    } else {
        seq![c]
    }
}

/// How a whole text appears inside the quotes.
pub open spec fn escaped(s: Seq<char>) -> Seq<char>
    decreases s.len(),
{
    if s.len() == 0 {
        Seq::empty()
    } else {
        escaped_char(s[0]) + escaped(s.drop_first())
    }
}

/// The quoted rendering of a path: the text between double quotes, with
/// every backslash and double quote escaped by a backslash.
pub open spec fn quoted(s: Seq<char>) -> Seq<char> {
    seq!['"'] + escaped(s) + seq!['"']
}

proof fn lemma_escaped_push(s: Seq<char>, c: char)
    ensures
        escaped(s.push(c)) == escaped(s) + escaped_char(c),
    decreases s.len(),
{
    let t = s.push(c);
    if s.len() == 0 {
        assert(t[0] == c);
        assert(t.drop_first() =~= Seq::<char>::empty());
        assert(escaped(t.drop_first()) == Seq::<char>::empty());
        assert(escaped(t) == escaped_char(c) + escaped(t.drop_first()));
        assert(escaped(s) == Seq::<char>::empty());
        assert(escaped(t) =~= escaped(s) + escaped_char(c));
    } else {
        assert(t[0] == s[0]);
        assert(t.drop_first() =~= s.drop_first().push(c));
        lemma_escaped_push(s.drop_first(), c);
        assert(escaped(t) == escaped_char(s[0]) + escaped(t.drop_first()));
        assert(escaped(t.drop_first()) == escaped(s.drop_first()) + escaped_char(c));
        assert(escaped(s) == escaped_char(s[0]) + escaped(s.drop_first()));
        assert(escaped(t) =~= escaped(s) + escaped_char(c));
    }
}

/// Renders a path between double quotes, escaping backslashes and double
/// quotes, so that the quoted text stands out unambiguously in a log line.
pub fn quote_path(path: &str) -> (r: String)
    ensures
        r@ == quoted(path@),
{
    proof {
        reveal_strlit("\"");
        reveal_strlit("\\");
    }
    let n: usize = path.unicode_len();
    let mut out = String::new();
    out.append("\"");
    let mut i: usize = 0;
    while i < n
        invariant
            i <= n,
            n == path@.len(),
            out@ == seq!['"'] + escaped(path@.take(i as int)),
        decreases n - i,
    {
        proof {
            reveal_strlit("\"");
            reveal_strlit("\\");
        }
        let c = path.get_char(i);
        if c == '\\' || c == '"' {
            out.append("\\");
        }
        let piece = path.substring_char(i, i + 1);
        out.append(piece);
        proof {
            lemma_escaped_push(path@.take(i as int), path@[i as int]);
            assert(path@.take(i as int).push(path@[i as int]) =~= path@.take(i + 1 as int));
            assert(piece@ =~= seq![path@[i as int]]);
            assert(out@ =~= seq!['"'] + escaped(path@.take(i + 1 as int)));
        }
        i = i + 1;
    }
    out.append("\"");
    proof {
        assert(path@.take(n as int) =~= path@);
        assert(out@ =~= quoted(path@));
    }
    out
}

/// The fixed prefix of the startup log line.
pub open spec fn log_prefix() -> Seq<char> {
    "App data directory: "@
}

/// The one best-effort log line written at startup: the quoted
/// application-data directory after a fixed prefix. A failed lookup is
/// swallowed silently and produces no line at all.
pub fn startup_log_line(lookup: &DirLookup) -> (r: Option<String>)
    ensures
        (match lookup {
            DirLookup::Found(path) => r matches Some(line) && line@ == log_prefix() + quoted(path@),
            DirLookup::Failed(_) => r is None,
        }),
{
    match lookup {
        DirLookup::Found(path) => {
            let mut line = String::from_str("App data directory: ");
            let q = quote_path(path.as_str());
            line.append(q.as_str());
            Some(line)
        },
        DirLookup::Failed(_) => None,
    }
}

} // verus!
