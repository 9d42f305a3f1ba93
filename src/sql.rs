use vstd::prelude::*;

verus! {

/// The body of an SQL string literal for `s`: every single quote doubled.
pub open spec fn quoted(s: Seq<char>) -> Seq<char>
    decreases s.len(),
{
    if s.len() == 0 {
        seq![]
    } else {
        let head = if s[0] == '\'' { seq!['\'', '\''] } else { seq![s[0]] };
        head + quoted(s.drop_first())
    }
}

proof fn lemma_quoted_push(s: Seq<char>, c: char)
    ensures
        quoted(s.push(c)) == quoted(s) + (if c == '\'' { seq!['\'', '\''] } else { seq![c] }),
    decreases s.len(),
{
    if s.len() == 0 {
        assert(s.push(c).drop_first() =~= seq![]);
        assert(quoted(seq![]) == Seq::<char>::empty());
    } else {
        assert(s.push(c).drop_first() =~= s.drop_first().push(c));
        lemma_quoted_push(s.drop_first(), c);
    }
}

/// The statement that turns on foreign-key enforcement, which the storage
/// engine leaves off on every new connection.
pub fn foreign_keys_on() -> (r: String)
    ensures
        r@ == "PRAGMA foreign_keys = ON"@,
{
    String::from_str("PRAGMA foreign_keys = ON")
}

/// The statement text that writes a consistent snapshot of the main database
/// into the file `path`.
pub open spec fn vacuum_into_text(path: Seq<char>) -> Seq<char> {
    "VACUUM main INTO '"@ + quoted(path) + "'"@
}

/// Builds the statement that snapshots the working database into `path`
/// through the engine's online `VACUUM INTO`, never by copying the file.
pub fn vacuum_into(path: &String) -> (r: String)
    ensures
        r@ == vacuum_into_text(path@),
{
    let p = path.as_str();
    let n = p.unicode_len();
    let mut body = String::new();
    let mut i: usize = 0;
    while i < n
        invariant
            n == p@.len(),
            p@ == path@,
            i <= n,
            body@ == quoted(p@.subrange(0, i as int)),
        decreases n - i,
    {
        let c = p.get_char(i);
        proof {
            lemma_quoted_push(p@.subrange(0, i as int), c);
            assert(p@.subrange(0, i as int).push(c) =~= p@.subrange(0, i + 1));
        }
        if c == '\'' {
            body.append("''");
        } else {
            let one = p.substring_char(i, i + 1);
            assert(one@ =~= seq![c]);
            body.append(one);
        }
        proof {
            reveal_strlit("''");
        }
        i = i + 1;
    }
    assert(p@.subrange(0, n as int) =~= p@);
    let mut r = String::from_str("VACUUM main INTO '");
    r.append(body.as_str());
    r.append("'");
    r
}

} // verus!
