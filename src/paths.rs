use crate::error::DatabaseError;
use vstd::prelude::*;

verus! {

/// What `std::str::from_utf8` makes of a byte sequence: the characters it
/// encodes when it is well-formed UTF-8, `None` when it is not.
pub uninterp spec fn utf8_text(b: Seq<u8>) -> Option<Seq<char>>;

/// Relies on `String::from_utf8`: it returns the decoded text exactly when
/// the bytes are well-formed UTF-8, and an error otherwise.
#[verifier::external_body]
fn decode_utf8(bytes: Vec<u8>) -> (r: Option<String>)
    ensures
        r matches Some(s) ==> utf8_text(bytes@) == Some(s@),
        r is None ==> utf8_text(bytes@) is None,
{
    String::from_utf8(bytes).ok()
}

/// Turns the bytes of a file-system path into text, or fails with
/// [`DatabaseError::CannotConvertPath`] when they are not UTF-8.
pub fn path_to_string(path: &Vec<u8>) -> (r: Result<String, DatabaseError>)
    ensures
        r matches Ok(s) ==> utf8_text(path@) == Some(s@),
        r is Err ==> utf8_text(path@) is None && r matches Err(DatabaseError::CannotConvertPath()),
{
    match decode_utf8(path.clone()) {
        Some(s) => Ok(s),
        None => Err(DatabaseError::CannotConvertPath()),
    }
}

/// The path of the entry `name` inside directory `dir`: a separator is put
/// between them unless `dir` is empty or already ends with one.
pub open spec fn joined(dir: Seq<char>, name: Seq<char>) -> Seq<char> {
    if dir.len() == 0 || dir.last() == '/' {
        dir + name
    } else {
        dir + seq!['/'] + name
    }
}

/// Joins a directory and the name of an entry in it.
pub fn join(dir: &String, name: &str) -> (r: String)
    ensures
        r@ == joined(dir@, name@),
{
    let d = dir.as_str();
    let n = d.unicode_len();
    let mut r = dir.clone();
    if n > 0 && d.get_char(n - 1) != '/' {
        r.append("/");
    }
    r.append(name);
    proof {
        reveal_strlit("/");
    }
    r
}

/// `path` with each separator `/` written as `__`, so that it can stand in
/// a single file name.
pub open spec fn flattened(path: Seq<char>) -> Seq<char>
    decreases path.len(),
{
    if path.len() == 0 {
        seq![]
    } else {
        let head = if path[0] == '/' { seq!['_', '_'] } else { seq![path[0]] };
        head + flattened(path.drop_first())
    }
}

proof fn lemma_flattened_push(path: Seq<char>, c: char)
    ensures
        flattened(path.push(c)) == flattened(path) + (if c == '/' { seq!['_', '_'] } else { seq![c] }),
    decreases path.len(),
{
    if path.len() == 0 {
        assert(path.push(c).drop_first() =~= seq![]);
        assert(flattened(seq![]) == Seq::<char>::empty());
    } else {
        assert(path.push(c).drop_first() =~= path.drop_first().push(c));
        lemma_flattened_push(path.drop_first(), c);
    }
}

/// The name of the file that keeps the command history of the store at
/// `path`: `history_`, the path flattened, then `.txt`.
pub fn history_file_name(path: &String) -> (r: String)
    ensures
        r@ == "history_"@ + flattened(path@) + ".txt"@,
{
    let p = path.as_str();
    let n = p.unicode_len();
    let mut body = String::new();
    let mut i: usize = 0;
    while i < n
        invariant
            n == p@.len(),
            p@ == path@,
            i <= n,
            body@ == flattened(p@.subrange(0, i as int)),
        decreases n - i,
    {
        let c = p.get_char(i);
        proof {
            lemma_flattened_push(p@.subrange(0, i as int), c);
            assert(p@.subrange(0, i as int).push(c) =~= p@.subrange(0, i + 1));
        }
        if c == '/' {
            body.append("__");
        } else {
            let one = p.substring_char(i, i + 1);
            assert(one@ =~= seq![c]);
            body.append(one);
        }
        proof {
            reveal_strlit("__");
        }
        i = i + 1;
    }
    assert(p@.subrange(0, n as int) =~= p@);
    let mut r = String::from_str("history_");
    r.append(body.as_str());
    r.append(".txt");
    r
}

} // verus!
