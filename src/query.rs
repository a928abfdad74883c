//! Construction of the paginated repository-list query and of the request
//! body that carries it.
use vstd::prelude::*;
use crate::text::{chars_of, push_char, push_decimal, push_text, decimal};

verus! {

/// The escaped form of one character inside a quoted query string: quote
/// and backslash get a backslash, line breaks and tabs their short escapes,
/// every other character stands for itself.
pub open spec fn escape_char(c: char) -> Seq<char> {
    if c == '"' {
        seq!['\\', '"']
    } else if c == '\\' {
        seq!['\\', '\\']
    } else if c == '\n' {
        seq!['\\', 'n']
    } else if c == '\r' {
        seq!['\\', 'r']
    } else if c == '\t' {
        seq!['\\', 't']
    } else {
        seq![c]
    }
}

/// The escaped form of a whole string: each character escaped in turn.
pub open spec fn escaped(s: Seq<char>) -> Seq<char>
    decreases s.len(),
{
    if s.len() == 0 {
        Seq::empty()
    } else {
        escaped(s.drop_last()) + escape_char(s.last())
    }
}

/// Appends the escaped form of `t`.
pub(crate) fn push_escaped(s: &mut String, t: &str)
    ensures
        final(s)@ == old(s)@ + escaped(t@),
{
    let cs = chars_of(t);
    let mut i: usize = 0;
    while i < cs.len()
        invariant
            cs@ == t@,
            i <= cs@.len(),
            s@ == old(s)@ + escaped(cs@.subrange(0, i as int)),
        decreases cs@.len() - i,
    {
        let c = cs[i];
        proof {
            assert(cs@.subrange(0, i + 1).drop_last() =~= cs@.subrange(0, i as int));
        }
        if c == '"' {
            push_char(s, '\\');
            push_char(s, '"');
        } else if c == '\\' {
            push_char(s, '\\');
            push_char(s, '\\');
        } else if c == '\n' {
            push_char(s, '\\');
            push_char(s, 'n');
        } else if c == '\r' {
            push_char(s, '\\');
            push_char(s, 'r');
        } else if c == '\t' {
            push_char(s, '\\');
            push_char(s, 't');
        } else {
            push_char(s, c);
        }
        i = i + 1;
        assert(s@ =~= old(s)@ + escaped(cs@.subrange(0, i as int)));
    }
    assert(cs@.subrange(0, cs@.len() as int) =~= t@);
}

/// The text before the login.
pub open spec fn query_head() -> Seq<char> {
    "{ user(login: \""@
}

/// The text between the login and the page size.
pub open spec fn query_first() -> Seq<char> {
    "\") { repositories(first: "@
}

/// The text that opens the continuation cursor.
pub open spec fn query_after() -> Seq<char> {
    ", after: \""@
}

/// The text that closes the continuation cursor.
pub open spec fn query_after_end() -> Seq<char> {
    "\""@
}

/// The text after the pagination arguments: the selected fields.
pub open spec fn query_tail() -> Seq<char> {
    ") { totalCount nodes { name visibility description } pageInfo { hasNextPage endCursor } } } }"@
}

/// The pagination arguments after the page size: nothing on the first page,
/// else the escaped cursor to resume after.
pub open spec fn after_part(cursor: Option<Seq<char>>) -> Seq<char> {
    match cursor {
        Some(c) => query_after() + escaped(c) + query_after_end(),
        None => Seq::empty(),
    }
}

/// The list query for `login`, asking for the first `page_size` repositories
/// after `cursor` (from the start when there is none).
pub open spec fn list_query(login: Seq<char>, page_size: nat, cursor: Option<Seq<char>>) -> Seq<char> {
    query_head() + escaped(login) + query_first() + decimal(page_size) + after_part(cursor)
        + query_tail()
}

/// The view of an optional string.
pub open spec fn opt_view(o: Option<&str>) -> Option<Seq<char>> {
    match o {
        Some(s) => Some(s@),
        None => None,
    }
}

/// Builds the list query for one page. Login and cursor are escaped, so
/// neither can end the quoted string they stand in.
pub fn build_list_query(login: &str, page_size: u32, cursor: Option<&str>) -> (r: String)
    ensures
        r@ == list_query(login@, page_size as nat, opt_view(cursor)),
{
    let mut q = String::new();
    push_text(&mut q, "{ user(login: \"");
    push_escaped(&mut q, login);
    push_text(&mut q, "\") { repositories(first: ");
    push_decimal(&mut q, page_size);
    match cursor {
        Some(c) => {
            push_text(&mut q, ", after: \"");
            push_escaped(&mut q, c);
            push_text(&mut q, "\"");
        },
        None => {},
    }
    push_text(
        &mut q,
        ") { totalCount nodes { name visibility description } pageInfo { hasNextPage endCursor } } } }",
    );
    assert(q@ =~= list_query(login@, page_size as nat, opt_view(cursor)));
    q
}

#[verifier::external_type_specification]
#[verifier::external_body]
pub struct ExJsonError(serde_json::Error);

/// A lowercase hexadecimal digit.
pub open spec fn hex_digit(n: nat) -> char {
    seq!['0', '1', '2', '3', '4', '5', '6', '7', '8', '9', 'a', 'b', 'c', 'd', 'e', 'f'][n as int]
}

/// How one character is written inside a JSON string: quote and backslash
/// get a backslash, backspace, tab, line feed, form feed and carriage return
/// their short escapes, the other control characters `\u00XX`, and every
/// other character stands for itself.
pub open spec fn json_escape_char(c: char) -> Seq<char> {
    if c == '"' {
        seq!['\\', '"']
    } else if c == '\\' {
        seq!['\\', '\\']
    } else if c == '\u{8}' {
        seq!['\\', 'b']
    } else if c == '\t' {
        seq!['\\', 't']
    } else if c == '\n' {
        seq!['\\', 'n']
    } else if c == '\u{c}' {
        seq!['\\', 'f']
    } else if c == '\r' {
        seq!['\\', 'r']
    } else if (c as u32) < 0x20 {
        seq!['\\', 'u', '0', '0', hex_digit((c as u32 / 16) as nat), hex_digit((c as u32 % 16) as nat)]
    } else {
        seq![c]
    }
}

/// The characters of a string, each written as inside a JSON string.
pub open spec fn json_escaped(s: Seq<char>) -> Seq<char>
    decreases s.len(),
{
    if s.len() == 0 {
        Seq::empty()
    } else {
        json_escaped(s.drop_last()) + json_escape_char(s.last())
    }
}

/// A string written as one JSON string literal.
pub open spec fn json_string_literal(s: Seq<char>) -> Seq<char> {
    seq!['"'] + json_escaped(s) + seq!['"']
}

/// Relies on `serde_json::to_string` on a string slice: the string written
/// as one JSON string literal with the compact formatter. Writing a string
/// into memory never fails.
#[verifier::external_body]
fn json_quote(s: &str) -> (r: Result<String, serde_json::Error>)
    ensures
        r is Ok,
        r matches Ok(v) ==> v@ == json_string_literal(s@),
{
    serde_json::to_string(s)
}

/// The request body that carries a query: a JSON object whose one member,
/// `query`, holds it.
pub open spec fn envelope_of(quoted_query: Seq<char>) -> Seq<char> {
    "{\"query\":"@ + quoted_query + "}"@
}

/// Wraps an already quoted JSON string literal into the request body.
pub fn envelope(quoted_query: &str) -> (r: String)
    ensures
        r@ == envelope_of(quoted_query@),
{
    let mut b = String::new();
    push_text(&mut b, "{\"query\":");
    push_text(&mut b, quoted_query);
    push_text(&mut b, "}");
    assert(b@ =~= envelope_of(quoted_query@));
    b
}

/// The JSON body of the list request for one page.
pub fn list_request_body(login: &str, page_size: u32, cursor: Option<&str>) -> (r: String)
    ensures
        r@ == envelope_of(json_string_literal(list_query(login@, page_size as nat, opt_view(cursor)))),
{
    let q = build_list_query(login, page_size, cursor);
    let quoted = match json_quote(q.as_str()) {
        Ok(v) => v,
        Err(_) => String::new(),
    };
    envelope(quoted.as_str())
}

} // verus!
