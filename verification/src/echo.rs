//! Text assembly for the development-only introspection endpoint, which
//! echoes a request's method, URI, headers and body as plain text.

use vstd::prelude::*;
use vstd::string::StringExecFns;

verus! {

/// One echoed header line: `name: value`.
pub open spec fn spec_header_line(name: Seq<char>, value: Seq<char>) -> Seq<char> {
    name + ": "@ + value
}

/// A list of strings as a sequence of character strings.
pub open spec fn lines_view(s: Seq<String>) -> Seq<Seq<char>> {
    s.map_values(|x: String| x@)
}

/// The lines joined with a newline between each pair.
pub open spec fn joined_lines(lines: Seq<Seq<char>>) -> Seq<char>
    decreases lines.len(),
{
    if lines.len() == 0 {
        Seq::empty()
    } else if lines.len() == 1 {
        lines[0]
    } else {
        joined_lines(lines.drop_last()) + "\n"@ + lines.last()
    }
}

/// The whole echoed text.
pub open spec fn spec_dev_echo(
    method: Seq<char>,
    uri: Seq<char>,
    lines: Seq<Seq<char>>,
    body: Seq<char>,
) -> Seq<char> {
    "Method: "@ + method + "\nURI: "@ + uri + "\nHeaders:\n"@ + joined_lines(lines) + "\nBody:\n"@
        + body
}

/// Builds one echoed header line.
pub fn header_line(name: &str, value: &str) -> (r: String)
    ensures
        r@ == spec_header_line(name@, value@),
{
    let mut r = name.to_owned();
    r.append(": ");
    r.append(value);
    r
}

/// Joins the lines with newlines.
pub fn join_lines(lines: &Vec<String>) -> (r: String)
    ensures
        r@ == joined_lines(lines_view(lines@)),
{
    let mut r = String::from_str("");
    proof {
        reveal_strlit("");
        assert(lines_view(lines@.take(0)) =~= Seq::<Seq<char>>::empty());
    }
    let n = lines.len();
    for i in 0..n
        invariant
            n == lines.len(),
            r@ == joined_lines(lines_view(lines@.take(i as int))),
    {
        if i > 0 {
            r.append("\n");
        }
        r.append(lines[i].as_str());
        proof {
            let pre = lines_view(lines@.take(i as int));
            let cur = lines_view(lines@.take(i + 1));
            assert(cur =~= pre.push(lines@[i as int]@));
            assert(cur.drop_last() =~= pre);
            if i == 0 {
                assert(r@ =~= joined_lines(cur));
            } else {
                assert(joined_lines(cur) == joined_lines(pre) + "\n"@ + lines@[i as int]@);
            }
        }
    }
    proof {
        assert(lines_view(lines@.take(n as int)) =~= lines_view(lines@));
    }
    r
}

/// Builds the echoed text from the request's parts.
pub fn dev_echo(method: &str, uri: &str, header_lines: &Vec<String>, body: &str) -> (r: String)
    ensures
        r@ == spec_dev_echo(method@, uri@, lines_view(header_lines@), body@),
{
    let mut r = String::from_str("Method: ");
    r.append(method);
    r.append("\nURI: ");
    r.append(uri);
    r.append("\nHeaders:\n");
    let joined = join_lines(header_lines);
    r.append(joined.as_str());
    r.append("\nBody:\n");
    r.append(body);
    assert(r@ =~= spec_dev_echo(method@, uri@, lines_view(header_lines@), body@));
    r
}

} // verus!
