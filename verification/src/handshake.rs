//! Handshake file codec.
//!
//! The service advertises its runtime address and process identifier
//! by writing a small key-value file at startup.  The file holds two
//! newline-separated entries, `url=<value>` and `pid=<value>`, in
//! either order and possibly among extra lines.  The supervisor parses
//! that text here; reading and deleting the file itself is filesystem
//! work done by the surrounding application.

use crate::digits::{
    dec_spec, is_digit, lemma_dec_all_digits, lemma_dec_val, parse_u32, parse_u32_spec,
};
use crate::errors::SupervisorError;
use vstd::prelude::*;

verus! {

/// What the handshake file advertises: the service's address and its
/// process identifier.
#[derive(Clone, Debug)]
pub struct ServiceInfo {
    pub url: String,
    pub pid: u32,
}

/// The index of the first line break in `s`, or `s.len()` if there is
/// none.
pub open spec fn line_break(s: Seq<char>) -> nat
    decreases s.len(),
{
    if s.len() == 0 {
        0
    } else if s[0] == '\n' {
        0
    } else {
        1 + line_break(s.drop_first())
    }
}

/// `s` split at every line break, as `str::split` does: a trailing
/// break yields a final empty line.
pub open spec fn split_lines_spec(s: Seq<char>) -> Seq<Seq<char>>
    decreases s.len(),
{
    let i = line_break(s);
    if i >= s.len() {
        seq![s]
    } else {
        seq![s.subrange(0, i as int)] + split_lines_spec(s.subrange(i as int + 1, s.len() as int))
    }
}

/// The value of the first line of `lines` that starts with `prefix`:
/// the rest of that line after the prefix.
pub open spec fn first_value_for(lines: Seq<Seq<char>>, prefix: Seq<char>) -> Option<Seq<char>>
    decreases lines.len(),
{
    if lines.len() == 0 {
        None
    } else if prefix.is_prefix_of(lines[0]) {
        Some(lines[0].subrange(prefix.len() as int, lines[0].len() as int))
    } else {
        first_value_for(lines.drop_first(), prefix)
    }
}

/// The key prefix of the address entry.
pub open spec fn url_key() -> Seq<char> {
    seq!['u', 'r', 'l', '=']
}

/// The key prefix of the process-identifier entry.
pub open spec fn pid_key() -> Seq<char> {
    seq!['p', 'i', 'd', '=']
}

/// The advertised address, if the content has a `url=` entry.
pub open spec fn handshake_url(s: Seq<char>) -> Option<Seq<char>> {
    first_value_for(split_lines_spec(s), url_key())
}

/// The advertised process identifier, if the content has a `pid=`
/// entry whose value is a decimal `u32`.
pub open spec fn handshake_pid(s: Seq<char>) -> Option<u32> {
    match first_value_for(split_lines_spec(s), pid_key()) {
        Some(v) => parse_u32_spec(v),
        None => None,
    }
}

/// Whether handshake content is well-formed: both entries present and
/// the identifier numeric.
pub open spec fn handshake_ok(s: Seq<char>) -> bool {
    handshake_url(s) is Some && handshake_pid(s) is Some
}

/// `line_break` is the index of the first `'\n'`: nothing before `i`
/// is a line break, and `i` is either a line break or the end.
proof fn lemma_line_break_at(s: Seq<char>, i: nat)
    requires
        i <= s.len(),
        forall|j: int| 0 <= j < i ==> s[j] != '\n',
        i < s.len() ==> s[i as int] == '\n',
    ensures
        line_break(s) == i,
    decreases s.len(),
{
    if i == 0 {
    } else {
        lemma_line_break_at(s.drop_first(), (i - 1) as nat);
    }
}

fn find_line_break(s: &str) -> (i: usize)
    ensures
        i == line_break(s@),
        i <= s@.len(),
{
    let n = s.unicode_len();
    let mut i: usize = 0;
    while i < n
        invariant
            0 <= i <= n == s@.len(),
            forall|j: int| 0 <= j < i ==> s@[j] != '\n',
        decreases n - i,
    {
        if s.get_char(i) == '\n' {
            proof {
                lemma_line_break_at(s@, i as nat);
            }
            return i;
        }
        i += 1;
    }
    proof {
        lemma_line_break_at(s@, n as nat);
    }
    i
}

/// Splits `s` at every line break.
fn split_lines(s: &str) -> (lines: Vec<String>)
    ensures
        lines@.map_values(|l: String| l@) == split_lines_spec(s@),
    decreases s@.len(),
{
    let n = s.unicode_len();
    let i = find_line_break(s);
    if i == n {
        let mut lines: Vec<String> = Vec::new();
        lines.push(String::from_str(s));
        proof {
            assert(lines@.map_values(|l: String| l@) =~= seq![s@]);
        }
        lines
    } else {
        let head = s.substring_char(0, i);
        let tail = s.substring_char(i + 1, n);
        let mut lines = split_lines(tail);
        lines.insert(0, String::from_str(head));
        proof {
            assert(lines@.map_values(|l: String| l@) =~= seq![s@.subrange(0, i as int)]
                + split_lines_spec(s@.subrange(i + 1, s@.len() as int)));
        }
        lines
    }
}

fn str_has_prefix(s: &str, prefix: &str) -> (b: bool)
    ensures
        b == prefix@.is_prefix_of(s@),
{
    let np = prefix.unicode_len();
    let ns = s.unicode_len();
    if np > ns {
        return false;
    }
    let mut i: usize = 0;
    while i < np
        invariant
            0 <= i <= np == prefix@.len(),
            np <= ns == s@.len(),
            forall|j: int| 0 <= j < i ==> prefix@[j] == s@[j],
        decreases np - i,
    {
        if s.get_char(i) != prefix.get_char(i) {
            proof {
                if prefix@.is_prefix_of(s@) {
                    assert(prefix@[i as int] == s@.subrange(0, np as int)[i as int]);
                }
            }
            return false;
        }
        i += 1;
    }
    proof {
        assert(prefix@ =~= s@.subrange(0, np as int));
    }
    true
}

/// If no line before `k` starts with `prefix`, the lookup is decided
/// by the lines from `k` on.
proof fn lemma_first_value_skip(lines: Seq<Seq<char>>, prefix: Seq<char>, k: int)
    requires
        0 <= k <= lines.len(),
        forall|j: int| 0 <= j < k ==> !prefix.is_prefix_of(#[trigger] lines[j]),
    ensures
        first_value_for(lines, prefix) == first_value_for(lines.skip(k), prefix),
    decreases k,
{
    if k == 0 {
        assert(lines.skip(0) =~= lines);
    } else {
        assert(lines.skip(1) =~= lines.drop_first());
        lemma_first_value_skip(lines.drop_first(), prefix, k - 1);
        assert(lines.drop_first().skip(k - 1) =~= lines.skip(k));
    }
}

fn find_value(lines: &Vec<String>, prefix: &str) -> (r: Option<String>)
    ensures
        match r {
            Some(v) => first_value_for(lines@.map_values(|l: String| l@), prefix@) == Some(v@),
            None => first_value_for(lines@.map_values(|l: String| l@), prefix@) is None,
        },
{
    let ghost lseq = lines@.map_values(|l: String| l@);
    let np = prefix.unicode_len();
    let n = lines.len();
    let mut k: usize = 0;
    while k < n
        invariant
            0 <= k <= n == lines@.len(),
            np == prefix@.len(),
            lseq == lines@.map_values(|l: String| l@),
            forall|j: int| 0 <= j < k ==> !prefix@.is_prefix_of(#[trigger] lseq[j]),
        decreases n - k,
    {
        let line = &lines[k];
        if str_has_prefix(line.as_str(), prefix) {
            let nl = line.as_str().unicode_len();
            let value = line.as_str().substring_char(np, nl);
            proof {
                lemma_first_value_skip(lseq, prefix@, k as int);
                assert(lseq.skip(k as int)[0] == lseq[k as int]);
                assert(lseq.skip(k as int).len() > 0);
            }
            return Some(String::from_str(value));
        }
        k += 1;
    }
    proof {
        lemma_first_value_skip(lseq, prefix@, n as int);
        assert(lseq.skip(n as int) =~= Seq::<Seq<char>>::empty());
    }
    None
}

/// Parses handshake file content.  Succeeds exactly on well-formed
/// content, returning the advertised address and identifier; fails
/// with `MalformedContent` when either entry is missing or the
/// identifier is not a decimal `u32`.
pub fn parse_handshake(content: &str) -> (r: Result<ServiceInfo, SupervisorError>)
    ensures
        match r {
            Ok(info) => handshake_ok(content@) && Some(info.url@) == handshake_url(content@)
                && Some(info.pid) == handshake_pid(content@),
            Err(e) => e == SupervisorError::MalformedContent && !handshake_ok(content@),
        },
{
    let lines = split_lines(content);
    let url = match find_value(&lines, "url=") {
        Some(u) => u,
        None => {
            proof {
                reveal_strlit("url=");
                assert("url="@ =~= url_key());
            }
            return Err(SupervisorError::MalformedContent);
        },
    };
    let pid_text = match find_value(&lines, "pid=") {
        Some(p) => p,
        None => {
            proof {
                reveal_strlit("pid=");
                assert("pid="@ =~= pid_key());
            }
            return Err(SupervisorError::MalformedContent);
        },
    };
    proof {
        reveal_strlit("url=");
        reveal_strlit("pid=");
        assert("url="@ =~= url_key());
        assert("pid="@ =~= pid_key());
    }
    match parse_u32(pid_text.as_str()) {
        Some(pid) => Ok(ServiceInfo { url, pid }),
        None => Err(SupervisorError::MalformedContent),
    }
}

/// Handshake content advertising `url` and `pid`, with the two
/// entries in either order.
pub open spec fn render_handshake(url: Seq<char>, pid: u32, url_first: bool) -> Seq<char> {
    let url_line = url_key() + url;
    let pid_line = pid_key() + dec_spec(pid as nat);
    if url_first {
        url_line + seq!['\n'] + pid_line
    } else {
        pid_line + seq!['\n'] + url_line
    }
}

proof fn lemma_split_two_lines(a: Seq<char>, b: Seq<char>)
    requires
        forall|i: int| 0 <= i < a.len() ==> a[i] != '\n',
        forall|i: int| 0 <= i < b.len() ==> b[i] != '\n',
    ensures
        split_lines_spec(a + seq!['\n'] + b) == seq![a, b],
{
    let s = a + seq!['\n'] + b;
    assert forall|j: int| 0 <= j < a.len() implies s[j] != '\n' by {
        assert(s[j] == a[j]);
    }
    assert(s[a.len() as int] == '\n');
    lemma_line_break_at(s, a.len());
    assert(s.subrange(0, a.len() as int) =~= a);
    assert(s.subrange(a.len() as int + 1, s.len() as int) =~= b);
    lemma_line_break_at(b, b.len());
    assert(split_lines_spec(b) =~= seq![b]);
    assert(split_lines_spec(s) =~~= seq![a, b]);
}

proof fn lemma_key_not_prefix(key: Seq<char>, line: Seq<char>)
    requires
        key.len() >= 1,
        line.len() >= 1,
        key[0] != line[0],
    ensures
        !key.is_prefix_of(line),
{
    if key.is_prefix_of(line) {
        assert(key[0] == line.subrange(0, key.len() as int)[0]);
    }
}

/// Round trip: parsing handshake content that advertises `url` and
/// `pid`, with the entries in either order, recovers exactly that
/// address and identifier.  The address may be any text without a
/// line break.
pub proof fn lemma_handshake_round_trip(url: Seq<char>, pid: u32, url_first: bool)
    requires
        forall|i: int| 0 <= i < url.len() ==> url[i] != '\n',
    ensures
        handshake_url(render_handshake(url, pid, url_first)) == Some(url),
        handshake_pid(render_handshake(url, pid, url_first)) == Some(pid),
        handshake_ok(render_handshake(url, pid, url_first)),
{
    let url_line = url_key() + url;
    let pid_line = pid_key() + dec_spec(pid as nat);
    lemma_dec_all_digits(pid as nat);
    lemma_dec_val(pid as nat);
    assert forall|i: int| 0 <= i < url_line.len() implies url_line[i] != '\n' by {
        if i < 4 {
            assert(url_line[i] == url_key()[i]);
        } else {
            assert(url_line[i] == url[i - 4]);
        }
    }
    assert forall|i: int| 0 <= i < pid_line.len() implies pid_line[i] != '\n' by {
        if i < 4 {
            assert(pid_line[i] == pid_key()[i]);
        } else {
            assert(pid_line[i] == dec_spec(pid as nat)[i - 4]);
            assert(is_digit(dec_spec(pid as nat)[i - 4]));
        }
    }
    assert(url_key().is_prefix_of(url_line)) by {
        assert(url_key() =~= url_line.subrange(0, 4));
    }
    assert(pid_key().is_prefix_of(pid_line)) by {
        assert(pid_key() =~= pid_line.subrange(0, 4));
    }
    assert(url_line.subrange(4, url_line.len() as int) =~= url);
    assert(pid_line.subrange(4, pid_line.len() as int) =~= dec_spec(pid as nat));
    let s = render_handshake(url, pid, url_first);
    if url_first {
        lemma_split_two_lines(url_line, pid_line);
        let lines = split_lines_spec(s);
        assert(lines == seq![url_line, pid_line]);
        assert(first_value_for(lines, url_key()) == Some(url));
        lemma_key_not_prefix(pid_key(), url_line);
        assert(lines.drop_first() =~~= seq![pid_line]);
        assert(first_value_for(seq![pid_line], pid_key()) == Some(dec_spec(pid as nat)));
        assert(first_value_for(lines, pid_key()) == Some(dec_spec(pid as nat)));
    } else {
        lemma_split_two_lines(pid_line, url_line);
        let lines = split_lines_spec(s);
        assert(lines == seq![pid_line, url_line]);
        assert(first_value_for(lines, pid_key()) == Some(dec_spec(pid as nat)));
        lemma_key_not_prefix(url_key(), pid_line);
        assert(lines.drop_first() =~~= seq![url_line]);
        assert(first_value_for(seq![url_line], url_key()) == Some(url));
        assert(first_value_for(lines, url_key()) == Some(url));
    }
    assert(parse_u32_spec(dec_spec(pid as nat)) == Some(pid));
}

} // verus!
