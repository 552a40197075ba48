//! Classification of received textual units under the event-stream framing
//! convention: data frames, comment/keep-alive frames, and anomalous frames.

use vstd::prelude::*;

verus! {

/// The Unicode `White_Space` code points, the set that `str::trim` strips.
pub open spec fn is_ws_char(c: char) -> bool {
    c == ' ' || c == '\t' || c == '\n' || c == '\r' || c == '\u{b}' || c == '\u{c}'
        || c == '\u{85}' || c == '\u{a0}' || c == '\u{1680}' || c == '\u{2000}'
        || c == '\u{2001}' || c == '\u{2002}' || c == '\u{2003}' || c == '\u{2004}'
        || c == '\u{2005}' || c == '\u{2006}' || c == '\u{2007}' || c == '\u{2008}'
        || c == '\u{2009}' || c == '\u{200a}' || c == '\u{2028}' || c == '\u{2029}'
        || c == '\u{202f}' || c == '\u{205f}' || c == '\u{3000}'
}

fn is_ws(c: char) -> (r: bool)
    ensures
        r == is_ws_char(c),
{
    c == ' ' || c == '\t' || c == '\n' || c == '\r' || c == '\u{b}' || c == '\u{c}'
        || c == '\u{85}' || c == '\u{a0}' || c == '\u{1680}' || c == '\u{2000}'
        || c == '\u{2001}' || c == '\u{2002}' || c == '\u{2003}' || c == '\u{2004}'
        || c == '\u{2005}' || c == '\u{2006}' || c == '\u{2007}' || c == '\u{2008}'
        || c == '\u{2009}' || c == '\u{200a}' || c == '\u{2028}' || c == '\u{2029}'
        || c == '\u{202f}' || c == '\u{205f}' || c == '\u{3000}'
}

/// A textual unit with its leading whitespace removed.
pub open spec fn trim_start_spec(s: Seq<char>) -> Seq<char>
    decreases s.len(),
{
    if s.len() == 0 {
        s
    } else if is_ws_char(s[0]) {
        trim_start_spec(s.subrange(1, s.len() as int))
    } else {
        s
    }
}

/// A textual unit with its trailing whitespace removed.
pub open spec fn trim_end_spec(s: Seq<char>) -> Seq<char>
    decreases s.len(),
{
    if s.len() == 0 {
        s
    } else if is_ws_char(s[s.len() - 1]) {
        trim_end_spec(s.subrange(0, s.len() - 1))
    } else {
        s
    }
}

/// A textual unit with surrounding whitespace removed, as `str::trim` leaves it.
pub open spec fn trim_spec(s: Seq<char>) -> Seq<char> {
    trim_end_spec(trim_start_spec(s))
}

proof fn lemma_trim_start_at(s: Seq<char>, i: int)
    requires
        0 <= i <= s.len(),
        forall|k: int| 0 <= k < i ==> is_ws_char(s[k]),
        i < s.len() ==> !is_ws_char(s[i]),
    ensures
        trim_start_spec(s) == s.subrange(i, s.len() as int),
    decreases i,
{
    if i == 0 {
        assert(s.subrange(0, s.len() as int) =~= s);
    } else {
        let t = s.subrange(1, s.len() as int);
        lemma_trim_start_at(t, i - 1);
        assert(t.subrange(i - 1, t.len() as int) =~= s.subrange(i, s.len() as int));
    }
}

proof fn lemma_trim_end_at(s: Seq<char>, j: int)
    requires
        0 <= j <= s.len(),
        forall|k: int| j <= k < s.len() ==> is_ws_char(s[k]),
        j > 0 ==> !is_ws_char(s[j - 1]),
    ensures
        trim_end_spec(s) == s.subrange(0, j),
    decreases s.len(),
{
    if j == s.len() {
        assert(s.subrange(0, s.len() as int) =~= s);
    } else {
        let t = s.subrange(0, s.len() - 1);
        lemma_trim_end_at(t, j);
        assert(t.subrange(0, j) =~= s.subrange(0, j));
    }
}

/// Copies the characters of `v` between `a` (inclusive) and `b` (exclusive).
fn subvec(v: &Vec<char>, a: usize, b: usize) -> (r: Vec<char>)
    requires
        a <= b <= v@.len(),
    ensures
        r@ == v@.subrange(a as int, b as int),
{
    let mut r: Vec<char> = Vec::new();
    let mut i: usize = a;
    while i < b
        invariant
            a <= i <= b <= v@.len(),
            r@ == v@.subrange(a as int, i as int),
        decreases b - i,
    {
        r.push(v[i]);
        i += 1;
        proof {
            assert(v@.subrange(a as int, i as int) =~= v@.subrange(a as int, i - 1).push(
                v@[i - 1],
            ));
        }
    }
    r
}

/// Removes surrounding whitespace from a sequence of characters.
pub fn trim_chars(v: &Vec<char>) -> (r: Vec<char>)
    ensures
        r@ == trim_spec(v@),
{
    let mut start: usize = 0;
    while start < v.len() && is_ws(v[start])
        invariant
            start <= v@.len(),
            forall|k: int| 0 <= k < start ==> is_ws_char(v@[k]),
        decreases v@.len() - start,
    {
        start += 1;
    }
    proof {
        lemma_trim_start_at(v@, start as int);
    }
    let mut end: usize = v.len();
    while end > start && is_ws(v[end - 1])
        invariant
            start <= end <= v@.len(),
            forall|k: int| end <= k < v@.len() ==> is_ws_char(v@[k]),
        decreases end,
    {
        end -= 1;
    }
    proof {
        let t = v@.subrange(start as int, v@.len() as int);
        assert(forall|k: int|
            end - start <= k < t.len() ==> is_ws_char(#[trigger] t[k]) && t[k] == v@[k + start]);
        lemma_trim_end_at(t, end - start);
        assert(t.subrange(0, end - start) =~= v@.subrange(start as int, end as int));
    }
    subvec(v, start, end)
}

/// The literal prefix that marks a data frame.
pub open spec fn data_prefix() -> Seq<char> {
    seq!['d', 'a', 't', 'a', ':', ' ']
}

/// True of a textual unit that carries a data frame.
pub open spec fn is_data_frame(s: Seq<char>) -> bool {
    s.len() >= 6 && s.subrange(0, 6) == data_prefix()
}

/// The payload of a data frame: everything after the prefix, with
/// surrounding whitespace trimmed.
pub open spec fn data_payload(s: Seq<char>) -> Seq<char>
    recommends
        is_data_frame(s),
{
    trim_spec(s.subrange(6, s.len() as int))
}

/// True of a comment/keep-alive frame: whitespace-only, or starting with `:`.
pub open spec fn is_comment_frame(s: Seq<char>) -> bool {
    trim_spec(s).len() == 0 || (s.len() > 0 && s[0] == ':')
}

/// What a received textual unit turned out to be.
pub enum Frame {
    /// A data frame and its trimmed payload.
    Data(Vec<char>),
    /// A comment or keep-alive frame, ignored.
    Comment,
    /// Any other non-empty unit: logged and ignored, never fatal.
    Anomalous,
}

/// Classifies one decoded textual unit. Data frames take precedence,
/// then comments/keep-alives; everything else is anomalous.
pub fn classify_frame(chunk: &Vec<char>) -> (r: Frame)
    ensures
        is_data_frame(chunk@) ==> (r matches Frame::Data(p) && p@ == data_payload(chunk@)),
        !is_data_frame(chunk@) && is_comment_frame(chunk@) ==> r is Comment,
        !is_data_frame(chunk@) && !is_comment_frame(chunk@) ==> r is Anomalous,
{
    if chunk.len() >= 6 && chunk[0] == 'd' && chunk[1] == 'a' && chunk[2] == 't' && chunk[3] == 'a'
        && chunk[4] == ':' && chunk[5] == ' ' {
        proof {
            assert(chunk@.subrange(0, 6) =~= data_prefix());
        }
        let rest = subvec(chunk, 6, chunk.len());
        Frame::Data(trim_chars(&rest))
    } else {
        proof {
            if chunk@.len() >= 6 && chunk@.subrange(0, 6) == data_prefix() {
                assert(forall|k: int|
                    0 <= k < 6 ==> #[trigger] chunk@[k] == chunk@.subrange(0, 6)[k]);
                assert(false);
            }
        }
        let t = trim_chars(chunk);
        if t.len() == 0 {
            Frame::Comment
        } else if chunk.len() > 0 && chunk[0] == ':' {
            Frame::Comment
        } else {
            Frame::Anomalous
        }
    }
}

} // verus!
