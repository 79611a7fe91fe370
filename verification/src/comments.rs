//! Extraction of the comment block standing immediately above a source line.
//!
//! A file is a sequence of lines, each a sequence of bytes. A comment line is
//! one whose trimmed form starts with the single-line comment delimiter `;`.
//! The block above a target line is the contiguous run of comment lines
//! directly above it: the scan walks upward and stops at the first blank or
//! otherwise non-comment line, and at the start of the file.

use vstd::prelude::*;
use crate::append_bytes;

verus! {

/// ASCII whitespace as trimming treats it: the space character and the
/// control characters tab through carriage return.
pub open spec fn is_space(b: u8) -> bool {
    b == 32 || (9 <= b <= 13)
}

/// `s` without its leading whitespace.
pub open spec fn trim_start(s: Seq<u8>) -> Seq<u8>
    decreases s.len(),
{
    if s.len() > 0 && is_space(s[0]) {
        trim_start(s.drop_first())
    } else {
        s
    }
}

/// `s` without its trailing whitespace.
pub open spec fn trim_end(s: Seq<u8>) -> Seq<u8>
    decreases s.len(),
{
    if s.len() > 0 && is_space(s.last()) {
        trim_end(s.drop_last())
    } else {
        s
    }
}

/// `s` without leading and trailing whitespace.
pub open spec fn trimmed(s: Seq<u8>) -> Seq<u8> {
    trim_end(trim_start(s))
}

/// `s` without its leading run of `;`.
pub open spec fn strip_semicolons(s: Seq<u8>) -> Seq<u8>
    decreases s.len(),
{
    if s.len() > 0 && s[0] == ';' as u8 {
        strip_semicolons(s.drop_first())
    } else {
        s
    }
}

/// A comment line: its trimmed form starts with `;`.
pub open spec fn is_comment_line(line: Seq<u8>) -> bool {
    trimmed(line).len() > 0 && trimmed(line)[0] == ';' as u8
}

/// The body of a comment line: the line without its leading run of `;`,
/// trimmed. The run of `;` is removed from the line as given, before any
/// trimming, so a delimiter standing after leading whitespace is kept in the
/// body.
pub open spec fn comment_body(line: Seq<u8>) -> Seq<u8> {
    trimmed(strip_semicolons(line))
}

/// The bodies of the contiguous run of comment lines that ends directly above
/// the line with 0-based index `k`, in top-to-bottom order. The run stops at
/// the first non-comment line scanning upward and at the start of the file.
pub open spec fn comment_block(lines: Seq<Seq<u8>>, k: int) -> Seq<Seq<u8>>
    decreases k,
{
    if k <= 0 || k > lines.len() {
        Seq::empty()
    } else if is_comment_line(lines[k - 1]) {
        comment_block(lines, k - 1).push(comment_body(lines[k - 1]))
    } else {
        Seq::empty()
    }
}

/// The given parts joined with single newlines, in order.
pub open spec fn join_lines(parts: Seq<Seq<u8>>) -> Seq<u8>
    decreases parts.len(),
{
    if parts.len() == 0 {
        Seq::empty()
    } else if parts.len() == 1 {
        parts[0]
    } else {
        join_lines(parts.drop_last()) + seq!['\n' as u8] + parts.last()
    }
}

/// When every byte before `a` is whitespace and `a` stands at the end or on a
/// non-whitespace byte, trimming the start removes exactly the first `a`
/// bytes.
proof fn lemma_trim_start_skip(s: Seq<u8>, a: int)
    requires
        0 <= a <= s.len(),
        forall|j: int| 0 <= j < a ==> is_space(s[j]),
        a == s.len() || !is_space(s[a]),
    ensures
        trim_start(s) == s.skip(a),
    decreases a,
{
    if a == 0 {
        assert(s.skip(0) =~= s);
    } else {
        assert(is_space(s[0]));
        lemma_trim_start_skip(s.drop_first(), a - 1);
        assert(s.drop_first().skip(a - 1) =~= s.skip(a));
    }
}

/// When every byte from `b` on is whitespace and `b` stands at the beginning
/// or after a non-whitespace byte, trimming the end keeps exactly the first
/// `b` bytes.
proof fn lemma_trim_end_take(s: Seq<u8>, b: int)
    requires
        0 <= b <= s.len(),
        forall|j: int| b <= j < s.len() ==> is_space(s[j]),
        b == 0 || !is_space(s[b - 1]),
    ensures
        trim_end(s) == s.take(b),
    decreases s.len(),
{
    if b == s.len() {
        assert(s.take(b) =~= s);
    } else {
        assert(is_space(s.last()));
        lemma_trim_end_take(s.drop_last(), b);
        assert(s.drop_last() =~= s.take(s.len() - 1));
        assert(s.take(s.len() - 1).take(b) =~= s.take(b));
    }
}

/// When every byte before `a` is `;` and `a` stands at the end or on another
/// byte, stripping the semicolon run removes exactly the first `a` bytes.
proof fn lemma_strip_semicolons_skip(s: Seq<u8>, a: int)
    requires
        0 <= a <= s.len(),
        forall|j: int| 0 <= j < a ==> s[j] == ';' as u8,
        a == s.len() || s[a] != ';' as u8,
    ensures
        strip_semicolons(s) == s.skip(a),
    decreases a,
{
    if a == 0 {
        assert(s.skip(0) =~= s);
    } else {
        lemma_strip_semicolons_skip(s.drop_first(), a - 1);
        assert(s.drop_first().skip(a - 1) =~= s.skip(a));
    }
}

/// Whether `b` counts as whitespace for trimming.
fn space_byte(b: u8) -> (r: bool)
    ensures
        r == is_space(b),
{
    b == 32 || (b >= 9 && b <= 13)
}

/// The trimmed form of `line`.
pub fn trim_bytes(line: &Vec<u8>) -> (r: Vec<u8>)
    ensures
        r@ == trimmed(line@),
{
    let n = line.len();
    let mut a: usize = 0;
    while a < n && space_byte(line[a])
        invariant
            a <= n,
            n == line.len(),
            forall|j: int| 0 <= j < a ==> is_space(line@[j]),
        decreases n - a,
    {
        a = a + 1;
    }
    proof {
        lemma_trim_start_skip(line@, a as int);
    }
    if a == n {
        let r: Vec<u8> = Vec::new();
        proof {
            assert(line@.skip(n as int) =~= Seq::<u8>::empty());
        }
        return r;
    }
    let mut b: usize = n;
    while b > a && space_byte(line[b - 1])
        invariant
            a <= b <= n,
            n == line.len(),
            !is_space(line@[a as int]),
            forall|j: int| b <= j < n ==> is_space(line@[j]),
        decreases b,
    {
        b = b - 1;
    }
    proof {
        let t = line@.skip(a as int);
        lemma_trim_end_take(t, b - a);
        assert(t.take(b - a) =~= line@.subrange(a as int, b as int));
    }
    let mut r: Vec<u8> = Vec::new();
    let mut i: usize = a;
    while i < b
        invariant
            a <= i <= b <= n,
            n == line.len(),
            r@ == line@.subrange(a as int, i as int),
        decreases b - i,
    {
        r.push(line[i]);
        i = i + 1;
        proof {
            assert(line@.subrange(a as int, i as int) =~= line@.subrange(a as int, i - 1).push(
                line@[i - 1],
            ));
        }
    }
    r
}

/// `line` without its leading run of `;`.
pub fn strip_semicolon_bytes(line: &Vec<u8>) -> (r: Vec<u8>)
    ensures
        r@ == strip_semicolons(line@),
{
    let n = line.len();
    let mut a: usize = 0;
    while a < n && line[a] == 59
        invariant
            a <= n,
            n == line.len(),
            forall|j: int| 0 <= j < a ==> line@[j] == ';' as u8,
        decreases n - a,
    {
        a = a + 1;
    }
    proof {
        lemma_strip_semicolons_skip(line@, a as int);
    }
    let mut r: Vec<u8> = Vec::new();
    let mut i: usize = a;
    while i < n
        invariant
            a <= i <= n,
            n == line.len(),
            r@ == line@.subrange(a as int, i as int),
        decreases n - i,
    {
        r.push(line[i]);
        i = i + 1;
        proof {
            assert(line@.subrange(a as int, i as int) =~= line@.subrange(a as int, i - 1).push(
                line@[i - 1],
            ));
        }
    }
    proof {
        assert(line@.subrange(a as int, n as int) =~= line@.skip(a as int));
    }
    r
}

/// Whether `line` is a comment line.
pub fn comment_line_test(line: &Vec<u8>) -> (r: bool)
    ensures
        r == is_comment_line(line@),
{
    let t = trim_bytes(line);
    t.len() > 0 && t[0] == 59
}

/// The body of comment line `line`.
pub fn comment_body_bytes(line: &Vec<u8>) -> (r: Vec<u8>)
    ensures
        r@ == comment_body(line@),
{
    let stripped = strip_semicolon_bytes(line);
    trim_bytes(&stripped)
}

/// A nested view of a file's lines indexes to the view of each line.
proof fn lemma_lines_view_index(lines: &Vec<Vec<u8>>, j: int)
    requires
        0 <= j < lines@.len(),
    ensures
        lines.deep_view()[j] == lines@[j]@,
{
    assert(lines.deep_view()[j] =~= lines@[j]@);
}

/// When every line with index in `[k, above)` is a comment line and the run
/// cannot extend further up, the block above index `above` holds exactly the
/// bodies of those lines, in file order.
proof fn lemma_block_shape(lines: Seq<Seq<u8>>, k: int, above: int)
    requires
        0 <= k <= above <= lines.len(),
        forall|j: int| k <= j < above ==> is_comment_line(lines[j]),
        k == 0 || !is_comment_line(lines[k - 1]),
    ensures
        comment_block(lines, above).len() == above - k,
        forall|i: int|
            0 <= i < above - k ==> comment_block(lines, above)[i] == comment_body(lines[k + i]),
    decreases above - k,
{
    if above > k {
        assert(is_comment_line(lines[above - 1]));
        lemma_block_shape(lines, k, above - 1);
    }
}

/// Joining one part more appends a newline and that part.
proof fn lemma_join_step(parts: Seq<Seq<u8>>, t: int)
    requires
        1 <= t < parts.len(),
    ensures
        join_lines(parts.take(t + 1)) == join_lines(parts.take(t)) + seq!['\n' as u8] + parts[t],
{
    let p = parts.take(t + 1);
    assert(p.drop_last() =~= parts.take(t));
    assert(p.last() == parts[t]);
}

/// Extracts the comment block standing directly above line `line_number`
/// (1-based) of `lines`.
///
/// The scan starts at the line directly above the target and walks upward
/// while it meets comment lines; a blank line or any other non-comment line
/// stops it, as does the start of the file. The collected bodies are joined
/// with newlines in top-to-bottom order. The result is absent exactly when
/// `line_number` is 0 or exceeds the number of lines, or when no comment line
/// stands directly above the target.
pub fn extract_comment_above(lines: &Vec<Vec<u8>>, line_number: usize) -> (r: Option<Vec<u8>>)
    ensures
        ({
            let blk = comment_block(lines.deep_view(), line_number as int - 1);
            if line_number == 0 || line_number > lines@.len() || blk.len() == 0 {
                r is None
            } else {
                r matches Some(c) && c@ == join_lines(blk)
            }
        }),
{
    if line_number == 0 || line_number > lines.len() {
        return None;
    }
    let ghost ldv = lines.deep_view();
    proof {
        assert(ldv.len() == lines@.len());
    }
    let above: usize = line_number - 1;
    let mut comments: Vec<Vec<u8>> = Vec::new();
    let mut k: usize = above;
    while k > 0 && comment_line_test(&lines[k - 1])
        invariant
            k <= above < lines@.len() + 1,
            above == line_number - 1,
            lines@.len() <= usize::MAX,
            ldv == lines.deep_view(),
            forall|j: int| k <= j < above ==> is_comment_line(ldv[j]),
            comments@.len() == above - k,
            forall|j: int|
                k <= j < above ==> comments@[above - 1 - j]@ == comment_body(ldv[j]),
        decreases k,
    {
        proof {
            lemma_lines_view_index(lines, k - 1);
        }
        let body = comment_body_bytes(&lines[k - 1]);
        comments.push(body);
        k = k - 1;
    }
    proof {
        if k > 0 {
            lemma_lines_view_index(lines, k - 1);
        }
        lemma_block_shape(ldv, k as int, above as int);
    }
    let ghost blk = comment_block(ldv, above as int);
    let n = comments.len();
    if n == 0 {
        return None;
    }
    proof {
        assert(forall|i: int| 0 <= i < n ==> blk[i] == comments@[n - 1 - i]@);
    }
    let mut out: Vec<u8> = Vec::new();
    let mut t: usize = 0;
    while t < n
        invariant
            t <= n,
            0 < n == comments@.len(),
            blk.len() == n,
            forall|i: int| 0 <= i < n ==> blk[i] == comments@[n - 1 - i]@,
            out@ == join_lines(blk.take(t as int)),
        decreases n - t,
    {
        if t > 0 {
            out.push(10);
            proof {
                lemma_join_step(blk, t as int);
            }
            append_bytes(&mut out, &comments[n - 1 - t]);
        } else {
            proof {
                assert(blk.take(1) =~= seq![blk[0]]);
                assert(join_lines(seq![blk[0]]) == blk[0]);
            }
            append_bytes(&mut out, &comments[n - 1 - t]);
        }
        t = t + 1;
    }
    proof {
        assert(blk.take(n as int) =~= blk);
    }
    Some(out)
}

} // verus!
