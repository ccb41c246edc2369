use vstd::prelude::*;

use unicode_segmentation::UnicodeSegmentation;

use crate::error::Error;
use crate::note_ref::{
    first_sep, lemma_sep_unique, spec_format, spec_is_delimited, spec_parse, spec_sep_at,
    spec_split_interior, RefValue,
};

verus! {

/// A wiki-style note reference, the parsed form of a `[[id]]` or
/// `[[id|tag]]` token.
#[derive(Debug, PartialEq, Eq)]
pub struct NoteRef {
    pub id: String,
    pub tag: Option<String>,
}

impl View for NoteRef {
    type V = RefValue;

    open spec fn view(&self) -> RefValue {
        RefValue {
            id: self.id@,
            tag: match self.tag {
                Some(t) => Some(t@),
                None => None,
            },
        }
    }
}

impl NoteRef {
    pub fn new(id: &str, tag: Option<&str>) -> (r: NoteRef)
        ensures
            r@.id == id@,
            match tag {
                Some(t) => r@.tag == Some(t@),
                None => r@.tag is None,
            },
    {
        NoteRef {
            id: String::from_str(id),
            tag: match tag {
                Some(t) => Some(String::from_str(t)),
                None => None,
            },
        }
    }

    /// The file name of the note this reference points at.
    pub fn filename(&self) -> (r: String)
        ensures
            r@ == self@.id + ".md"@,
    {
        let mut s = self.id.clone();
        s.append(".md");
        s
    }

    /// Parse a `[[id]]` / `[[id|tag]]` token. Fails with `InternalError`
    /// iff the token is not delimited by `[[` and `]]`.
    pub fn parse(text: &str) -> (r: Result<NoteRef, Error>)
        ensures
            match r {
                Ok(nr) => spec_parse(text@) == Some(nr@),
                Err(e) => {
                    &&& spec_parse(text@) is None
                    &&& e matches Error::InternalError { why } && why@ == "Bad NoteRef value"@
                },
            },
    {
        let n = text.unicode_len();
        if n < 4 || text.get_char(0) != '[' || text.get_char(1) != '[' || text.get_char(n - 2)
            != ']' || text.get_char(n - 1) != ']' {
            return Err(Error::InternalError { why: String::from_str("Bad NoteRef value") });
        }
        let interior = text.substring_char(2, n - 2);
        match first_sep(interior) {
            Some(i) => {
                let id = String::from_str(interior.substring_char(0, i));
                let tag = String::from_str(interior.substring_char(i + 1, n - 4));
                let nr = NoteRef { id, tag: Some(tag) };
                proof {
                    let iv = text@.subrange(2, n - 2);
                    assert(exists|w: int| spec_sep_at(iv, w));
                    let w = choose|w: int| spec_sep_at(iv, w);
                    lemma_sep_unique(iv, w, i as int);
                    assert(nr@ =~~= spec_split_interior(iv));
                }
                Ok(nr)
            },
            None => {
                let nr = NoteRef { id: String::from_str(interior), tag: None };
                proof {
                    let iv = text@.subrange(2, n - 2);
                    assert(forall|w: int| !spec_sep_at(iv, w));
                    assert(nr@ =~~= spec_split_interior(iv));
                }
                Ok(nr)
            },
        }
    }

    /// Serialize this reference back to its token text, the exact left
    /// inverse of `parse`.
    pub fn to_text(&self) -> (r: String)
        ensures
            r@ == spec_format(self@),
    {
        let mut s = String::from_str("[[");
        s.append(self.id.as_str());
        match &self.tag {
            Some(t) => {
                s.append("|");
                s.append(t.as_str());
            },
            None => {},
        }
        s.append("]]");
        s
    }
}

/// The grapheme-cluster decomposition of a line of text: the units in which
/// the host reports display columns. Its value is fixed by the characters
/// alone.
pub uninterp spec fn grapheme_clusters(s: Seq<char>) -> Seq<Seq<char>>;

/// Relies on unicode_segmentation's `UnicodeSegmentation::graphemes` with
/// extended grapheme clusters: it yields the grapheme clusters of the string
/// in order, and the clusters are consecutive substrings that together make
/// up the whole string.
#[verifier::external_body]
fn split_graphemes(line: &str) -> (r: Vec<String>)
    ensures
        r.deep_view() == grapheme_clusters(line@),
        r.deep_view().flatten() == line@,
{
    line.graphemes(true).map(|g| g.to_string()).collect()
}

/// The character offset of display column `col`: the summed character
/// lengths of the first `col` grapheme clusters.
pub open spec fn spec_col_offset(gs: Seq<Seq<char>>, col: int) -> int
    decreases col,
{
    if col <= 0 {
        0
    } else {
        spec_col_offset(gs, col - 1) + gs[col - 1].len()
    }
}

/// Summing the first `col` cluster lengths, the head cluster can be split
/// off the front.
proof fn lemma_col_offset_drop_first(gs: Seq<Seq<char>>, col: int)
    requires
        1 <= col <= gs.len(),
    ensures
        spec_col_offset(gs, col) == gs[0].len() + spec_col_offset(gs.drop_first(), col - 1),
    decreases col,
{
    if col == 1 {
        assert(spec_col_offset(gs, 0) == 0);
        assert(spec_col_offset(gs.drop_first(), 0) == 0);
    } else {
        lemma_col_offset_drop_first(gs, col - 1);
        assert(gs.drop_first()[col - 2] == gs[col - 1]);
        assert(spec_col_offset(gs, col) == spec_col_offset(gs, col - 1) + gs[col - 1].len());
        assert(spec_col_offset(gs.drop_first(), col - 1) == spec_col_offset(
            gs.drop_first(),
            col - 2,
        ) + gs.drop_first()[col - 2].len());
    }
}

/// A column offset never exceeds the length of the text the clusters make up.
proof fn lemma_col_offset_le_flatten(gs: Seq<Seq<char>>, col: int)
    requires
        0 <= col <= gs.len(),
    ensures
        0 <= spec_col_offset(gs, col) <= gs.flatten().len(),
    decreases col,
{
    if col > 0 {
        lemma_col_offset_drop_first(gs, col);
        lemma_col_offset_le_flatten(gs.drop_first(), col - 1);
        assert(gs.flatten() == gs.first() + gs.drop_first().flatten());
    }
}

/// The span `[start, end)` of `s` holds a reference token: `[[`, a nonempty
/// body free of `]`, then `]]`. This is the bracket pattern the resolver
/// scans a line for.
pub open spec fn spec_match_at(s: Seq<char>, start: int, end: int) -> bool {
    &&& 0 <= start
    &&& start + 5 <= end <= s.len()
    &&& s[start] == '[' && s[start + 1] == '['
    &&& s[end - 2] == ']' && s[end - 1] == ']'
    &&& forall|k: int| start + 2 <= k < end - 2 ==> s[k] != ']'
}

/// Scanning left to right from position `p`, the first span that matches the
/// bracket pattern and contains `pos`, inclusively at both ends.
pub open spec fn spec_locate_from(s: Seq<char>, p: int, pos: int) -> Option<(int, int)>
    decreases s.len() - p,
{
    if p < 0 || p + 5 > s.len() {
        None
    } else if (exists|e: int| spec_match_at(s, p, e)) && p <= pos <= (choose|e: int|
        spec_match_at(s, p, e)) {
        Some((p, choose|e: int| spec_match_at(s, p, e)))
    } else {
        spec_locate_from(s, p + 1, pos)
    }
}

/// A match starting at a given position has only one possible end.
proof fn lemma_match_end_unique(s: Seq<char>, p: int, e1: int, e2: int)
    requires
        spec_match_at(s, p, e1),
        spec_match_at(s, p, e2),
    ensures
        e1 == e2,
{
    if e1 < e2 {
        assert(s[e1 - 2] != ']');
    }
    if e2 < e1 {
        assert(s[e2 - 2] != ']');
    }
}

/// A match starting inside another match ends where the enclosing match
/// ends: reference spans cannot half-overlap.
proof fn lemma_inner_match_same_end(s: Seq<char>, p: int, e: int, q: int, e2: int)
    requires
        spec_match_at(s, p, e),
        p < q < e,
        spec_match_at(s, q, e2),
    ensures
        e2 == e,
{
    if q == e - 1 || q == e - 2 {
        assert(s[q] == '[');
        assert(false);
    } else if q == e - 3 {
        assert(s[q + 1] == '[');
        assert(false);
    } else {
        assert(q + 2 <= e - 2);
        if e2 < e {
            assert(p + 2 <= e2 - 2 < e - 2);
            assert(s[e2 - 2] != ']');
            assert(false);
        }
        if e2 > e {
            assert(q + 2 <= e - 2 < e2 - 2);
            assert(s[e - 2] != ']');
            assert(false);
        }
    }
}

/// Once a match at `p` has been seen not to contain `pos`, the scan can jump
/// to the match's end: no position strictly inside the span starts a span
/// that contains `pos`.
proof fn lemma_locate_skip(s: Seq<char>, p: int, e: int, q: int, pos: int)
    requires
        spec_match_at(s, p, e),
        !(p <= pos <= e),
        p < q <= e,
    ensures
        spec_locate_from(s, q, pos) == spec_locate_from(s, e, pos),
    decreases e - q,
{
    if q < e {
        if exists|e2: int| spec_match_at(s, q, e2) {
            let e2 = choose|e2: int| spec_match_at(s, q, e2);
            lemma_inner_match_same_end(s, p, e, q, e2);
            assert(!(q <= pos <= e2));
        }
        lemma_locate_skip(s, p, e, q + 1, pos);
    }
}

/// What the cursor-position resolver finds on `line` at display column
/// `col`: the first scanned reference span whose inclusive byte range covers
/// the column's offset, parsed.
pub open spec fn spec_find_ref(line: Seq<char>, col: int) -> Option<RefValue> {
    match spec_locate_from(line, 0, spec_col_offset(grapheme_clusters(line), col)) {
        Some(span) => spec_parse(line.subrange(span.0, span.1)),
        None => None,
    }
}

/// Decide whether a reference span starts at `p`, and where it ends.
fn try_match_at(line: &str, n: usize, p: usize) -> (r: Option<usize>)
    requires
        n == line@.len(),
        p + 5 <= n,
    ensures
        match r {
            Some(e) => spec_match_at(line@, p as int, e as int) && p + 5 <= e <= n,
            None => forall|e: int| !spec_match_at(line@, p as int, e),
        },
{
    if line.get_char(p) != '[' || line.get_char(p + 1) != '[' {
        return None;
    }
    let mut j: usize = p + 2;
    while j < n
        invariant
            n == line@.len(),
            p + 5 <= n,
            p + 2 <= j <= n,
            line@[p as int] == '[',
            line@[p as int + 1] == '[',
            forall|k: int| p + 2 <= k < j ==> line@[k] != ']',
        decreases n - j,
    {
        if line.get_char(j) == ']' {
            if j > p + 2 && j + 1 < n && line.get_char(j + 1) == ']' {
                proof {
                    assert(spec_match_at(line@, p as int, j + 2 as int));
                }
                return Some(j + 2);
            } else {
                proof {
                    assert forall|e: int| !spec_match_at(line@, p as int, e) by {
                        if spec_match_at(line@, p as int, e) {
                            if e - 2 < j {
                                assert(line@[e - 2] != ']');
                            } else if e - 2 > j {
                                assert(line@[j as int] != ']');
                            }
                            assert(e == j + 2);
                            assert(false);
                        }
                    }
                }
                return None;
            }
        }
        j += 1;
    }
    proof {
        assert forall|e: int| !spec_match_at(line@, p as int, e) by {
            if spec_match_at(line@, p as int, e) {
                assert(line@[e - 2] != ']');
                assert(false);
            }
        }
    }
    None
}

/// Resolve the reference under a cursor: `line` is the line of text, `pos`
/// the cursor's display column, an index into the line's grapheme clusters.
/// The column's character offset is matched, inclusively at both ends,
/// against every reference span of the line in scan order.
pub fn find_ref(line: &str, pos: usize) -> (r: Result<Option<NoteRef>, Error>)
    requires
        pos <= grapheme_clusters(line@).len(),
    ensures
        r matches Ok(opt) && (match spec_find_ref(line@, pos as int) {
            Some(v) => opt matches Some(nr) && nr@ == v,
            None => opt is None,
        }),
{
    let n = line.unicode_len();
    let gs = split_graphemes(line);
    let ghost gsv = gs.deep_view();

    let mut cpos: usize = 0;
    let mut i: usize = 0;
    while i < pos
        invariant
            i <= pos,
            pos <= gsv.len(),
            gsv == grapheme_clusters(line@),
            gsv.flatten() == line@,
            gs.deep_view() == gsv,
            n == line@.len(),
            cpos == spec_col_offset(gsv, i as int),
        decreases pos - i,
    {
        proof {
            lemma_col_offset_le_flatten(gsv, i + 1);
            assert(gsv[i as int] == gs[i as int].deep_view());
        }
        cpos = cpos + gs[i].as_str().unicode_len();
        i += 1;
    }
    let ghost target = spec_col_offset(grapheme_clusters(line@), pos as int);
    assert(cpos == target);

    if n < 5 {
        return Ok(None);
    }
    let mut p: usize = 0;
    while p <= n - 5
        invariant
            n == line@.len(),
            5 <= n,
            p <= n,
            cpos == target,
            target == spec_col_offset(grapheme_clusters(line@), pos as int),
            spec_locate_from(line@, 0, target as int) == spec_locate_from(
                line@,
                p as int,
                target as int,
            ),
        decreases n - p,
    {
        match try_match_at(line, n, p) {
            Some(e) => {
                proof {
                    let ce = choose|w: int| spec_match_at(line@, p as int, w);
                    lemma_match_end_unique(line@, p as int, ce, e as int);
                }
                if p <= cpos && cpos <= e {
                    proof {
                        assert(spec_locate_from(line@, p as int, target as int) == Some(
                            (p as int, e as int),
                        ));
                        assert(spec_find_ref(line@, pos as int) == spec_parse(
                            line@.subrange(p as int, e as int),
                        ));
                    }
                    let token = line.substring_char(p, e);
                    assert(spec_is_delimited(token@));
                    match NoteRef::parse(token) {
                        Ok(nr) => {
                            return Ok(Some(nr));
                        },
                        Err(err) => {
                            proof {
                                assert(false);
                            }
                            return Err(err);
                        },
                    }
                } else {
                    proof {
                        lemma_locate_skip(line@, p as int, e as int, p + 1, target as int);
                    }
                    p = e;
                }
            },
            None => {
                p += 1;
            },
        }
    }
    Ok(None)
}

/// Resolve the reference under a cursor, tolerating any display column: a
/// column beyond the line's last grapheme cluster resolves to no reference.
pub fn locate_under_cursor(line: &str, col: usize) -> (r: Result<Option<NoteRef>, Error>)
    ensures
        r matches Ok(opt) && (if col <= grapheme_clusters(line@).len() {
            match spec_find_ref(line@, col as int) {
                Some(v) => opt matches Some(nr) && nr@ == v,
                None => opt is None,
            }
        } else {
            opt is None
        }),
{
    let gs = split_graphemes(line);
    if col > gs.len() {
        return Ok(None);
    }
    find_ref(line, col)
}

} // verus!
