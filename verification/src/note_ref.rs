use vstd::prelude::*;

use crate::error::Error;

verus! {

/// The mathematical value of a reference token: a mandatory note id and an
/// optional secondary label, present only when the token contains a `|`
/// separator.
#[verifier::ext_equal]
pub struct RefValue {
    pub id: Seq<char>,
    pub tag: Option<Seq<char>>,
}

/// A token is delimited iff it begins with `[[` and ends with `]]`.
/// (Both conditions together force a length of at least 4.)
pub open spec fn spec_is_delimited(s: Seq<char>) -> bool {
    &&& s.len() >= 4
    &&& s[0] == '[' && s[1] == '['
    &&& s[s.len() - 2] == ']' && s[s.len() - 1] == ']'
}

/// Position `i` holds the *first* `|` of `s`.
pub open spec fn spec_sep_at(s: Seq<char>, i: int) -> bool {
    &&& 0 <= i < s.len()
    &&& s[i] == '|'
    &&& forall|j: int| 0 <= j < i ==> s[j] != '|'
}

/// Split an interior on its first `|`: the left part is the id, the right
/// part (if a separator exists) the tag. An interior with no `|` is all id.
pub open spec fn spec_split_interior(s: Seq<char>) -> RefValue {
    if exists|i: int| spec_sep_at(s, i) {
        let i = choose|i: int| spec_sep_at(s, i);
        RefValue { id: s.subrange(0, i), tag: Some(s.subrange(i + 1, s.len() as int)) }
    } else {
        RefValue { id: s, tag: None }
    }
}

/// Parse a reference token: `None` for a token not delimited by `[[` and
/// `]]`; otherwise the interior between the delimiters, split on its first
/// `|`. An empty interior yields an empty id (emptiness is a caller concern).
pub open spec fn spec_parse(s: Seq<char>) -> Option<RefValue> {
    if spec_is_delimited(s) {
        Some(spec_split_interior(s.subrange(2, s.len() - 2)))
    } else {
        None
    }
}

/// Serialize a reference: `[[id]]` when the tag is absent, else `[[id|tag]]`.
pub open spec fn spec_format(r: RefValue) -> Seq<char> {
    match r.tag {
        None => "[["@ + r.id + "]]"@,
        Some(t) => "[["@ + r.id + "|"@ + t + "]]"@,
    }
}

/// The first `|` position is unique.
pub proof fn lemma_sep_unique(s: Seq<char>, i: int, j: int)
    requires
        spec_sep_at(s, i),
        spec_sep_at(s, j),
    ensures
        i == j,
{
    if i < j {
        assert(s[i] != '|');
    }
    if j < i {
        assert(s[j] != '|');
    }
}

/// A wiki-style note reference, the parsed form of a `[[id]]` or
/// `[[id|alias]]` token.
#[derive(Debug, PartialEq, Eq)]
pub struct NoteRef {
    pub id: String,
    pub alias: Option<String>,
}

impl View for NoteRef {
    type V = RefValue;

    open spec fn view(&self) -> RefValue {
        RefValue {
            id: self.id@,
            tag: match self.alias {
                Some(a) => Some(a@),
                None => None,
            },
        }
    }
}

/// Find the first `|` of `s`, if any.
pub(crate) fn first_sep(s: &str) -> (r: Option<usize>)
    ensures
        match r {
            Some(i) => spec_sep_at(s@, i as int),
            None => forall|j: int| 0 <= j < s@.len() ==> s@[j] != '|',
        },
{
    let n = s.unicode_len();
    let mut i: usize = 0;
    while i < n
        invariant
            i <= n,
            n == s@.len(),
            forall|j: int| 0 <= j < i ==> s@[j] != '|',
        decreases n - i,
    {
        if s.get_char(i) == '|' {
            return Some(i);
        }
        i += 1;
    }
    None
}

impl NoteRef {
    pub fn new(id: &str, alias: Option<&str>) -> (r: NoteRef)
        ensures
            r@.id == id@,
            match alias {
                Some(a) => r@.tag == Some(a@),
                None => r@.tag is None,
            },
    {
        NoteRef {
            id: String::from_str(id),
            alias: match alias {
                Some(a) => Some(String::from_str(a)),
                None => None,
            },
        }
    }

    /// The file name of the note this reference points at.
    pub fn filename(&self) -> (r: String)
        ensures
            r@ == self@.id + ".md"@,
    {
        let mut s = self.id.clone();
        s.append(".md");
        s
    }

    /// Parse a `[[id]]` / `[[id|alias]]` token. Fails with `InternalError`
    /// iff the token is not delimited by `[[` and `]]`.
    pub fn parse(text: &str) -> (r: Result<NoteRef, Error>)
        ensures
            match r {
                Ok(nr) => spec_parse(text@) == Some(nr@),
                Err(e) => {
                    &&& spec_parse(text@) is None
                    &&& e matches Error::InternalError { why } && why@ == "Bad NoteRef value"@
                },
            },
    {
        let n = text.unicode_len();
        if n < 4 || text.get_char(0) != '[' || text.get_char(1) != '[' || text.get_char(n - 2)
            != ']' || text.get_char(n - 1) != ']' {
            return Err(Error::InternalError { why: String::from_str("Bad NoteRef value") });
        }
        let interior = text.substring_char(2, n - 2);
        match first_sep(interior) {
            Some(i) => {
                let id = String::from_str(interior.substring_char(0, i));
                let alias = String::from_str(interior.substring_char(i + 1, n - 4));
                let nr = NoteRef { id, alias: Some(alias) };
                proof {
                    let iv = text@.subrange(2, n - 2);
                    assert(exists|w: int| spec_sep_at(iv, w));
                    let w = choose|w: int| spec_sep_at(iv, w);
                    lemma_sep_unique(iv, w, i as int);
                    assert(nr@ =~~= spec_split_interior(iv));
                }
                Ok(nr)
            },
            None => {
                let nr = NoteRef { id: String::from_str(interior), alias: None };
                proof {
                    let iv = text@.subrange(2, n - 2);
                    assert(forall|w: int| !spec_sep_at(iv, w));
                    assert(nr@ =~= spec_split_interior(iv));
                }
                Ok(nr)
            },
        }
    }

    /// Serialize this reference back to its token text, the exact left
    /// inverse of `parse`.
    pub fn to_text(&self) -> (r: String)
        ensures
            r@ == spec_format(self@),
    {
        let mut s = String::from_str("[[");
        s.append(self.id.as_str());
        match &self.alias {
            Some(a) => {
                s.append("|");
                s.append(a.as_str());
            },
            None => {},
        }
        s.append("]]");
        s
    }
}

/// Round-trip law: formatting a reference and parsing the result yields the
/// reference back, for every id free of `]` and `|` and every tag free of
/// `]`.
pub proof fn lemma_round_trip(r: RefValue)
    requires
        forall|k: int| 0 <= k < r.id.len() ==> r.id[k] != ']' && r.id[k] != '|',
        r.tag matches Some(t) ==> forall|k: int| 0 <= k < t.len() ==> t[k] != ']',
    ensures
        spec_parse(spec_format(r)) == Some(r),
{
    reveal_strlit("[[");
    reveal_strlit("]]");
    reveal_strlit("|");
    let s = spec_format(r);
    match r.tag {
        None => {
            assert(spec_is_delimited(s));
            let iv = s.subrange(2, s.len() - 2);
            assert(iv =~= r.id);
            assert(forall|w: int| !spec_sep_at(iv, w));
            assert(spec_split_interior(iv) =~~= r);
        },
        Some(t) => {
            assert(spec_is_delimited(s));
            let iv = s.subrange(2, s.len() - 2);
            assert(iv =~= r.id + "|"@ + t);
            let i = r.id.len() as int;
            assert(spec_sep_at(iv, i));
            let w = choose|w: int| spec_sep_at(iv, w);
            lemma_sep_unique(iv, w, i);
            assert(iv.subrange(0, i) =~= r.id);
            assert(iv.subrange(i + 1, iv.len() as int) =~= t);
            assert(spec_split_interior(iv) =~~= r);
        },
    }
}

} // verus!

