use vstd::prelude::*;

use crate::error::Error;

verus! {

/// Metadata record for frontmatter generation: a note id plus ordered
/// aliases and tags, built incrementally and immutable once rendered.
#[derive(Debug)]
pub struct Note {
    pub id: String,
    pub aliases: Vec<String>,
    pub tags: Vec<String>,
}

/// The lines of a block list: one `- value` line per element, in append
/// order.
pub open spec fn spec_list_lines(items: Seq<Seq<char>>) -> Seq<Seq<char>> {
    items.map_values(|s: Seq<char>| "- "@ + s)
}

/// The lines of one list-valued key: `key: []` on a single line when the
/// list is empty, else `key:` followed by the block list.
pub open spec fn spec_key_lines(key: Seq<char>, items: Seq<Seq<char>>) -> Seq<Seq<char>> {
    if items.len() == 0 {
        seq![key + ": []"@]
    } else {
        seq![key + ":"@] + spec_list_lines(items)
    }
}

/// The frontmatter block of a note: `---` delimiter lines around the three
/// keys id, aliases, tags, in that fixed order.
pub open spec fn spec_frontmatter(id: Seq<char>, aliases: Seq<Seq<char>>, tags: Seq<Seq<char>>) -> Seq<
    Seq<char>,
> {
    seq!["---"@, "id: "@ + id] + spec_key_lines("aliases"@, aliases) + spec_key_lines(
        "tags"@,
        tags,
    ) + seq!["---"@]
}

/// Append the block list of `items` to `lines`.
fn push_list_lines(lines: &mut Vec<String>, items: &Vec<String>)
    ensures
        final(lines).deep_view() == old(lines).deep_view() + spec_list_lines(items.deep_view()),
{
    let ghost dv = items.deep_view();
    let ghost lines0 = lines.deep_view();
    let mut i: usize = 0;
    while i < items.len()
        invariant
            i <= items@.len(),
            dv == items.deep_view(),
            dv.len() == items@.len(),
            lines.deep_view() == lines0 + spec_list_lines(dv.take(i as int)),
        decreases items@.len() - i,
    {
        let ghost prev = lines.deep_view();
        let mut l = String::from_str("- ");
        l.append(items[i].as_str());
        let ghost lv = l@;
        lines.push(l);
        proof {
            assert(lv =~= "- "@ + dv[i as int]);
            assert(lines.deep_view() =~~= prev.push(lv));
            assert(dv.take(i + 1) =~~= dv.take(i as int).push(dv[i as int]));
            assert(spec_list_lines(dv.take(i + 1)) =~~= spec_list_lines(dv.take(i as int)).push(
                "- "@ + dv[i as int],
            ));
            assert(lines.deep_view() =~~= lines0 + spec_list_lines(dv.take(i + 1)));
        }
        i += 1;
    }
    proof {
        assert(dv.take(items@.len() as int) =~~= dv);
    }
}

/// Append the lines of one list-valued key to `lines`.
fn push_key_lines(lines: &mut Vec<String>, key: &str, items: &Vec<String>)
    ensures
        final(lines).deep_view() == old(lines).deep_view() + spec_key_lines(
            key@,
            items.deep_view(),
        ),
{
    if items.len() == 0 {
        let l = String::from_str(key).concat(": []");
        lines.push(l);
        proof {
            assert(lines.deep_view() =~~= old(lines).deep_view() + spec_key_lines(
                key@,
                items.deep_view(),
            ));
        }
    } else {
        let l = String::from_str(key).concat(":");
        lines.push(l);
        push_list_lines(lines, items);
        proof {
            assert(lines.deep_view() =~~= old(lines).deep_view() + spec_key_lines(
                key@,
                items.deep_view(),
            ));
        }
    }
}

impl Note {
    pub fn new(id: &str) -> (r: Note)
        ensures
            r.id@ == id@,
            r.aliases.deep_view() == Seq::<Seq<char>>::empty(),
            r.tags.deep_view() == Seq::<Seq<char>>::empty(),
    {
        let r = Note { id: String::from_str(id), aliases: Vec::new(), tags: Vec::new() };
        proof {
            assert(r.aliases.deep_view() =~~= Seq::<Seq<char>>::empty());
            assert(r.tags.deep_view() =~~= Seq::<Seq<char>>::empty());
        }
        r
    }

    /// Add an alias to the note.
    pub fn with_alias(self, alias: &str) -> (r: Note)
        ensures
            r.id@ == self.id@,
            r.aliases.deep_view() == self.aliases.deep_view().push(alias@),
            r.tags.deep_view() == self.tags.deep_view(),
    {
        let mut n = self;
        n.aliases.push(String::from_str(alias));
        proof {
            assert(n.aliases.deep_view() =~~= self.aliases.deep_view().push(alias@));
        }
        n
    }

    /// Add a tag to the note.
    pub fn with_tag(self, tag: &str) -> (r: Note)
        ensures
            r.id@ == self.id@,
            r.aliases.deep_view() == self.aliases.deep_view(),
            r.tags.deep_view() == self.tags.deep_view().push(tag@),
    {
        let mut n = self;
        n.tags.push(String::from_str(tag));
        proof {
            assert(n.tags.deep_view() =~~= self.tags.deep_view().push(tag@));
        }
        n
    }

    /// The frontmatter lines for the note: always succeeds, and the lines
    /// are a fixed function of id, aliases and tags.
    pub fn frontmatter(&self) -> (r: Result<Vec<String>, Error>)
        ensures
            r matches Ok(lines) && lines.deep_view() == spec_frontmatter(
                self.id@,
                self.aliases.deep_view(),
                self.tags.deep_view(),
            ),
    {
        let mut lines: Vec<String> = Vec::new();
        lines.push(String::from_str("---"));
        let idl = String::from_str("id: ").concat(self.id.as_str());
        lines.push(idl);
        proof {
            assert(lines.deep_view() =~~= seq!["---"@, "id: "@ + self.id@]);
        }
        let ghost head = lines.deep_view();
        push_key_lines(&mut lines, "aliases", &self.aliases);
        proof {
            assert(lines.deep_view() == head + spec_key_lines(
                "aliases"@,
                self.aliases.deep_view(),
            ));
        }
        let ghost mid = lines.deep_view();
        push_key_lines(&mut lines, "tags", &self.tags);
        proof {
            assert(lines.deep_view() == mid + spec_key_lines("tags"@, self.tags.deep_view()));
        }
        let ghost tail = lines.deep_view();
        lines.push(String::from_str("---"));
        proof {
            assert(lines.deep_view() =~~= tail.push("---"@));
            assert(lines.deep_view() =~~= spec_frontmatter(
                self.id@,
                self.aliases.deep_view(),
                self.tags.deep_view(),
            ));
        }
        Ok(lines)
    }
}

} // verus!
