use vstd::prelude::*;

verus! {

/// A message as the user sees it: the fixed `[obsidian]` tag, one space,
/// then the message body.
pub open spec fn spec_render(msg: Seq<char>) -> Seq<char> {
    "[obsidian]"@ + " "@ + msg
}

/// Prefix a message body with the extension's fixed tag.
pub fn render_message(msg: &str) -> (r: String)
    ensures
        r@ == spec_render(msg@),
{
    let mut s = String::from_str("[obsidian]");
    s.append(" ");
    s.append(msg);
    s
}

} // verus!
