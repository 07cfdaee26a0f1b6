use vstd::prelude::*;

verus! {

/// The characters that the chat markup dialect treats as significant in
/// plain text: they must never reach the transport unescaped.
pub open spec fn markup_significant(c: char) -> bool {
    c == '&' || c == '<' || c == '>'
}

/// The transport-safe rendering of one character: markup-significant
/// characters become their textual entities, every other character stands
/// unchanged.
pub open spec fn escaped_char(c: char) -> Seq<char> {
    if c == '&' {
        seq!['&', 'a', 'm', 'p', ';']
    } else if c == '<' {
        seq!['&', 'l', 't', ';']
    } else if c == '>' {
        seq!['&', 'g', 't', ';']
    } else {
        seq![c]
    }
}

/// Text with every markup-significant character replaced by its entity.
pub open spec fn escape_text(s: Seq<char>) -> Seq<char>
    decreases s.len(),
{
    if s.len() == 0 {
        Seq::empty()
    } else {
        escaped_char(s[0]) + escape_text(s.drop_first())
    }
}

/// Relies on html_escape::encode_text: it replaces `&` with `&amp;`,
/// `<` with `&lt;` and `>` with `&gt;`, and leaves every other character
/// as it is.
#[verifier::external_body]
pub(crate) fn encode_text(s: &str) -> (r: String)
    ensures
        r@ == escape_text(s@),
{
    html_escape::encode_text(s).into_owned()
}

/// Escaping leaves text without markup-significant characters unchanged,
/// so formatting already-safe input only adds the template around it.
pub proof fn lemma_escape_safe_identity(s: Seq<char>)
    requires
        forall|i: int| 0 <= i < s.len() ==> !markup_significant(s[i]),
    ensures
        escape_text(s) == s,
    decreases s.len(),
{
    if s.len() == 0 {
        assert(escape_text(s) =~= s);
    } else {
        assert(!markup_significant(s[0]));
        lemma_escape_safe_identity(s.drop_first());
        assert(escape_text(s) =~= s);
    }
}

/// Escaped text never holds a raw angle bracket: whatever the untrusted
/// input was, no `<` or `>` of it survives into the transport payload.
pub proof fn lemma_escape_no_raw_markup(s: Seq<char>)
    ensures
        forall|i: int|
            0 <= i < escape_text(s).len() ==> escape_text(s)[i] != '<' && escape_text(s)[i] != '>',
    decreases s.len(),
{
    if s.len() == 0 {
    } else {
        lemma_escape_no_raw_markup(s.drop_first());
        assert forall|i: int| 0 <= i < escape_text(s).len() implies escape_text(s)[i] != '<'
            && escape_text(s)[i] != '>' by {
            if i < escaped_char(s[0]).len() {
                assert(escape_text(s)[i] == escaped_char(s[0])[i]);
            } else {
                assert(escape_text(s)[i] == escape_text(s.drop_first())[i - escaped_char(
                    s[0],
                ).len()]);
            }
        }
    }
}

} // verus!
