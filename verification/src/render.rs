use vstd::prelude::*;
use vstd::string::{StrSliceExecFns, StringExecFns};

use crate::escape::{encode_text, escape_text, lemma_escape_safe_identity, markup_significant};
use crate::model::AddressValue;

verus! {

/// How one address is shown in the chat payload: a concrete address with a
/// display name is the escaped name followed by the address part between
/// bracket entities, a concrete address without a name stands bare, and
/// anything else — a group, an absent header, or a malformed value without
/// an address part — is shown as the literal text `none`.  The address part
/// itself is not escaped: mail address syntax has no markup-significant
/// characters.
pub open spec fn rendered_address(a: AddressValue) -> Seq<char> {
    match a {
        AddressValue::Single { name, address } => match address {
            Some(ad) => match name {
                Some(n) => escape_text(n@) + " &lt;"@ + ad@ + "&gt;"@,
                None => ad@,
            },
            None => "none"@,
        },
        AddressValue::Other => "none"@,
    }
}

/// The separator line between two text body parts.
pub open spec fn body_separator() -> Seq<char> {
    "\n---\n"@
}

/// Every text body part, joined by the separator line.
pub open spec fn joined_bodies(bodies: Seq<Seq<char>>) -> Seq<char>
    decreases bodies.len(),
{
    if bodies.len() == 0 {
        Seq::empty()
    } else if bodies.len() == 1 {
        bodies[0]
    } else {
        joined_bodies(bodies.drop_last()) + body_separator() + bodies.last()
    }
}

/// The subject line, defaulting to the literal text `no subject`.
pub open spec fn subject_text(subject: Option<String>) -> Seq<char> {
    match subject {
        Some(s) => s@,
        None => "no subject"@,
    }
}

/// The whole chat payload: bold subject, then the two monospace address
/// lines, a blank line, and the escaped, joined body.  Escaping applies to
/// the untrusted subject, names and body, never to the template itself.
pub open spec fn formatted_message(
    subject: Option<String>,
    from: AddressValue,
    to: AddressValue,
    bodies: Seq<Seq<char>>,
) -> Seq<char> {
    "<b>"@ + escape_text(subject_text(subject)) + "</b>\nFrom: <code>"@ + rendered_address(from)
        + "</code>\nTo: <code>"@ + rendered_address(to) + "</code>\n\n"@ + escape_text(
        joined_bodies(bodies),
    )
}

/// Renders one address for the chat payload.
pub fn format_address(a: &AddressValue) -> (r: String)
    ensures
        r@ == rendered_address(*a),
{
    match a {
        AddressValue::Single { name, address: Some(ad) } => match name {
            Some(n) => {
                let mut out = encode_text(n.as_str());
                out.append(" &lt;");
                out.append(ad.as_str());
                out.append("&gt;");
                out
            },
            None => ad.clone(),
        },
        _ => "none".to_owned(),
    }
}

/// Joins every text body part with the separator line.
pub fn join_bodies(bodies: &Vec<String>) -> (r: String)
    ensures
        r@ == joined_bodies(bodies.deep_view()),
{
    let ghost bs = bodies.deep_view();
    let mut out = String::new();
    let mut i: usize = 0;
    while i < bodies.len()
        invariant
            0 <= i <= bodies.len(),
            bs == bodies.deep_view(),
            bs.len() == bodies.len(),
            out@ == joined_bodies(bs.take(i as int)),
        decreases bodies.len() - i,
    {
        if i > 0 {
            out.append("\n---\n");
        }
        out.append(bodies[i].as_str());
        proof {
            assert(bs[i as int] == bodies@[i as int]@);
            let next = bs.take(i as int + 1);
            assert(next.drop_last() =~= bs.take(i as int));
            assert(next.last() == bs[i as int]);
            if i == 0 {
                assert(joined_bodies(next) == next[0]);
            }
        }
        i += 1;
    }
    proof {
        assert(bs.take(bodies@.len() as int) =~= bs);
    }
    out
}

/// Renders subject, addresses and bodies into the one escaped payload that
/// the chat transport carries.
pub fn format_message(
    subject: &Option<String>,
    from: &AddressValue,
    to: &AddressValue,
    bodies: &Vec<String>,
) -> (r: String)
    ensures
        r@ == formatted_message(*subject, *from, *to, bodies.deep_view()),
{
    let subj: String = match subject {
        Some(s) => s.clone(),
        None => "no subject".to_owned(),
    };
    let mut out = "<b>".to_owned();
    let escaped_subject = encode_text(subj.as_str());
    out.append(escaped_subject.as_str());
    out.append("</b>\nFrom: <code>");
    let from_line = format_address(from);
    out.append(from_line.as_str());
    out.append("</code>\nTo: <code>");
    let to_line = format_address(to);
    out.append(to_line.as_str());
    out.append("</code>\n\n");
    let joined = join_bodies(bodies);
    let escaped_body = encode_text(joined.as_str());
    out.append(escaped_body.as_str());
    proof {
        assert(out@ =~= formatted_message(*subject, *from, *to, bodies.deep_view()));
    }
    out
}

/// On already-safe input — a subject and bodies without markup-significant
/// characters — formatting is the identity but for the template: the
/// payload is the template wrapped around the unchanged subject and the
/// unchanged joined body.
pub proof fn lemma_format_safe_input_unchanged(
    subject: Option<String>,
    from: AddressValue,
    to: AddressValue,
    bodies: Seq<Seq<char>>,
)
    requires
        forall|i: int|
            0 <= i < subject_text(subject).len() ==> !markup_significant(subject_text(subject)[i]),
        forall|i: int|
            0 <= i < joined_bodies(bodies).len() ==> !markup_significant(joined_bodies(bodies)[i]),
    ensures
        formatted_message(subject, from, to, bodies) == "<b>"@ + subject_text(subject)
            + "</b>\nFrom: <code>"@ + rendered_address(from) + "</code>\nTo: <code>"@
            + rendered_address(to) + "</code>\n\n"@ + joined_bodies(bodies),
{
    lemma_escape_safe_identity(subject_text(subject));
    lemma_escape_safe_identity(joined_bodies(bodies));
}

/// A display name without markup-significant characters is rendered
/// unchanged inside the bracket template of its address.
pub proof fn lemma_safe_name_renders_unchanged(name: String, address: String)
    requires
        forall|i: int| 0 <= i < name@.len() ==> !markup_significant(name@[i]),
    ensures
        rendered_address(AddressValue::Single { name: Some(name), address: Some(address) })
            == name@ + " &lt;"@ + address@ + "&gt;"@,
{
    lemma_escape_safe_identity(name@);
}

} // verus!
