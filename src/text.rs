//! Text forms of vectors.
use vstd::prelude::*;

verus! {

/// The parts separated by `", "`.
pub open spec fn joined(parts: Seq<Seq<char>>) -> Seq<char>
    decreases parts.len(),
{
    if parts.len() == 0 {
        Seq::empty()
    } else if parts.len() == 1 {
        parts[0]
    } else {
        joined(parts.drop_last()) + ", "@ + parts.last()
    }
}

/// The text of a vector whose coordinates read as `parts`: `Vector: [p0, p1, ...]`.
pub open spec fn rendered(parts: Seq<Seq<char>>) -> Seq<char> {
    "Vector: ["@ + joined(parts) + "]"@
}

/// The character views of a sequence of strings.
pub open spec fn views_of(parts: Seq<String>) -> Seq<Seq<char>> {
    parts.map_values(|p: String| p@)
}

/// Relies on `String::push_str`: appends `t` at the end of `s`.
#[verifier::external_body]
fn append(s: &mut String, t: &str)
    ensures
        final(s)@ == old(s)@ + t@,
{
    s.push_str(t)
}

/// Relies on `Debug` formatting (`{:?}`) of a coordinate; nothing is assumed of the text.
#[verifier::external_body]
pub(crate) fn debug_text<T: core::fmt::Debug>(x: &T) -> String {
    format!("{:?}", x)
}

/// Lays out already formatted coordinates as `Vector: [p0, p1, ...]`.
pub fn render_coordinates(parts: &Vec<String>) -> (r: String)
    ensures
        r@ == rendered(views_of(parts@)),
{
    proof {
        reveal_strlit("Vector: [");
        reveal_strlit(", ");
        reveal_strlit("]");
    }
    let mut out = "Vector: [".to_owned();
    let mut i: usize = 0;
    while i < parts.len()
        invariant
            i <= parts@.len(),
            out@ == "Vector: ["@ + joined(views_of(parts@.subrange(0, i as int))),
        decreases parts@.len() - i,
    {
        proof {
            let pre = views_of(parts@.subrange(0, i as int));
            let post = views_of(parts@.subrange(0, i + 1));
            assert(post.drop_last() =~= pre);
        }
        if i > 0 {
            append(&mut out, ", ");
        }
        append(&mut out, parts[i].as_str());
        i += 1;
    }
    assert(parts@.subrange(0, parts@.len() as int) =~= parts@);
    append(&mut out, "]");
    out
}

} // verus!
