//! Debug labels for the objects a rendering backend creates: a base name
//! with a list of postfixes appended.

use vstd::prelude::*;
use vstd::string::StringExecFns;

verus! {

/// The stand-in base for a label whose owner gave it no name.
pub const UNNAMED: &'static str = "Unnamed";

/// All the given parts appended in order.
pub open spec fn concat_parts(parts: Seq<Seq<char>>) -> Seq<char>
    decreases parts.len(),
{
    if parts.len() == 0 {
        Seq::empty()
    } else {
        concat_parts(parts.drop_last()) + parts.last()
    }
}

/// The characters of the label built from a name and its postfixes: the
/// name, or the stand-in when there is none, with every postfix appended in
/// order.
pub open spec fn label_chars(name: Option<&str>, parts: Seq<Seq<char>>) -> Seq<char> {
    (match name {
        Some(n) => n@,
        None => UNNAMED@,
    }) + concat_parts(parts)
}

/// Builds a label: the object's name, or `"Unnamed"` in its place, with each
/// postfix appended in order. A label always comes back.
pub fn get_default_label(name: &Option<&str>, postfixs: &Vec<&str>) -> (r: Option<String>)
    ensures
        r matches Some(s) && s@ == label_chars(*name, postfixs@.map_values(|p: &str| p@)),
{
    let ghost parts = postfixs@.map_values(|p: &str| p@);
    let base: &str = match name {
        Some(n) => n,
        None => UNNAMED,
    };
    let mut s: String = base.to_string();
    proof {
        assert(base@ + Seq::<char>::empty() =~= base@);
    }
    let mut i: usize = 0;
    while i < postfixs.len()
        invariant
            i <= postfixs.len(),
            parts == postfixs@.map_values(|p: &str| p@),
            s@ == label_chars(*name, parts.take(i as int)),
        decreases postfixs.len() - i,
    {
        s.append(postfixs[i]);
        proof {
            assert(parts.take(i + 1).drop_last() =~= parts.take(i as int));
        }
        i = i + 1;
    }
    proof {
        assert(parts.take(postfixs@.len() as int) =~= parts);
    }
    Some(s)
}

} // verus!
