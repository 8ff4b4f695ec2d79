//! File names as a file dialog hands them back.
use vstd::prelude::*;

verus! {

/// The parts joined with one space between each two.
pub open spec fn joined(parts: Seq<Seq<char>>) -> Seq<char>
    decreases parts.len(),
{
    if parts.len() == 0 {
        Seq::empty()
    } else if parts.len() == 1 {
        parts[0]
    } else {
        joined(parts.drop_last()) + seq![' '] + parts.last()
    }
}

/// A path holding spaces comes back from the dialog split at each space; this
/// joins the parts again. No parts give no path.
pub fn fix_pathbuf_parts(parts: &[String]) -> (r: Option<String>)
    ensures
        parts@.len() == 0 ==> r is None,
        parts@.len() > 0 ==> r is Some && r->0@ == joined(parts@.map_values(|p: String| p@)),
{
    if parts.len() == 0 {
        return None;
    }
    let mut name = parts[0].clone();
    let mut i: usize = 1;
    assert(parts@.take(1).map_values(|p: String| p@) =~= seq![parts@[0]@]);
    while i < parts.len()
        invariant
            1 <= i <= parts@.len(),
            name@ == joined(parts@.take(i as int).map_values(|p: String| p@)),
        decreases parts@.len() - i,
    {
        proof {
            reveal_strlit(" ");
            let v = parts@.take(i + 1).map_values(|p: String| p@);
            assert(v.drop_last() =~= parts@.take(i as int).map_values(|p: String| p@));
        }
        name.append(" ");
        name.append(parts[i].as_str());
        i += 1;
    }
    assert(parts@.take(i as int) =~= parts@);
    Some(name)
}

} // verus!
