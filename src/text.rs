use vstd::prelude::*;

verus! {

/// The characters of an optional string.
pub open spec fn opt_str_view(o: Option<String>) -> Option<Seq<char>> {
    match o {
        Some(s) => Some(s@),
        None => None,
    }
}

/// The characters of each string of a list, in order.
pub open spec fn list_view(v: Seq<String>) -> Seq<Seq<char>> {
    v.map_values(|s: String| s@)
}

/// The characters of each string of an optional list.
pub open spec fn opt_list_view(o: Option<Vec<String>>) -> Option<Seq<Seq<char>>> {
    match o {
        Some(v) => Some(list_view(v@)),
        None => None,
    }
}

/// An owned copy of a string slice.
pub fn owned(s: &str) -> (r: String)
    ensures
        r@ == s@,
{
    s.to_string()
}

/// Owned copies of a list of string slices, in order.
pub fn owned_list(items: Vec<&str>) -> (r: Vec<String>)
    ensures
        list_view(r@) == items@.map_values(|s: &str| s@),
{
    let mut out: Vec<String> = Vec::new();
    let mut i: usize = 0;
    while i < items.len()
        invariant
            i <= items@.len(),
            out@.len() == i,
            forall|j: int| 0 <= j < i ==> #[trigger] out@[j]@ == items@[j]@,
        decreases items@.len() - i,
    {
        let s = owned(items[i]);
        out.push(s);
        i = i + 1;
    }
    assert(list_view(out@) =~= items@.map_values(|s: &str| s@));
    out
}

} // verus!
