use vstd::prelude::*;
use crate::error::StationError;
use crate::text::{chars_of, find_last, last_pos, lemma_last_pos_range, lemma_split_on_nonempty, split_on, split_str};

verus! {

/// The part of a file name before its last `.`; the whole name if it has none.
pub open spec fn base_part(name: Seq<char>) -> Seq<char> {
    let d = last_pos(name, '.');
    if d >= 0 {
        name.subrange(0, d)
    } else {
        name
    }
}

/// The part of a file name after its last `.`; empty if it has none.
pub open spec fn ext_part(name: Seq<char>) -> Seq<char> {
    let d = last_pos(name, '.');
    if d >= 0 {
        name.subrange(d + 1, name.len() as int)
    } else {
        Seq::empty()
    }
}

/// The fields of a file name: its base split on `_`, then the extension as
/// one more field (empty when the name has no `.`).
pub open spec fn segments(name: Seq<char>) -> Seq<Seq<char>> {
    split_on(base_part(name), '_').push(ext_part(name))
}

/// The outcome that `extract` owes for `name` and `index`.
pub open spec fn extract_spec(name: Seq<char>, index: usize, r: Result<String, StationError>) -> bool {
    &&& (index < segments(name).len() <==> r is Ok)
    &&& r matches Ok(v) ==> v@ == segments(name)[index as int]
    &&& r matches Err(e) ==> (e matches StationError::IndexOutOfRange { name: n, index: k, count: c }
        && n@ == name && k == index && c == segments(name).len())
}

/// The field of `name` at position `index` (counted from 0, see `segments`).
/// Fails with `IndexOutOfRange`, carrying the field count, when there is no
/// such field.
pub fn extract(name: &str, index: usize) -> (r: Result<String, StationError>)
    ensures
        extract_spec(name@, index, r),
{
    let cs = chars_of(name);
    proof {
        lemma_last_pos_range(name@, '.');
    }
    let (base, ext) = match find_last(&cs, '.') {
        Some(d) => (name.substring_char(0, d), name.substring_char(d + 1, cs.len()).to_owned()),
        None => (name, String::new()),
    };
    assert(base@ == base_part(name@));
    assert(ext@ == ext_part(name@));
    let mut fields = split_str(base, '_');
    proof {
        lemma_split_on_nonempty(base@, '_');
    }
    let ghost before = fields@.map_values(|p: String| p@);
    fields.push(ext);
    assert(fields@.map_values(|p: String| p@) =~= segments(name@)) by {
        assert(fields@.map_values(|p: String| p@) =~= before.push(ext@));
    }
    if index >= fields.len() {
        return Err(StationError::IndexOutOfRange { name: name.to_owned(), index, count: fields.len() });
    }
    assert(fields@[index as int]@ == segments(name@)[index as int]);
    Ok(fields[index].clone())
}

} // verus!
