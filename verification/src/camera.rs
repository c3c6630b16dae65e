use vstd::prelude::*;

verus! {

/// The three components of a camera vector given on the command line: the
/// option counts only when it is present with exactly three values;
/// otherwise the camera falls back to its default.
pub fn camera_triple<T: Copy>(v: &Option<Vec<T>>) -> (res: Option<[T; 3]>)
    ensures
        match v {
            Some(w) => if w@.len() == 3 {
                res == Some([w@[0], w@[1], w@[2]])
            } else {
                res is None
            },
            None => res is None,
        },
{
    match v {
        Some(w) => {
            if w.len() == 3 {
                Some([w[0], w[1], w[2]])
            } else {
                None
            }
        },
        None => None,
    }
}

} // verus!
