//! The device locator: picks the camera among the peripherals a scan has
//! found, by their advertised names.
use vstd::prelude::*;

verus! {

/// `pattern` occurs in `s` as a contiguous run of characters.
pub open spec fn has_substring(s: Seq<char>, pattern: Seq<char>) -> bool {
    exists|i: int|
        0 <= i && i + pattern.len() <= s.len() && #[trigger] s.subrange(i, i + pattern.len())
            == pattern
}

/// Relies on `str::contains` with a `&str` pattern: true exactly when the
/// pattern occurs in `s` as a contiguous substring.
#[verifier::external_body]
fn str_contains(s: &str, pattern: &str) -> (r: bool)
    ensures
        r == has_substring(s@, pattern@),
{
    s.contains(pattern)
}

/// Selects peripherals whose advertised local name contains a fragment.
#[derive(Clone, Debug)]
pub struct NameFilter {
    pub fragment: String,
}

impl NameFilter {
    /// A peripheral is selected when it advertises a name and that name
    /// contains the fragment.
    pub open spec fn selects(&self, name: Option<String>) -> bool {
        match name {
            Some(n) => has_substring(n@, self.fragment@),
            None => false,
        }
    }

    /// The filter for the cameras this library talks to, whose names hold
    /// "GoPro".
    pub fn camera() -> (f: NameFilter)
        ensures
            f.fragment@ == "GoPro"@,
    {
        NameFilter { fragment: String::from_str("GoPro") }
    }

    /// Whether a peripheral advertising `name` is selected.
    pub fn matches(&self, name: &Option<String>) -> (r: bool)
        ensures
            r == self.selects(*name),
    {
        match name {
            Some(n) => str_contains(n.as_str(), self.fragment.as_str()),
            None => false,
        }
    }
}

/// Finds the first peripheral, in scan order, whose advertised name the
/// filter selects. `names[i]` is the local name advertised by the i-th
/// peripheral, `None` where it advertises none. Finding none is no error.
pub fn find_device(names: &Vec<Option<String>>, filter: &NameFilter) -> (r: Option<usize>)
    ensures
        match r {
            Some(k) => {
                &&& k < names@.len()
                &&& names@[k as int].is_some()
                &&& filter.selects(names@[k as int])
                &&& forall|i: int| 0 <= i < k ==> !filter.selects(#[trigger] names@[i])
            },
            None => forall|i: int| 0 <= i < names@.len() ==> !filter.selects(#[trigger] names@[i]),
        },
{
    let mut i: usize = 0;
    while i < names.len()
        invariant
            i <= names@.len(),
            forall|j: int| 0 <= j < i ==> !filter.selects(#[trigger] names@[j]),
        decreases names@.len() - i,
    {
        if filter.matches(&names[i]) {
            return Some(i);
        }
        i = i + 1;
    }
    None
}

} // verus!
