use vstd::prelude::*;

verus! {

/// The lower-case form of a string, as `str::to_lowercase` gives it.
pub uninterp spec fn lower_of(s: Seq<char>) -> Seq<char>;

/// Relies on `str::to_lowercase`: the lower-case form depends on the
/// characters alone. Its characters are handed back one by one.
#[verifier::external_body]
fn lowercase_chars(s: &str) -> (r: Vec<char>)
    ensures
        r@ == lower_of(s@),
{
    s.to_lowercase().chars().collect()
}

/// The marker that a controller's lower-case name must hold.
pub open spec fn xbox_marker() -> Seq<char> {
    seq!['x', 'b', 'o', 'x']
}

/// Whether `marker` occurs in `text` at position `i`.
pub open spec fn occurs_at(text: Seq<char>, marker: Seq<char>, i: int) -> bool {
    0 <= i && i + marker.len() <= text.len() && text.subrange(i, i + marker.len()) == marker
}

/// Whether an already lower-cased name mentions the marker anywhere.
pub open spec fn mentions_xbox(lowered: Seq<char>) -> bool {
    exists|i: int| occurs_at(lowered, xbox_marker(), i)
}

/// Whether the lower-cased name `lowered` holds "xbox".
pub fn contains_xbox(lowered: &Vec<char>) -> (r: bool)
    ensures
        r == mentions_xbox(lowered@),
{
    let n = lowered.len();
    if n < 4 {
        return false;
    }
    let mut i: usize = 0;
    while i <= n - 4
        invariant
            n == lowered@.len(),
            n >= 4,
            i <= n - 3,
            forall|j: int| 0 <= j < i ==> !occurs_at(lowered@, xbox_marker(), j),
        decreases n - i,
    {
        if lowered[i] == 'x' && lowered[i + 1] == 'b' && lowered[i + 2] == 'o' && lowered[i + 3]
            == 'x' {
            assert(lowered@.subrange(i as int, i + 4) =~= xbox_marker());
            assert(occurs_at(lowered@, xbox_marker(), i as int));
            return true;
        }
        assert(!occurs_at(lowered@, xbox_marker(), i as int)) by {
            if occurs_at(lowered@, xbox_marker(), i as int) {
                let sub = lowered@.subrange(i as int, i + 4);
                assert(sub[0] == lowered@[i as int]);
                assert(sub[1] == lowered@[i + 1]);
                assert(sub[2] == lowered@[i + 2]);
                assert(sub[3] == lowered@[i + 3]);
            }
        }
        i = i + 1;
    }
    assert forall|j: int| !occurs_at(lowered@, xbox_marker(), j) by {
        if j >= i {
            assert(j + 4 > n);
        }
    }
    false
}

/// Whether a device name, in any case, names an Xbox controller.
pub fn is_xbox_name(name: &str) -> (r: bool)
    ensures
        r == mentions_xbox(lower_of(name@)),
{
    let lowered = lowercase_chars(name);
    contains_xbox(&lowered)
}

/// The position of the last device whose name names an Xbox controller, if
/// any; devices are given by name in the order they were found.
pub fn select_controller(names: &Vec<String>) -> (r: Option<usize>)
    ensures
        r is None <==> forall|i: int| 0 <= i < names@.len() ==> !mentions_xbox(lower_of(names@[i]@)),
        r matches Some(k) ==> k < names@.len() && mentions_xbox(lower_of(names@[k as int]@))
            && forall|i: int| k < i < names@.len() ==> !mentions_xbox(lower_of(names@[i]@)),
{
    let mut found: Option<usize> = None;
    let mut i: usize = 0;
    while i < names.len()
        invariant
            i <= names@.len(),
            found is None <==> forall|j: int| 0 <= j < i ==> !mentions_xbox(lower_of(names@[j]@)),
            found matches Some(k) ==> k < i && mentions_xbox(lower_of(names@[k as int]@))
                && forall|j: int| k < j < i ==> !mentions_xbox(lower_of(names@[j]@)),
        decreases names@.len() - i,
    {
        if is_xbox_name(names[i].as_str()) {
            found = Some(i);
        }
        i = i + 1;
    }
    found
}

} // verus!
