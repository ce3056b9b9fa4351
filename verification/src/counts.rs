use vstd::prelude::*;

verus! {

broadcast use vstd::seq_lib::group_seq_properties;

/// The texts of `names`.
pub open spec fn texts(names: Seq<String>) -> Seq<Seq<char>> {
    names.map_values(|s: String| s@)
}

/// The number of distinct texts among `names`.
pub open spec fn distinct_count(names: Seq<String>) -> nat {
    texts(names).to_set().len()
}

/// `names[i]`'s text occurs earlier in `names`.
fn seen_before(names: &Vec<String>, i: usize) -> (r: bool)
    requires
        i < names@.len(),
    ensures
        r == texts(names@).take(i as int).contains(names@[i as int]@),
{
    let mut j: usize = 0;
    while j < i
        invariant
            i < names@.len(),
            j <= i,
            forall|k: int| 0 <= k < j ==> names@[k]@ != names@[i as int]@,
        decreases i - j,
    {
        if names[j] == names[i] {
            proof {
                assert(texts(names@).take(i as int)[j as int] == names@[i as int]@);
            }
            return true;
        }
        j = j + 1;
    }
    proof {
        if texts(names@).take(i as int).contains(names@[i as int]@) {
            let k = choose|k: int| 0 <= k < i && texts(names@).take(i as int)[k] == names@[i as int]@;
            assert(names@[k]@ == names@[i as int]@);
        }
    }
    false
}

/// Adding a name to a listing adds one to its distinct count when the
/// name is new to the listing, and nothing when it is already there; an
/// empty listing counts none.
pub proof fn lemma_distinct_count_push(names: Seq<String>, x: String)
    ensures
        distinct_count(Seq::empty()) == 0,
        distinct_count(names.push(x)) == distinct_count(names) + (if (exists|i: int|
            0 <= i < names.len() && #[trigger] names[i]@ == x@) {
            0int
        } else {
            1int
        }),
{
    let vs = texts(names);
    assert(texts(Seq::<String>::empty()).to_set() =~= Set::<Seq<char>>::empty());
    assert(texts(names.push(x)) =~= vs.push(x@));
    vs.lemma_push_to_set_commute(x@);
    vstd::seq_lib::seq_to_set_is_finite(vs);
    vstd::set::axiom_set_insert_len(vs.to_set(), x@);
    if exists|i: int| 0 <= i < names.len() && #[trigger] names[i]@ == x@ {
        let i = choose|i: int| 0 <= i < names.len() && #[trigger] names[i]@ == x@;
        assert(vs[i] == x@);
        assert(vs.contains(x@));
    } else {
        assert(!vs.contains(x@)) by {
            if vs.contains(x@) {
                let i = choose|i: int| 0 <= i < vs.len() && vs[i] == x@;
                assert(names[i]@ == x@);
            }
        }
    }
}

/// The number of distinct device or interface names in a listing: what
/// sorting the names, removing repeats and counting what is left gives.
pub fn count_distinct(names: &Vec<String>) -> (r: usize)
    ensures
        r == distinct_count(names@),
        r <= names@.len(),
{
    let ghost vs = texts(names@);
    let mut count: usize = 0;
    let mut i: usize = 0;
    proof {
        assert(vs.take(0).to_set() =~= Set::<Seq<char>>::empty());
    }
    while i < names.len()
        invariant
            i <= names@.len(),
            vs == texts(names@),
            count == vs.take(i as int).to_set().len(),
            count <= i,
        decreases names@.len() - i,
    {
        let seen = seen_before(names, i);
        proof {
            assert(vs.take(i as int + 1) =~= vs.take(i as int).push(vs[i as int]));
            vs.take(i as int).lemma_push_to_set_commute(vs[i as int]);
            vstd::seq_lib::seq_to_set_is_finite(vs.take(i as int));
            vstd::set::axiom_set_insert_len(vs.take(i as int).to_set(), vs[i as int]);
            assert(vs.take(i as int).contains(vs[i as int]) <==> vs.take(i as int).to_set().contains(vs[i as int]));
        }
        if !seen {
            count = count + 1;
        }
        i = i + 1;
    }
    proof {
        assert(vs.take(names@.len() as int) =~= vs);
    }
    count
}

/// The count in the first row a counting query returned, 0 when it
/// returned none.
pub fn first_count(rows: &Vec<i64>) -> (r: i64)
    ensures
        rows@.len() == 0 ==> r == 0,
        rows@.len() > 0 ==> r == rows@[0],
{
    if rows.len() == 0 {
        0
    } else {
        rows[0]
    }
}

} // verus!
