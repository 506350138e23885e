use vstd::prelude::*;

verus! {

/// `i` is the first position in `args` whose name is `name`.
pub open spec fn is_first_key<V>(args: Seq<(String, V)>, name: Seq<char>, i: int) -> bool {
    &&& 0 <= i < args.len()
    &&& args[i].0@ == name
    &&& forall|j: int| 0 <= j < i ==> args[j].0@ != name
}

/// The first entry of `args` named `name`, if any.
pub open spec fn lookup<V>(args: Seq<(String, V)>, name: Seq<char>) -> Option<V> {
    if exists|i: int| is_first_key(args, name, i) {
        Some(args[choose|i: int| is_first_key(args, name, i)].1)
    } else {
        None
    }
}

/// The position of the first entry of `args` named `name`.
pub fn find_argument<V>(args: &Vec<(String, V)>, name: &str) -> (r: Option<usize>)
    ensures
        r matches Some(i) ==> is_first_key(args@, name@, i as int)
            && lookup(args@, name@) == Some(args@[i as int].1),
        r is None <==> lookup(args@, name@) is None,
{
    let key = name.to_owned();
    let mut i: usize = 0;
    while i < args.len()
        invariant
            i <= args@.len(),
            key@ == name@,
            forall|j: int| 0 <= j < i ==> args@[j].0@ != name@,
        decreases args@.len() - i,
    {
        if args[i].0 == key {
            proof {
                assert(is_first_key(args@, name@, i as int));
                let k = choose|k: int| is_first_key(args@, name@, k);
                assert(k == i as int) by {
                    if k < i {
                    } else if k > i {
                        assert(args@[i as int].0@ != name@);
                    }
                }
            }
            return Some(i);
        }
        i += 1;
    }
    None
}

} // verus!
