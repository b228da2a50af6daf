use vstd::prelude::*;

verus! {

/// The argument at `i` is the definitions-file flag and a value follows it.
pub open spec fn flag_at(args: Seq<String>, i: int) -> bool {
    &&& 0 <= i
    &&& i + 1 < args.len()
    &&& args[i]@ == "-monitorFile"@
}

/// Finds the path of the monitor-definitions file in the command-line
/// arguments: the argument that follows the first `-monitorFile` that has
/// one after it.
pub fn process_args(args: &Vec<String>) -> (r: Option<String>)
    ensures
        match r {
            Some(path) => exists|i: int|
                #![trigger args@[i]]
                flag_at(args@, i) && (forall|j: int| 0 <= j < i ==> !flag_at(args@, j))
                    && path@ == args@[i + 1]@,
            None => forall|i: int| 0 <= i < args@.len() ==> !flag_at(args@, i),
        },
{
    let flag = String::from_str("-monitorFile");
    let mut i: usize = 0;
    while i < args.len()
        invariant
            0 <= i <= args@.len(),
            flag@ == "-monitorFile"@,
            forall|j: int| 0 <= j < i ==> !flag_at(args@, j),
        decreases args@.len() - i,
    {
        if args[i] == flag && i + 1 < args.len() {
            let path = args[i + 1].clone();
            assert(flag_at(args@, i as int));
            return Some(path);
        }
        i = i + 1;
    }
    None
}

} // verus!
