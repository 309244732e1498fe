//! Splits the raw arguments of a command into package identifiers and the
//! arguments that are passed through to the tool.

use crate::text::{starts_with, texts};
use vstd::prelude::*;

verus! {

/// Splits raw arguments at the first flag.
pub struct ArgsParser;

/// An argument that looks like a flag: it begins with a hyphen.
pub open spec fn is_flag(arg: Seq<char>) -> bool {
    arg.len() > 0 && arg[0] == '-'
}

/// The position of the first flag among the arguments, or their number if
/// there is none.
pub open spec fn first_flag(args: Seq<Seq<char>>) -> int
    decreases args.len(),
{
    if args.len() == 0 {
        0
    } else if is_flag(args[0]) {
        0
    } else {
        1 + first_flag(args.drop_first())
    }
}

/// The arguments that name packages: those before the first flag.
pub open spec fn packages_of(args: Seq<Seq<char>>) -> Seq<Seq<char>> {
    args.take(first_flag(args))
}

/// The arguments that are passed through: the first flag and all after it.
pub open spec fn passthrough_of(args: Seq<Seq<char>>) -> Seq<Seq<char>> {
    args.skip(first_flag(args))
}

/// The first flag is where no argument before it is a flag and the one at it
/// is.
pub proof fn lemma_first_flag(args: Seq<Seq<char>>, at: int)
    requires
        0 <= at <= args.len(),
        forall|i: int| 0 <= i < at ==> !is_flag(#[trigger] args[i]),
        at < args.len() ==> is_flag(args[at]),
    ensures
        first_flag(args) == at,
    decreases args.len(),
{
    if args.len() > 0 && at > 0 {
        assert(!is_flag(args[0]));
        let rest = args.drop_first();
        assert forall|i: int| 0 <= i < at - 1 implies !is_flag(#[trigger] rest[i]) by {
            assert(rest[i] == args[i + 1]);
        }
        lemma_first_flag(rest, at - 1);
    }
}

impl ArgsParser {
    /// Packages are the arguments before the first flag; from the first flag
    /// on, every argument is passed through, flag or not.
    pub fn parse(args: &[String]) -> (split: (Vec<String>, Vec<String>))
        ensures
            texts(split.0@) == packages_of(texts(args@)),
            texts(split.1@) == passthrough_of(texts(args@)),
            texts(split.0@) + texts(split.1@) == texts(args@),
            forall|i: int| 0 <= i < split.0@.len() ==> !is_flag(#[trigger] split.0@[i]@),
            split.1@.len() > 0 ==> is_flag(split.1@[0]@),
    {
        let mut packages: Vec<String> = Vec::new();
        let mut manager_args: Vec<String> = Vec::new();
        let mut found_flag = false;
        let mut i: usize = 0;
        while i < args.len()
            invariant
                i <= args.len(),
                texts(packages@) + texts(manager_args@) == texts(args@.take(i as int)),
                found_flag == (manager_args@.len() > 0),
                forall|k: int| 0 <= k < packages@.len() ==> !is_flag(#[trigger] packages@[k]@),
                manager_args@.len() > 0 ==> is_flag(manager_args@[0]@),
            decreases args.len() - i,
        {
            let arg = &args[i];
            let ghost before_packages = packages@;
            let ghost before_args = manager_args@;
            proof {
                assert(args@.take(i + 1) =~= args@.take(i as int).push(args@[i as int]));
                assert(texts(args@.take(i + 1)) =~= texts(args@.take(i as int)).push(
                    args@[i as int]@,
                ));
            }
            if !found_flag && !starts_with(arg.as_str(), '-') {
                packages.push(arg.clone());
                proof {
                    assert(before_args.len() == 0);
                    assert(texts(packages@) =~= texts(before_packages).push(arg@));
                    assert(texts(before_args) =~= Seq::<Seq<char>>::empty());
                    assert(texts(packages@) + texts(manager_args@) =~= texts(
                        args@.take(i + 1),
                    ));
                }
            } else {
                found_flag = true;
                manager_args.push(arg.clone());
                proof {
                    assert(texts(manager_args@) =~= texts(before_args).push(arg@));
                    assert(texts(packages@) + texts(manager_args@) =~= (texts(before_packages)
                        + texts(before_args)).push(arg@));
                }
            }
            i += 1;
        }
        assert(args@.take(args.len() as int) =~= args@);
        proof {
            let all = texts(args@);
            let at = packages@.len() as int;
            assert(all =~= texts(packages@) + texts(manager_args@));
            assert forall|k: int| 0 <= k < at implies !is_flag(#[trigger] all[k]) by {
                assert(all[k] == packages@[k]@);
            }
            if at < all.len() {
                assert(all[at] == manager_args@[0]@);
            }
            lemma_first_flag(all, at);
            assert(texts(packages@) =~= all.take(at));
            assert(texts(manager_args@) =~= all.skip(at));
        }
        (packages, manager_args)
    }
}

} // verus!
