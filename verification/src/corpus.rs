//! Which files a profiler compiles, and what its arguments ask for.

use vstd::prelude::*;

verus! {

/// What to do with an entry of a directory.
#[derive(Clone, Copy, Debug, PartialEq, Eq, Structural)]
pub enum WalkStep {
    /// Walk into it.
    Descend,
    /// Compile it.
    Take,
    /// Pass over it.
    Skip,
}

/// The directory that the walk passes over: installed packages are not part of the corpus.
pub open spec fn skipped_dir() -> Seq<char> {
    "node_modules"@
}

/// The extension of the files to compile.
pub open spec fn source_extension() -> Seq<char> {
    "svelte"@
}

/// Whether a name that may be missing reads `text`.
pub open spec fn reads(name: Option<&str>, text: Seq<char>) -> bool {
    name matches Some(name) && name@ == text
}

/// Whether a name that may be missing reads `text`.
fn name_reads(name: Option<&str>, text: &str) -> (r: bool)
    ensures
        r == reads(name, text@),
{
    match name {
        Some(name) => name.to_owned() == text.to_owned(),
        None => false,
    }
}

/// Decides on one entry of a directory: directories are walked, but for the one that holds
/// installed packages; files are compiled by their extension.
pub fn walk_step(is_dir: bool, file_name: Option<&str>, extension: Option<&str>) -> (r: WalkStep)
    ensures
        r == if is_dir {
            if reads(file_name, skipped_dir()) {
                WalkStep::Skip
            } else {
                WalkStep::Descend
            }
        } else if reads(extension, source_extension()) {
            WalkStep::Take
        } else {
            WalkStep::Skip
        },
        r == WalkStep::Take <==> !is_dir && extension is Some && extension->0@ == "svelte"@,
        r == WalkStep::Descend <==> is_dir && !(file_name is Some && file_name->0@
            == "node_modules"@),
{
    if is_dir {
        if name_reads(file_name, "node_modules") {
            WalkStep::Skip
        } else {
            WalkStep::Descend
        }
    } else if name_reads(extension, "svelte") {
        WalkStep::Take
    } else {
        WalkStep::Skip
    }
}

/// The argument that asks for a digest in place of a split.
pub open spec fn hash_flag() -> Seq<char> {
    "--hash"@
}

/// The arguments that name roots: all but the flag, in their order.
pub open spec fn roots_of(args: Seq<Seq<char>>) -> Seq<Seq<char>> {
    args.filter(|arg: Seq<char>| arg != hash_flag())
}

/// What each of `strings` reads.
pub open spec fn texts(strings: Seq<String>) -> Seq<Seq<char>> {
    strings.map_values(|s: String| s@)
}

/// Splits arguments into whether they hold the flag, wherever it stands, and the roots.
pub fn split_args(args: &Vec<String>) -> (r: (bool, Vec<String>))
    ensures
        r.0 == texts(args@).contains(hash_flag()),
        texts(r.1@) == roots_of(texts(args@)),
        r.0 <==> exists|i: int| 0 <= i < args@.len() && (#[trigger] args@[i])@ == "--hash"@,
        r.1@.map_values(|s: String| s@) == args@.map_values(|s: String| s@).filter(
            |arg: Seq<char>| arg != "--hash"@,
        ),
{
    let flag: String = "--hash".to_owned();
    let mut hash_only = false;
    let mut roots: Vec<String> = Vec::new();
    let ghost all = texts(args@);
    let mut i: usize = 0;
    proof {
        reveal(Seq::filter);
        assert(all.take(0) =~= Seq::<Seq<char>>::empty());
    }
    while i < args.len()
        invariant
            i <= args@.len(),
            all == texts(args@),
            flag@ == hash_flag(),
            hash_only == all.take(i as int).contains(hash_flag()),
            texts(roots@) == roots_of(all.take(i as int)),
        decreases args@.len() - i,
    {
        let ghost seen = all.take(i as int);
        let ghost next = all.take(i + 1);
        proof {
            reveal(Seq::filter);
            assert(next.drop_last() =~= seen);
            assert(next =~= seen.push(args@[i as int]@));
        }
        if args[i] == flag {
            hash_only = true;
            assert(next[i as int] == hash_flag());
        } else {
            let ghost before = roots@;
            roots.push(args[i].clone());
            assert(texts(roots@) =~= texts(before).push(args@[i as int]@));
            proof {
                if seen.contains(hash_flag()) {
                    let k = choose|k: int| 0 <= k < seen.len() && seen[k] == hash_flag();
                    assert(next[k] == hash_flag());
                }
            }
        }
        i = i + 1;
    }
    assert(all.take(i as int) =~= all);
    proof {
        assert((|arg: Seq<char>| arg != hash_flag()) =~= (|arg: Seq<char>| arg != "--hash"@));
        if hash_only {
            let k = choose|k: int| 0 <= k < all.len() && all[k] == hash_flag();
            assert(args@[k]@ == "--hash"@);
        } else {
            assert forall|k: int| 0 <= k < args@.len() implies (#[trigger] args@[k])@
                != "--hash"@ by {
                assert(all[k] == args@[k]@);
            }
        }
    }
    (hash_only, roots)
}

/// Every argument is judged on its own and keeps its place: one that reads the flag is no root, any
/// other is one, and the roots of one list after another are the roots of the two joined.
pub proof fn law_every_other_argument_is_a_root(
    arg: Seq<char>,
    first: Seq<Seq<char>>,
    second: Seq<Seq<char>>,
)
    ensures
        roots_of(Seq::empty()) == Seq::<Seq<char>>::empty(),
        arg == "--hash"@ ==> roots_of(seq![arg]) == Seq::<Seq<char>>::empty(),
        arg != "--hash"@ ==> roots_of(seq![arg]) == seq![arg],
        roots_of(first + second) == roots_of(first) + roots_of(second),
{
    reveal(Seq::filter);
    assert(seq![arg].drop_last() =~= Seq::<Seq<char>>::empty());
    assert(roots_of(Seq::empty()) =~= Seq::<Seq<char>>::empty());
    Seq::filter_distributes_over_add(first, second, |other: Seq<char>| other != hash_flag());
}

} // verus!
