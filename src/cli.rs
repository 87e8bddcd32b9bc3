//! Rules on the command line and the environment that apply before the
//! arguments are parsed.
use vstd::prelude::*;

use crate::model::{contains_str, str_set};

verus! {

/// The arguments before the first `--`.
pub open spec fn options_part(args: Seq<String>) -> Seq<String>
    decreases args.len(),
{
    if args.len() == 0 {
        args
    } else if args[0]@ == "--"@ {
        Seq::empty()
    } else {
        seq![args[0]].add(options_part(args.drop_first()))
    }
}

/// Whether one of `flags` is given before the first `--` of `args`; what
/// follows `--` belongs to the command being run.
pub fn has_flag(args: &Vec<String>, flags: &Vec<String>) -> (r: bool)
    ensures
        r == exists|i: int|
            0 <= i < options_part(args@).len() && str_set(flags@).contains(
                #[trigger] options_part(args@)[i]@,
            ),
{
    let separator = "--".to_owned();
    let mut i: usize = 0;
    assert(args@.skip(0) =~= args@);
    assert(args@.take(0).add(options_part(args@)) =~= options_part(args@));
    while i < args.len()
        invariant
            i <= args@.len(),
            separator@ == "--"@,
            forall|j: int| 0 <= j < i ==> args@[j]@ != "--"@ && !str_set(flags@).contains(args@[j]@),
            options_part(args@) == args@.take(i as int).add(options_part(args@.skip(i as int))),
        decreases args@.len() - i,
    {
        assert(args@.skip(i as int)[0] == args@[i as int]);
        if args[i] == separator {
            assert(options_part(args@.skip(i as int)) =~= Seq::<String>::empty());
            assert(options_part(args@) =~= args@.take(i as int));
            return false;
        }
        assert(args@.skip(i as int).drop_first() =~= args@.skip(i + 1));
        assert(args@.take(i + 1) =~= args@.take(i as int).push(args@[i as int]));
        assert(options_part(args@) =~= args@.take(i + 1).add(options_part(args@.skip(i + 1))));
        if contains_str(flags, &args[i]) {
            assert(options_part(args@)[i as int] == args@[i as int]);
            return true;
        }
        i = i + 1;
    }
    assert(args@.skip(i as int) =~= Seq::<String>::empty());
    assert(options_part(args@) =~= args@);
    false
}

/// Whether the value of `RIFF_DISABLE_TELEMETRY` (or, in its absence, of
/// `RIFF_OFFLINE`) leaves telemetry on: unset, empty, `false` or `0`.
pub fn telemetry_allowed_by_env(value: Option<&String>) -> (r: bool)
    ensures
        r == match value {
            None => true,
            Some(v) => v@ == "false"@ || v@ == "0"@ || v@.len() == 0,
        },
{
    match value {
        None => true,
        Some(v) => {
            let no = "false".to_owned();
            let zero = "0".to_owned();
            *v == no || *v == zero || v.as_str().is_empty()
        },
    }
}

} // verus!
