//! The trace line that names a command before it is launched.

use vstd::prelude::*;

verus! {

/// Each argument, preceded by one space, one after another.
pub open spec fn spaced_args(args: Seq<Seq<char>>) -> Seq<char>
    decreases args.len(),
{
    if args.len() == 0 {
        Seq::empty()
    } else {
        spaced_args(args.drop_last()) + " "@ + args.last()
    }
}

/// The program followed by its arguments, separated by single spaces.
pub open spec fn command_text(program: Seq<char>, args: Seq<Seq<char>>) -> Seq<char> {
    program + spaced_args(args)
}

pub open spec fn views_of(args: Seq<String>) -> Seq<Seq<char>> {
    args.map_values(|a: String| a@)
}

/// The program and its arguments as one readable line of text.
pub fn command_line(program: &str, args: &Vec<String>) -> (r: String)
    ensures
        r@ == command_text(program@, views_of(args@)),
{
    let mut text = String::from_str(program);
    let mut i: usize = 0;
    while i < args.len()
        invariant
            i <= args.len(),
            text@ == command_text(program@, views_of(args@.subrange(0, i as int))),
        decreases args.len() - i,
    {
        proof {
            reveal_strlit(" ");
        }
        text.append(" ");
        text.append(args[i].as_str());
        proof {
            let next = views_of(args@.subrange(0, i + 1));
            assert(next.drop_last() =~= views_of(args@.subrange(0, i as int)));
            assert(next.last() == args@[i as int]@);
        }
        i = i + 1;
    }
    assert(args@.subrange(0, args.len() as int) =~= args@);
    text
}

/// The debug line recorded before a command is launched:
/// ``Command `program arg1 arg2` ``.
pub fn trace_line(program: &str, args: &Vec<String>) -> (r: String)
    ensures
        r@ == "Command `"@ + command_text(program@, views_of(args@)) + "`"@,
{
    let text = command_line(program, args);
    let mut line = String::from_str("Command `");
    line.append(text.as_str());
    line.append("`");
    proof {
        reveal_strlit("Command `");
        reveal_strlit("`");
    }
    line
}

} // verus!
