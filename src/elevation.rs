//! Running a program with elevated rights: the PowerShell command that asks
//! for consent and hands back the program's exit code.
use vstd::prelude::*;
use crate::text::cat;

verus! {

/// `s` with every `'` doubled, as a PowerShell single-quoted string needs.
pub open spec fn ps_escaped(s: Seq<char>) -> Seq<char>
    decreases s.len(),
{
    if s.len() == 0 {
        Seq::empty()
    } else if s.last() == '\'' {
        ps_escaped(s.drop_last()) + seq!['\'', '\'']
    } else {
        ps_escaped(s.drop_last()).push(s.last())
    }
}

/// `s` as a PowerShell single-quoted string.
pub open spec fn ps_quoted(s: Seq<char>) -> Seq<char> {
    seq!['\''] + ps_escaped(s) + seq!['\'']
}

/// The quoted arguments, separated by `, `.
pub open spec fn ps_arg_list(args: Seq<Seq<char>>) -> Seq<char>
    decreases args.len(),
{
    if args.len() == 0 {
        Seq::empty()
    } else if args.len() == 1 {
        ps_quoted(args[0])
    } else {
        ps_arg_list(args.drop_last()) + seq![',', ' '] + ps_quoted(args.last())
    }
}

/// `s` as a PowerShell single-quoted string.
pub fn ps_quote(s: &str) -> (r: String)
    ensures
        r@ == ps_quoted(s@),
{
    proof {
        reveal_strlit("'");
    }
    let n = s.unicode_len();
    let mut r = String::from_str("'");
    let mut i: usize = 0;
    while i < n
        invariant
            n == s@.len(),
            i <= n,
            r@ == seq!['\''] + ps_escaped(s@.take(i as int)),
        decreases n - i,
    {
        assert(s@.take(i as int + 1).drop_last() =~= s@.take(i as int));
        let c = s.get_char(i);
        assert(s@.take(i as int + 1).last() == c);
        let ghost before = r@;
        if c == '\'' {
            proof {
                reveal_strlit("''");
            }
            r.append("''");
            assert(r@ =~= before + seq!['\'', '\'']);
        } else {
            let one = s.substring_char(i, i + 1);
            assert(one@ =~= seq![c]);
            r.append(one);
            assert(r@ =~= before.push(c));
        }
        i = i + 1;
        assert(r@ =~= seq!['\''] + ps_escaped(s@.take(i as int)));
    }
    assert(s@.take(n as int) =~= s@);
    let q = r.concat("'");
    assert(q@ =~= ps_quoted(s@));
    q
}

/// The PowerShell command that starts `program` with `args` elevated,
/// waits for it, and exits with its exit code, or with 1 where the user
/// refused or it could not start.
pub open spec fn admin_command_spec(program: Seq<char>, args: Seq<Seq<char>>) -> Seq<char> {
    "try { $p = Start-Process -FilePath "@ + ps_quoted(program) + " -ArgumentList @("@ + ps_arg_list(args)
        + ") -Verb RunAs -Wait -PassThru -WindowStyle Hidden; if ($p) { exit $p.ExitCode } else { exit 1 } } catch { exit 1 }"@
}

pub open spec fn arg_views(args: Seq<String>) -> Seq<Seq<char>> {
    args.map_values(|a: String| a@)
}

/// The PowerShell command that runs `program` with `args` elevated.
pub fn admin_command(program: &str, args: &Vec<String>) -> (r: String)
    ensures
        r@ == admin_command_spec(program@, arg_views(args@)),
{
    let mut list = String::new();
    let mut i: usize = 0;
    while i < args.len()
        invariant
            i <= args@.len(),
            list@ == ps_arg_list(arg_views(args@).take(i as int)),
        decreases args.len() - i,
    {
        let ghost done = arg_views(args@).take(i as int);
        assert(arg_views(args@).take(i as int + 1).drop_last() =~= done);
        let q = ps_quote(args[i].as_str());
        if i == 0 {
            list = q;
            assert(list@ =~= ps_arg_list(arg_views(args@).take(1)));
        } else {
            proof {
                reveal_strlit(", ");
            }
            list.append(", ");
            list.append(q.as_str());
            assert(list@ =~= ps_arg_list(done) + seq![',', ' '] + ps_quoted(args@[i as int]@));
        }
        i = i + 1;
    }
    assert(arg_views(args@).take(args@.len() as int) =~= arg_views(args@));
    let head = cat("try { $p = Start-Process -FilePath ", ps_quote(program).as_str());
    let mid = head.concat(" -ArgumentList @(").concat(list.as_str());
    mid.concat(") -Verb RunAs -Wait -PassThru -WindowStyle Hidden; if ($p) { exit $p.ExitCode } else { exit 1 } } catch { exit 1 }")
}

} // verus!
