use vstd::prelude::*;

use crate::strutil::{
    before_first, before_seq, ends_with_seq, starts_with_seq, str_ends_with, str_eq,
    str_starts_with,
};

verus! {

/// `args` with every element equal to `v` removed, order kept.
pub open spec fn exclude_seq(args: Seq<Seq<char>>, v: Seq<char>) -> Seq<Seq<char>>
    decreases args.len(),
{
    if args.len() == 0 {
        args
    } else if args[0] == v {
        exclude_seq(args.drop_first(), v)
    } else {
        seq![args[0]] + exclude_seq(args.drop_first(), v)
    }
}

/// The arguments with every occurrence of `v` removed.
pub fn exclude(args: Vec<String>, v: &str) -> (r: Vec<String>)
    ensures
        r.deep_view() == exclude_seq(args.deep_view(), v@),
{
    let ghost dv = args.deep_view();
    let mut out: Vec<String> = Vec::new();
    let mut i: usize = 0;
    proof {
        assert(dv.skip(0) =~= dv);
        assert(out.deep_view() =~= Seq::<Seq<char>>::empty());
        assert(Seq::<Seq<char>>::empty() + exclude_seq(dv, v@) =~= exclude_seq(dv, v@));
    }
    while i < args.len()
        invariant
            i <= args@.len(),
            dv == args.deep_view(),
            dv.len() == args@.len(),
            forall|j: int| 0 <= j < args@.len() ==> dv[j] == args@[j]@,
            exclude_seq(dv, v@) == out.deep_view() + exclude_seq(dv.skip(i as int), v@),
        decreases args@.len() - i,
    {
        let keep = !str_eq(args[i].as_str(), v);
        let ghost old_out = out.deep_view();
        if keep {
            out.push(args[i].clone());
            proof {
                assert(out.deep_view() =~= old_out.push(dv[i as int]));
            }
        }
        proof {
            assert(dv.skip(i as int).len() > 0);
            assert(dv.skip(i as int)[0] == dv[i as int]);
            assert(dv.skip(i as int).drop_first() =~= dv.skip(i + 1));
            if keep {
                assert(exclude_seq(dv.skip(i as int), v@) == seq![dv[i as int]] + exclude_seq(
                    dv.skip(i + 1),
                    v@,
                ));
                assert(old_out.push(dv[i as int]) =~= old_out + seq![dv[i as int]]);
                assert(out.deep_view() + exclude_seq(dv.skip(i + 1), v@) =~= old_out + (seq![
                    dv[i as int],
                ] + exclude_seq(dv.skip(i + 1), v@)));
            } else {
                assert(exclude_seq(dv.skip(i as int), v@) == exclude_seq(dv.skip(i + 1), v@));
            }
        }
        i += 1;
    }
    proof {
        assert(dv.skip(args@.len() as int) =~= Seq::<Seq<char>>::empty());
        assert(out.deep_view() + exclude_seq(dv.skip(args@.len() as int), v@) =~= out.deep_view());
    }
    out
}

/// The text is a git clone URL: it ends in `.git` and begins with
/// `http` or `git@`.
pub open spec fn is_git_clone_url_spec(s: Seq<char>) -> bool {
    ends_with_seq(s, ".git"@) && (starts_with_seq(s, "http"@) || starts_with_seq(s, "git@"@))
}

/// Whether the text is a git clone URL, such as `git@xxx/xxx/xxx.git`
/// or `http(s)://xxx/xxx/xxx.git`.
pub fn is_a_git_clone_url(ctx: &str) -> (r: bool)
    ensures
        r == is_git_clone_url_spec(ctx@),
{
    str_ends_with(ctx, ".git") && (str_starts_with(ctx, "http") || str_starts_with(ctx, "git@"))
}

/// The key part of a listed choice: the text before the first ` - `.
pub fn choice_key(text: &str) -> (r: String)
    ensures
        r@ == before_seq(text@, " - "@),
{
    proof {
        reveal_strlit(" - ");
    }
    before_first(text, " - ")
}

} // verus!
