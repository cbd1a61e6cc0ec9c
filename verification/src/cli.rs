//! Command-line option extraction: which log file and proxy data directory
//! the bridge should use. Arguments look like `--log_file=PATH`; the value is
//! whatever stands between the first `=` and the next `=` or the end, and a
//! later flag overrides an earlier one.

use vstd::prelude::*;

use crate::text::{
    arg_views, chars_of, find_if, is_space, lemma_find_if_found, lemma_find_if_none, opt_str_view,
    space_pred, starts_with, starts_with_str, string_of_range,
};

verus! {

pub struct CliOptions {
    pub log_file: Option<String>,
    pub tor_dir: Option<String>,
}

/// "Is an `=` sign" as a first-class predicate.
pub open spec fn eq_sign_pred() -> spec_fn(char) -> bool {
    |c: char| c == '='
}

/// The value carried by a `name=value` argument: the characters between the
/// first `=` and the following `=` or the end; nothing if there is no `=`.
pub open spec fn arg_value(a: Seq<char>) -> Option<Seq<char>> {
    let i = find_if(a, eq_sign_pred());
    if i < 0 {
        None
    } else {
        let rest = a.subrange(i + 1, a.len() as int);
        let j = find_if(rest, eq_sign_pred());
        if j < 0 {
            Some(rest)
        } else {
            Some(rest.subrange(0, j))
        }
    }
}

pub open spec fn is_log_file_flag(a: Seq<char>) -> bool {
    starts_with(a, "--log_file="@) || starts_with(a, "--log-file="@) || starts_with(a, "-l="@)
}

pub open spec fn is_tor_dir_flag(a: Seq<char>) -> bool {
    starts_with(a, "--tor_dir="@) || starts_with(a, "--tor-dir="@) || starts_with(a, "-t="@)
}

pub open spec fn log_file_flag_pred() -> spec_fn(Seq<char>) -> bool {
    |a: Seq<char>| is_log_file_flag(a)
}

pub open spec fn tor_dir_flag_pred() -> spec_fn(Seq<char>) -> bool {
    |a: Seq<char>| is_tor_dir_flag(a)
}

/// The value of the last argument that `flag` recognizes, if any.
pub open spec fn last_flag_value(args: Seq<Seq<char>>, flag: spec_fn(Seq<char>) -> bool) -> Option<
    Seq<char>,
>
    decreases args.len(),
{
    if args.len() == 0 {
        None
    } else if flag(args.last()) {
        arg_value(args.last())
    } else {
        last_flag_value(args.drop_last(), flag)
    }
}

/// Finds the first `=` of `v` at or after `from`.
fn find_eq(v: &Vec<char>, from: usize) -> (r: Option<usize>)
    requires
        from <= v@.len(),
    ensures
        ({
            let f = find_if(v@.subrange(from as int, v@.len() as int), eq_sign_pred());
            match r {
                Some(i) => from + f == i && f >= 0 && i < v@.len(),
                None => f == -1,
            }
        }),
{
    let ghost tail = v@.subrange(from as int, v@.len() as int);
    let n = v.len();
    let mut i: usize = from;
    while i < n
        invariant
            from <= i <= n == v@.len(),
            tail == v@.subrange(from as int, v@.len() as int),
            forall|k: int| 0 <= k < i - from ==> #[trigger] tail[k] != '=',
        decreases n - i,
    {
        if v[i] == '=' {
            proof {
                assert(forall|k: int| 0 <= k < i - from ==> !eq_sign_pred()(#[trigger] tail[k]));
                lemma_find_if_found(tail, eq_sign_pred(), i - from);
            }
            return Some(i);
        }
        i += 1;
    }
    proof {
        assert(forall|k: int| 0 <= k < tail.len() ==> !eq_sign_pred()(#[trigger] tail[k]));
        lemma_find_if_none(tail, eq_sign_pred());
    }
    None
}

/// The `value` of a single `name=value` argument.
pub fn get_arg_val(arg: &str) -> (r: Option<String>)
    ensures
        opt_str_view(r) == arg_value(arg@),
{
    let v = chars_of(arg);
    let vn = v.len();
    proof {
        assert(v@.subrange(0, v@.len() as int) =~= v@);
    }
    let first = match find_eq(&v, 0) {
        Some(i) => i,
        None => {
            return None;
        },
    };
    let ghost rest = v@.subrange(first + 1, v@.len() as int);
    let val = match find_eq(&v, first + 1) {
        Some(j) => {
            proof {
                assert(rest.subrange(0, j - (first + 1)) =~= v@.subrange(first + 1, j as int));
            }
            string_of_range(&v, first + 1, j)
        },
        None => string_of_range(&v, first + 1, vn),
    };
    Some(val)
}

fn is_log_file_flag_exec(arg: &str) -> (r: bool)
    ensures
        r == is_log_file_flag(arg@),
{
    starts_with_str(arg, "--log_file=") || starts_with_str(arg, "--log-file=") || starts_with_str(
        arg,
        "-l=",
    )
}

fn is_tor_dir_flag_exec(arg: &str) -> (r: bool)
    ensures
        r == is_tor_dir_flag(arg@),
{
    starts_with_str(arg, "--tor_dir=") || starts_with_str(arg, "--tor-dir=") || starts_with_str(
        arg,
        "-t=",
    )
}

/// Reads the recognized flags out of an argument list; the last occurrence of
/// a flag wins.
pub fn get_cli_options(args: &Vec<String>) -> (r: CliOptions)
    ensures
        opt_str_view(r.log_file) == last_flag_value(arg_views(args@), log_file_flag_pred()),
        opt_str_view(r.tor_dir) == last_flag_value(arg_views(args@), tor_dir_flag_pred()),
{
    let mut opts = CliOptions { log_file: None, tor_dir: None };
    let n = args.len();
    let mut i: usize = 0;
    while i < n
        invariant
            0 <= i <= n == args@.len(),
            opt_str_view(opts.log_file) == last_flag_value(
                arg_views(args@.subrange(0, i as int)),
                log_file_flag_pred(),
            ),
            opt_str_view(opts.tor_dir) == last_flag_value(
                arg_views(args@.subrange(0, i as int)),
                tor_dir_flag_pred(),
            ),
        decreases n - i,
    {
        let arg = &args[i];
        if is_log_file_flag_exec(arg.as_str()) {
            opts.log_file = get_arg_val(arg.as_str());
        }
        if is_tor_dir_flag_exec(arg.as_str()) {
            opts.tor_dir = get_arg_val(arg.as_str());
        }
        proof {
            let pre = arg_views(args@.subrange(0, i as int));
            let cur = arg_views(args@.subrange(0, i + 1));
            assert(cur.last() == args@[i as int]@);
            assert(cur.drop_last() =~= pre);
            assert(log_file_flag_pred()(cur.last()) == is_log_file_flag(args@[i as int]@));
            assert(tor_dir_flag_pred()(cur.last()) == is_tor_dir_flag(args@[i as int]@));
        }
        i += 1;
    }
    proof {
        assert(args@.subrange(0, n as int) =~= args@);
    }
    opts
}

/// Splits `s` at every whitespace character; adjacent separators yield empty
/// pieces, exactly as the callers that assemble command strings expect.
pub open spec fn split_ws(s: Seq<char>) -> Seq<Seq<char>>
    decreases s.len(),
{
    let j = find_if(s, space_pred());
    if 0 <= j < s.len() {
        seq![s.subrange(0, j)] + split_ws(s.subrange(j + 1, s.len() as int))
    } else {
        seq![s]
    }
}

/// Splits a command line into whitespace-separated arguments.
pub fn get_args_from_string(s: &str) -> (r: Vec<String>)
    ensures
        arg_views(r@) == split_ws(s@),
{
    let v = chars_of(s);
    let n = v.len();
    let mut r: Vec<String> = Vec::new();
    let mut st: usize = 0;
    let mut k: usize = 0;
    proof {
        assert(v@.subrange(0, n as int) =~= v@);
        assert(arg_views(r@) =~= Seq::<Seq<char>>::empty());
        assert(arg_views(r@) + split_ws(v@.subrange(0, n as int)) =~= split_ws(s@));
    }
    while k < n
        invariant
            0 <= st <= k <= n == v@.len(),
            v@ == s@,
            arg_views(r@) + split_ws(v@.subrange(st as int, n as int)) =~= split_ws(s@),
            forall|t: int| st <= t < k ==> !is_space(#[trigger] v@[t]),
        decreases n - k,
    {
        let c = v[k];
        if c == ' ' || c == '\t' || c == '\n' || c == '\r' {
            let piece = string_of_range(&v, st, k);
            r.push(piece);
            proof {
                let suffix = v@.subrange(st as int, n as int);
                assert(space_pred()(suffix[k - st]));
                assert(forall|t: int|
                    0 <= t < k - st ==> !space_pred()(#[trigger] suffix[t]) && suffix[t] == v@[st
                        + t]);
                lemma_find_if_found(suffix, space_pred(), k - st);
                assert(suffix.subrange(0, k - st) =~= v@.subrange(st as int, k as int));
                assert(suffix.subrange(k - st + 1, suffix.len() as int) =~= v@.subrange(
                    k + 1,
                    n as int,
                ));
                assert(arg_views(r@) =~= arg_views(r@.drop_last()).push(v@.subrange(
                    st as int,
                    k as int,
                )));
                assert(arg_views(r@) + split_ws(v@.subrange(k + 1, n as int)) =~= split_ws(s@));
            }
            st = k + 1;
        }
        k += 1;
    }
    let piece = string_of_range(&v, st, n);
    r.push(piece);
    proof {
        let suffix = v@.subrange(st as int, n as int);
        assert(forall|t: int|
            0 <= t < suffix.len() ==> !space_pred()(#[trigger] suffix[t]) && suffix[t] == v@[st
                + t]);
        lemma_find_if_none(suffix, space_pred());
        assert(suffix.subrange(0, suffix.len() as int) =~= suffix);
        assert(arg_views(r@) =~= arg_views(r@.drop_last()).push(suffix));
        assert(arg_views(r@) =~= split_ws(s@));
    }
    r
}

} // verus!
