use vstd::prelude::*;

use crate::model::OptionInfo;
use crate::text::{
    views,
    chars_of, concat, concat3, first_index_of, has_prefix, lower_spec, replace, replace_spec,
    starts_with, str_eq, string_of_range, strip_all, strip_all_prefix, to_lower, trim, trim_spec,
};

verus! {

// ---------------------------------------------------------------------------
// Command-line helpers: matching arguments against option names, naming the
// parameter an error is about, and decorating error messages.
// ---------------------------------------------------------------------------

/// `arg` names the option `opt`: it is the option itself, a long option with
/// an attached `=value`, or a bundle of short flags that holds the flag's letter.
pub open spec fn arg_matches_spec(arg: Seq<char>, opt: Seq<char>) -> bool {
    ||| arg == opt
    ||| (has_prefix(opt, "--"@) && has_prefix(arg, opt) && arg.len() > opt.len() && arg[opt.len() as int] == '=')
    ||| (opt.len() == 2 && opt[0] == '-' && opt[1] != '-' && (opt[1] as u32) < 0x80 && arg.len() > 0
        && arg[0] == '-' && !has_prefix(arg, "--"@) && exists|i: int| 1 <= i < arg.len() && #[trigger] arg[i] == opt[1])
}

/// Whether the command-line argument `arg` selects the option named `opt`.
#[verifier::loop_isolation(false)]
pub fn arg_matches_opt(arg: &str, opt: &str) -> (r: bool)
    ensures
        r == arg_matches_spec(arg@, opt@),
{
    if str_eq(arg, opt) {
        return true;
    }
    let a = chars_of(arg);
    let o = chars_of(opt);
    proof {
        reveal_strlit("--");
    }
    if starts_with(opt, "--") && starts_with(arg, opt) && a.len() > o.len() && a[o.len()] == '=' {
        return true;
    }
    if o.len() == 2 && o[0] == '-' && o[1] != '-' && (o[1] as u32) < 0x80 {
        let needle = o[1];
        if a.len() > 0 && a[0] == '-' && !starts_with(arg, "--") {
            let mut i: usize = 1;
            while i < a.len()
                invariant
                    1 <= i <= a@.len(),
                    a@ == arg@,
                    o@ == opt@,
                    o@.len() == 2,
                    needle == opt@[1],
                    forall|j: int| 1 <= j < i ==> a@[j] != needle,
                decreases a.len() - i,
            {
                if a[i] == needle {
                    assert(arg@[i as int] == opt@[1]);
                    return true;
                }
                i = i + 1;
            }
            return false;
        }
    }
    false
}

/// `message` with `suffix` placed at the end of its first line.
pub open spec fn with_suffix_on_first_line(message: Seq<char>, suffix: Seq<char>) -> Seq<char> {
    match first_index_of(message, '\n') {
        Some(i) => message.take(i) + suffix + message.skip(i),
        None => message + suffix,
    }
}

/// Inserts `suffix` at the end of the first line of `message`.
pub fn append_suffix_to_first_line(message: &str, suffix: &str) -> (r: String)
    ensures
        r@ == with_suffix_on_first_line(message@, suffix@),
{
    let m = chars_of(message);
    match crate::text::find_char(m.as_slice(), '\n') {
        Some(idx) => {
            let first = string_of_range(m.as_slice(), 0, idx);
            let rest = string_of_range(m.as_slice(), idx, m.len());
            let r = concat3(first.as_str(), suffix, rest.as_str());
            assert(m@.subrange(0, idx as int) == message@.take(idx as int));
            assert(m@.subrange(idx as int, m@.len() as int) == message@.skip(idx as int));
            r
        },
        None => concat(message, suffix),
    }
}

/// A separator between parameter names in an error hint.
pub open spec fn is_name_sep(c: char) -> bool {
    c == ',' || c == '/'
}

/// The pieces of `s` between the separators `,` and `/`.
pub open spec fn name_pieces(s: Seq<char>) -> Seq<Seq<char>>
    decreases s.len(),
{
    if s.len() == 0 {
        seq![Seq::<char>::empty()]
    } else if is_name_sep(s.last()) {
        name_pieces(s.drop_last()).push(Seq::<char>::empty())
    } else {
        let p = name_pieces(s.drop_last());
        p.update(p.len() - 1, p.last().push(s.last()))
    }
}

/// The trimmed pieces that name a long option (`--`), in order.
pub open spec fn long_pieces(ps: Seq<Seq<char>>) -> Seq<Seq<char>>
    decreases ps.len(),
{
    if ps.len() == 0 {
        Seq::empty()
    } else {
        let t = trim_spec(ps.last());
        if t.len() > 0 && has_prefix(t, "--"@) {
            long_pieces(ps.drop_last()).push(t)
        } else {
            long_pieces(ps.drop_last())
        }
    }
}

/// The other non-empty trimmed pieces, in order.
pub open spec fn short_pieces(ps: Seq<Seq<char>>) -> Seq<Seq<char>>
    decreases ps.len(),
{
    if ps.len() == 0 {
        Seq::empty()
    } else {
        let t = trim_spec(ps.last());
        if t.len() > 0 && !has_prefix(t, "--"@) {
            short_pieces(ps.drop_last()).push(t)
        } else {
            short_pieces(ps.drop_last())
        }
    }
}

/// The parameter names a hint such as `"--name / -n"` mentions: its long
/// option names first, then the others.
pub open spec fn param_candidates_spec(value: Seq<char>) -> Seq<Seq<char>> {
    long_pieces(name_pieces(value)) + short_pieces(name_pieces(value))
}

/// Splits a parameter hint into candidate names, long options first.
pub fn collect_param_candidates(value: &str) -> (r: Vec<String>)
    ensures
        crate::text::views(r@) == param_candidates_spec(value@),
{
    let chars = chars_of(value);
    // The pieces of the prefix read so far, the last one still growing.
    let mut done: Vec<String> = Vec::new();
    let mut start: usize = 0;
    let mut i: usize = 0;
    let ghost mut pieces: Seq<Seq<char>> = seq![Seq::<char>::empty()];
    while i < chars.len()
        invariant
            chars@ == value@,
            start <= i <= chars@.len(),
            pieces == name_pieces(value@.take(i as int)),
            pieces.len() == done@.len() + 1,
            forall|k: int| 0 <= k < done@.len() ==> #[trigger] done@[k]@ == pieces[k],
            pieces.last() == value@.subrange(start as int, i as int),
        decreases chars.len() - i,
    {
        proof {
            assert(value@.take(i + 1).drop_last() == value@.take(i as int));
            assert(value@.take(i + 1).last() == value@[i as int]);
        }
        if chars[i] == ',' || chars[i] == '/' {
            let piece = string_of_range(chars.as_slice(), start, i);
            done.push(piece);
            proof {
                pieces = pieces.push(Seq::<char>::empty());
            }
            start = i + 1;
        } else {
            proof {
                assert(value@.subrange(start as int, i + 1) == value@.subrange(start as int, i as int).push(value@[i as int]));
                pieces = pieces.update(pieces.len() - 1, pieces.last().push(value@[i as int]));
            }
        }
        i = i + 1;
    }
    let last = string_of_range(chars.as_slice(), start, chars.len());
    done.push(last);
    assert(value@.take(i as int) == value@);
    assert(crate::text::views(done@) =~= name_pieces(value@));
    // Long names first, then the rest.
    let mut long: Vec<String> = Vec::new();
    let mut short: Vec<String> = Vec::new();
    let mut j: usize = 0;
    while j < done.len()
        invariant
            j <= done@.len(),
            crate::text::views(done@) == name_pieces(value@),
            crate::text::views(long@) == long_pieces(name_pieces(value@).take(j as int)),
            crate::text::views(short@) == short_pieces(name_pieces(value@).take(j as int)),
        decreases done.len() - j,
    {
        let ghost ps = name_pieces(value@);
        proof {
            assert(ps.take(j + 1).drop_last() == ps.take(j as int));
            assert(ps.take(j + 1).last() == ps[j as int]);
            assert(done@[j as int]@ == ps[j as int]);
        }
        let t = trim(done[j].as_str());
        proof {
            reveal_strlit("--");
        }
        if !t.as_str().is_empty() {
            if starts_with(t.as_str(), "--") {
                long.push(t);
                assert(crate::text::views(long@) =~= crate::text::views(long@.drop_last()).push(t@));
            } else {
                short.push(t);
                assert(crate::text::views(short@) =~= crate::text::views(short@.drop_last()).push(t@));
            }
        } else {
            proof {
                assert(t@.len() == 0);
            }
        }
        j = j + 1;
    }
    assert(name_pieces(value@).take(j as int) == name_pieces(value@));
    let mut k: usize = 0;
    let ghost base = long@;
    while k < short.len()
        invariant
            k <= short@.len(),
            long@ == base + short@.take(k as int),
        decreases short.len() - k,
    {
        let s = short[k].clone();
        long.push(s);
        assert(short@.take(k + 1) == short@.take(k as int).push(short@[k as int]));
        k = k + 1;
    }
    assert(short@.take(k as int) == short@);
    assert(crate::text::views(long@) =~= crate::text::views(base) + crate::text::views(short@));
    long
}

/// `s` with every `-` turned into `_`.
pub open spec fn underscored(s: Seq<char>) -> Seq<char> {
    replace_spec(s, "-"@, "_"@)
}

/// The parameter name a candidate from an error hint stands for: long options
/// lose their dashes (and a `no-` prefix) and use underscores, short options
/// lose their dashes, and bare names are lower-cased with underscores.
pub open spec fn normalized_param_spec(value: Seq<char>) -> Option<Seq<char>> {
    let t = trim_spec(value);
    if t.len() == 0 {
        None
    } else if has_prefix(t, "--no-"@) {
        Some(underscored(strip_all_prefix(t, "--no-"@)))
    } else if has_prefix(t, "--"@) {
        Some(underscored(strip_all_prefix(t, "--"@)))
    } else if has_prefix(t, "-"@) {
        let name = strip_all_prefix(t, "-"@);
        if name.len() == 0 {
            None
        } else {
            Some(name)
        }
    } else {
        Some(lower_spec(underscored(t)))
    }
}

/// The parameter name `value` stands for, if any.
pub fn normalize_param_name(value: &str) -> (r: Option<String>)
    ensures
        match r {
            Some(s) => normalized_param_spec(value@) == Some(s@),
            None => normalized_param_spec(value@) is None,
        },
{
    let trimmed = trim(value);
    proof {
        reveal_strlit("--no-");
        reveal_strlit("--");
        reveal_strlit("-");
        reveal_strlit("_");
    }
    if trimmed.as_str().is_empty() {
        return None;
    }
    assert(trimmed@.len() > 0);
    if starts_with(trimmed.as_str(), "--no-") {
        let stripped = strip_all(trimmed.as_str(), "--no-");
        return Some(replace(stripped.as_str(), "-", "_"));
    }
    if starts_with(trimmed.as_str(), "--") {
        let stripped = strip_all(trimmed.as_str(), "--");
        return Some(replace(stripped.as_str(), "-", "_"));
    }
    if starts_with(trimmed.as_str(), "-") {
        let name = strip_all(trimmed.as_str(), "-");
        if name.as_str().is_empty() {
            return None;
        }
        return Some(name);
    }
    let replaced = replace(trimmed.as_str(), "-", "_");
    Some(to_lower(replaced.as_str()))
}


/// The prefix of the configured placeholder of a version option; the rest
/// is the version output.
pub open spec fn version_prefix() -> Seq<char> {
    "__click_version__:"@
}

/// Some argument selects one of the option's names, long ones first.
pub open spec fn option_selected(o: OptionInfo, args: Seq<Seq<char>>) -> bool {
    exists|n: int, a: int|
        0 <= n < o.long@.len() + o.short@.len() && 0 <= a < args.len() && #[trigger] arg_matches_spec(
            args[a],
            (views(o.long@) + views(o.short@))[n],
        )
}

/// The version output the arguments ask for: that of the first option
/// whose configured placeholder is a version one and whose names the
/// arguments select. Every option is examined, whatever precedes it.
pub open spec fn version_output_spec(opts: Seq<OptionInfo>, args: Seq<Seq<char>>) -> Option<Seq<char>>
    decreases opts.len(),
{
    if opts.len() == 0 {
        None
    } else {
        match opts[0].configured_metavar {
            Some(m) => if has_prefix(m@, version_prefix()) && option_selected(opts[0], args) {
                Some(m@.skip(version_prefix().len() as int))
            } else {
                version_output_spec(opts.skip(1), args)
            },
            None => version_output_spec(opts.skip(1), args),
        }
    }
}

fn selects(o: &OptionInfo, args: &Vec<String>) -> (r: bool)
    ensures
        r == option_selected(*o, views(args@)),
{
    let mut names = crate::json::copy_strings(&o.long);
    let mut shorts = crate::json::copy_strings(&o.short);
    let ghost a = names@;
    let ghost b = shorts@;
    names.append(&mut shorts);
    assert(names@ =~= a + b);
    assert(views(names@) =~= views(o.long@) + views(o.short@));
    let mut n: usize = 0;
    while n < names.len()
        invariant
            n <= names@.len(),
            views(names@) == views(o.long@) + views(o.short@),
            forall|i: int, j: int| 0 <= i < n && 0 <= j < args@.len() ==> !#[trigger] arg_matches_spec(views(args@)[j], views(names@)[i]),
        decreases names.len() - n,
    {
        let mut k: usize = 0;
        while k < args.len()
            invariant
                k <= args@.len(),
                n < names@.len(),
                views(names@) == views(o.long@) + views(o.short@),
                forall|j: int| 0 <= j < k ==> !#[trigger] arg_matches_spec(views(args@)[j], views(names@)[n as int]),
            decreases args.len() - k,
        {
            if arg_matches_opt(args[k].as_str(), names[n].as_str()) {
                assert(arg_matches_spec(views(args@)[k as int], (views(o.long@) + views(o.short@))[n as int]));
                assert(views(names@).len() == names@.len());
                assert(views(o.long@).len() == o.long@.len());
                assert(views(o.short@).len() == o.short@.len());
                assert(n < o.long@.len() + o.short@.len());
                return true;
            }
            k = k + 1;
        }
        n = n + 1;
    }
    false
}

/// The version output an option of the command prints when the arguments
/// ask for it.
pub fn version_output_from_args(opts: &Vec<OptionInfo>, args: &Vec<String>) -> (r: Option<String>)
    ensures
        match r {
            Some(s) => version_output_spec(opts@, views(args@)) == Some(s@),
            None => version_output_spec(opts@, views(args@)) is None,
        },
{
    let mut i: usize = 0;
    assert(opts@.skip(0) =~= opts@);
    while i < opts.len()
        invariant
            i <= opts@.len(),
            version_output_spec(opts@, views(args@)) == version_output_spec(opts@.skip(i as int), views(args@)),
        decreases opts.len() - i,
    {
        assert(opts@.skip(i as int)[0] == opts@[i as int]);
        assert(opts@.skip(i as int).skip(1) =~= opts@.skip(i + 1));
        proof {
            reveal_strlit("__click_version__:");
        }
        let o = &opts[i];
        match &o.configured_metavar {
            Some(m) => {
                if starts_with(m.as_str(), "__click_version__:") && selects(o, args) {
                    let chars = chars_of(m.as_str());
                    let out = string_of_range(chars.as_slice(), 18, chars.len());
                    assert(chars@.subrange(18, chars@.len() as int) =~= m@.skip(18));
                    return Some(out);
                }
            },
            None => {},
        }
        i = i + 1;
    }
    None
}

} // verus!
