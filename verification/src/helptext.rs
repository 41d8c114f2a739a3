use vstd::prelude::*;

use crate::config::{opt_view, TextMarkup};
use crate::text::{
    before_char, before_first, has_prefix, join, join_spec, replace, replace_spec, split,
    split_spec, starts_with, str_eq, trim, trim_spec, views,
};

verus! {

// ---------------------------------------------------------------------------
// Help text: paragraphs, line breaks and the first paragraph.
//
// A form feed ends the help text. Paragraphs are separated by blank lines;
// inside a paragraph, line breaks become spaces, unless the paragraph starts
// with a backspace character, which keeps its lines as they are.
// ---------------------------------------------------------------------------

/// The text before the first form feed.
pub open spec fn before_form_feed(s: Seq<char>) -> Seq<char> {
    before_char(s, '\u{c}')
}

/// One paragraph, rewrapped: its line breaks become spaces, unless it starts
/// with a backspace, which keeps the lines and drops the backspaces.
pub open spec fn rewrap_paragraph(p: Seq<char>) -> Seq<char> {
    if has_prefix(p, "\u{8}"@) {
        replace_spec(replace_spec(p, "\u{8}\n"@, ""@), "\u{8}"@, ""@)
    } else {
        replace_spec(p, "\n"@, " "@)
    }
}

/// The rewrapped paragraphs of `t`.
pub open spec fn rewrapped_paragraphs(t: Seq<char>) -> Seq<Seq<char>> {
    split_spec(t, "\n\n"@).map_values(|p: Seq<char>| rewrap_paragraph(p))
}

/// The help text with its paragraphs joined by the configured line break
/// (a newline by default); Markdown text keeps its paragraphs, only replacing
/// the blank lines by a configured break other than a blank line.
pub open spec fn paragraph_breaks_spec(markup: TextMarkup, breaks: Option<Seq<char>>, input: Seq<char>) -> Seq<char> {
    let t = before_form_feed(input);
    if markup == TextMarkup::Markdown {
        match breaks {
            Some(b) => if b != "\n\n"@ {
                replace_spec(t, "\n\n"@, b)
            } else {
                t
            },
            None => t,
        }
    } else {
        join_spec(
            rewrapped_paragraphs(t),
            match breaks {
                Some(b) => b,
                None => "\n"@,
            },
        )
    }
}

/// The help text of a table cell: paragraphs rewrapped and joined by
/// newlines, then trimmed; Markdown text is kept as it is.
pub open spec fn normalized_help_spec(markup: TextMarkup, input: Seq<char>) -> Seq<char> {
    let t = before_form_feed(input);
    if markup == TextMarkup::Markdown {
        t
    } else {
        trim_spec(join_spec(rewrapped_paragraphs(t), "\n"@))
    }
}

/// The first paragraph of the help text, rewrapped (unless Markdown) and
/// trimmed.
pub open spec fn first_paragraph_spec(markup: TextMarkup, input: Seq<char>) -> Seq<char> {
    let para = split_spec(before_form_feed(input), "\n\n"@)[0];
    if markup == TextMarkup::Markdown {
        trim_spec(para)
    } else {
        trim_spec(rewrap_paragraph(para))
    }
}

/// Rewraps one paragraph.
pub fn rewrap(p: &str) -> (r: String)
    ensures
        r@ == rewrap_paragraph(p@),
{
    proof {
        reveal_strlit("\u{8}");
        reveal_strlit("\u{8}\n");
        reveal_strlit("\n");
    }
    if starts_with(p, "\u{8}") {
        let a = replace(p, "\u{8}\n", "");
        replace(a.as_str(), "\u{8}", "")
    } else {
        replace(p, "\n", " ")
    }
}

/// The rewrapped paragraphs of `t`.
fn rewrapped(t: &str) -> (r: Vec<String>)
    ensures
        views(r@) == rewrapped_paragraphs(t@),
{
    proof {
        reveal_strlit("\n\n");
    }
    let parts = split(t, "\n\n");
    let mut out: Vec<String> = Vec::new();
    let mut i: usize = 0;
    while i < parts.len()
        invariant
            i <= parts@.len(),
            views(parts@) == split_spec(t@, "\n\n"@),
            views(out@) == split_spec(t@, "\n\n"@).take(i as int).map_values(|p: Seq<char>| rewrap_paragraph(p)),
        decreases parts.len() - i,
    {
        let w = rewrap(parts[i].as_str());
        proof {
            assert(parts@[i as int]@ == split_spec(t@, "\n\n"@)[i as int]);
        }
        let ghost old_out = out@;
        out.push(w);
        proof {
            let s = split_spec(t@, "\n\n"@);
            assert(views(out@) =~= views(old_out).push(w@));
            assert(s.take(i + 1) =~= s.take(i as int).push(s[i as int]));
            assert(s.take(i + 1).map_values(|p: Seq<char>| rewrap_paragraph(p)) =~= s.take(i as int).map_values(
                |p: Seq<char>| rewrap_paragraph(p),
            ).push(rewrap_paragraph(s[i as int])));
        }
        i = i + 1;
    }
    proof {
        let s = split_spec(t@, "\n\n"@);
        assert(s.take(i as int) =~= s);
    }
    out
}

/// Applies the configured paragraph breaks to a help text.
pub fn apply_paragraph_linebreaks(markup: TextMarkup, breaks: &Option<String>, input: &str) -> (r: String)
    ensures
        r@ == paragraph_breaks_spec(markup, opt_view(*breaks), input@),
{
    let text = before_first(input, '\u{c}');
    proof {
        reveal_strlit("\n\n");
        reveal_strlit("\n");
    }
    if markup == TextMarkup::Markdown {
        match breaks {
            Some(b) => {
                if !str_eq(b.as_str(), "\n\n") {
                    return replace(text.as_str(), "\n\n", b.as_str());
                }
                return text;
            },
            None => {
                return text;
            },
        }
    }
    let paragraphs = rewrapped(text.as_str());
    match breaks {
        Some(b) => join(paragraphs.as_slice(), b.as_str()),
        None => join(paragraphs.as_slice(), "\n"),
    }
}

/// The help text of a table cell.
pub fn normalize_help_text(markup: TextMarkup, input: &str) -> (r: String)
    ensures
        r@ == normalized_help_spec(markup, input@),
{
    let text = before_first(input, '\u{c}');
    if markup == TextMarkup::Markdown {
        return text;
    }
    let paragraphs = rewrapped(text.as_str());
    let joined = join(paragraphs.as_slice(), "\n");
    trim(joined.as_str())
}

/// The first paragraph of a help text, as a one-line summary.
pub fn normalize_first_paragraph(markup: TextMarkup, input: &str) -> (r: String)
    ensures
        r@ == first_paragraph_spec(markup, input@),
{
    let text = before_first(input, '\u{c}');
    proof {
        reveal_strlit("\n\n");
        crate::text::lemma_split_nonempty(text@, "\n\n"@);
    }
    let parts = split(text.as_str(), "\n\n");
    assert(parts@[0]@ == split_spec(text@, "\n\n"@)[0]);
    if markup == TextMarkup::Markdown {
        trim(parts[0].as_str())
    } else {
        let w = rewrap(parts[0].as_str());
        trim(w.as_str())
    }
}

} // verus!
