//! Format-string templates over reactive values: a template like
//! `"Hello, {}!"` or `"{name} is {age}"` is scanned into segments, and a
//! [`FormatSignal`] renders it from the current values of its argument
//! bindings on every read.
//!
//! The scanner understands empty positional placeholders `{}`, numbered
//! ones `{0}`, named ones `{name}`, format specifiers after a colon
//! (`{x:>8}` names `x`), and escaped braces: `{{` renders as one `{` and
//! `}}` as one `}`.

use vstd::prelude::*;
use vstd::string::StrSliceExecFns;
use vstd::string::StringExecFns;

use crate::binding::Binding;
use crate::watcher::Notification;

verus! {

/// One piece of a scanned template.
#[derive(Debug, Clone, PartialEq, Eq)]
pub enum Segment {
    /// A literal run of the template text: the characters `from..to`. An
    /// escaped brace pair contributes a one-character literal covering its
    /// first brace.
    Literal { from: usize, to: usize },
    /// A placeholder filled from the argument at `index`.
    Positional { index: usize },
    /// A placeholder filled from the argument named `name`.
    Named { name: String },
}

/// A scanned template: the original text plus its segmentation.
#[derive(Debug, Clone)]
pub struct Template {
    text: String,
    segments: Vec<Segment>,
}

/// Whether `seg` is well formed against template text `text`: literal
/// ranges lie inside the text.
pub open spec fn segment_wf(seg: Segment, text: Seq<char>) -> bool {
    match seg {
        Segment::Literal { from, to } => from < to <= text.len(),
        Segment::Positional { index: _ } => true,
        Segment::Named { name: _ } => true,
    }
}

/// The text a segment contributes when rendered with the given positional
/// argument values; a placeholder out of range or still named contributes
/// nothing.
pub open spec fn segment_rendering(seg: Segment, text: Seq<char>, args: Seq<Seq<char>>) -> Seq<
    char,
> {
    match seg {
        Segment::Literal { from, to } => text.subrange(from as int, to as int),
        Segment::Positional { index } => if index < args.len() {
            args[index as int]
        } else {
            Seq::empty()
        },
        Segment::Named { name: _ } => Seq::empty(),
    }
}

/// The rendering of a segment sequence: the concatenation of each
/// segment's contribution, in order.
pub open spec fn rendering(segs: Seq<Segment>, text: Seq<char>, args: Seq<Seq<char>>) -> Seq<
    char,
> decreases segs.len(),
{
    if segs.len() == 0 {
        Seq::empty()
    } else {
        rendering(segs.drop_last(), text, args) + segment_rendering(segs.last(), text, args)
    }
}

/// How many positional placeholders a segment sequence holds.
pub open spec fn positional_count(segs: Seq<Segment>) -> nat {
    segs.filter(|s: Segment| s is Positional).len()
}

/// Whether a segment sequence holds any named placeholder.
pub open spec fn has_named(segs: Seq<Segment>) -> bool {
    exists|i: int| 0 <= i < segs.len() && segs[i] is Named
}

/// The position right after the placeholder content starting at `j`: the
/// first position at or past `j` holding `}` or `:`, or the end of the
/// text.
pub open spec fn content_stop(text: Seq<char>, j: int) -> int
    decreases text.len() - j when 0 <= j <= text.len()
{
    if j >= text.len() || text[j] == '}' || text[j] == ':' {
        j
    } else {
        content_stop(text, j + 1)
    }
}

/// The position of the closing brace at or past `j`, or the end of the
/// text.
pub open spec fn close_stop(text: Seq<char>, j: int) -> int
    decreases text.len() - j when 0 <= j <= text.len()
{
    if j >= text.len() || text[j] == '}' {
        j
    } else {
        close_stop(text, j + 1)
    }
}

/// The position right after a whole placeholder whose content ends at
/// `ce`: past the format specifier, and past the closing brace when one is
/// there.
pub open spec fn past_placeholder(text: Seq<char>, ce: int) -> int {
    let cl = close_stop(text, ce);
    if cl < text.len() {
        cl + 1
    } else {
        cl
    }
}

/// Whether the character starts a variable name: a letter or an
/// underscore.
pub open spec fn name_start(c: char) -> bool {
    ('a' <= c <= 'z') || ('A' <= c <= 'Z') || c == '_'
}

/// Whether the placeholder content `text[s..e]` is a name rather than a
/// position: non-empty, not all digits, and opening like a name.
pub open spec fn content_is_name(text: Seq<char>, s: int, e: int) -> bool {
    &&& s < e
    &&& !(forall|j: int| s <= j < e ==> '0' <= #[trigger] text[j] <= '9')
    &&& name_start(text[s])
}

/// The character-level meaning of a template, from position `i` on, with
/// `k` positional placeholders already consumed: escaped braces collapse to
/// one brace, a positional placeholder contributes the next argument, a
/// named placeholder contributes nothing until it is resolved, and every
/// other character stands for itself.
pub open spec fn spec_format(text: Seq<char>, i: int, args: Seq<Seq<char>>, k: int) -> Seq<char>
    decreases text.len() - i when 0 <= i <= text.len() via spec_format_decreases
{
    if i >= text.len() {
        Seq::empty()
    } else if text[i] == '{' && i + 1 < text.len() && text[i + 1] == '{' {
        seq!['{'] + spec_format(text, i + 2, args, k)
    } else if text[i] == '}' && i + 1 < text.len() && text[i + 1] == '}' {
        seq!['}'] + spec_format(text, i + 2, args, k)
    } else if text[i] == '{' {
        let ce = content_stop(text, i + 1);
        let after = past_placeholder(text, ce);
        if content_is_name(text, i + 1, ce) {
            spec_format(text, after, args, k)
        } else {
            (if k < args.len() {
                args[k]
            } else {
                Seq::empty()
            }) + spec_format(text, after, args, k + 1)
        }
    } else {
        seq![text[i]] + spec_format(text, i + 1, args, k)
    }
}

#[via_fn]
proof fn spec_format_decreases(text: Seq<char>, i: int, args: Seq<Seq<char>>, k: int) {
    if 0 <= i < text.len() {
        lemma_stops_in_range(text, i + 1);
    }
}

/// Whether the template holds a named placeholder from position `i` on.
pub open spec fn spec_has_named(text: Seq<char>, i: int) -> bool
    decreases text.len() - i when 0 <= i <= text.len() via spec_has_named_decreases
{
    if i >= text.len() {
        false
    } else if text[i] == '{' && i + 1 < text.len() && text[i + 1] == '{' {
        spec_has_named(text, i + 2)
    } else if text[i] == '}' && i + 1 < text.len() && text[i + 1] == '}' {
        spec_has_named(text, i + 2)
    } else if text[i] == '{' {
        let ce = content_stop(text, i + 1);
        let after = past_placeholder(text, ce);
        content_is_name(text, i + 1, ce) || spec_has_named(text, after)
    } else {
        spec_has_named(text, i + 1)
    }
}

#[via_fn]
proof fn spec_has_named_decreases(text: Seq<char>, i: int) {
    if 0 <= i < text.len() {
        lemma_stops_in_range(text, i + 1);
    }
}

/// How many positional placeholders the template holds from position `i`
/// on.
pub open spec fn spec_positional_total(text: Seq<char>, i: int) -> nat
    decreases text.len() - i when 0 <= i <= text.len() via spec_positional_total_decreases
{
    if i >= text.len() {
        0
    } else if text[i] == '{' && i + 1 < text.len() && text[i + 1] == '{' {
        spec_positional_total(text, i + 2)
    } else if text[i] == '}' && i + 1 < text.len() && text[i + 1] == '}' {
        spec_positional_total(text, i + 2)
    } else if text[i] == '{' {
        let ce = content_stop(text, i + 1);
        let after = past_placeholder(text, ce);
        if content_is_name(text, i + 1, ce) {
            spec_positional_total(text, after)
        } else {
            1 + spec_positional_total(text, after)
        }
    } else {
        spec_positional_total(text, i + 1)
    }
}

#[via_fn]
proof fn spec_positional_total_decreases(text: Seq<char>, i: int) {
    if 0 <= i < text.len() {
        lemma_stops_in_range(text, i + 1);
    }
}

/// `content_stop` and `close_stop` land between `j` and the end.
proof fn lemma_stops_in_range(text: Seq<char>, j: int)
    requires
        0 <= j <= text.len(),
    ensures
        j <= content_stop(text, j) <= text.len(),
        j <= close_stop(text, j) <= text.len(),
        j <= past_placeholder(text, j) <= text.len(),
        close_stop(text, content_stop(text, j)) == close_stop(text, j),
    decreases text.len() - j,
{
    if !(j >= text.len() || text[j] == '}' || text[j] == ':') {
        lemma_stops_in_range(text, j + 1);
    } else if j < text.len() && text[j] == ':' {
        lemma_stops_in_range(text, j + 1);
    }
}

impl Template {
    /// The template text.
    pub closed spec fn text(&self) -> Seq<char> {
        self.text@
    }

    /// The scanned segments, in template order.
    pub closed spec fn segments(&self) -> Seq<Segment> {
        self.segments@
    }

    /// Every literal segment lies inside the template text, and positional
    /// placeholders are numbered consecutively from zero in template order.
    pub open spec fn wf(&self) -> bool {
        &&& forall|i: int|
            0 <= i < self.segments().len() ==> segment_wf(
                #[trigger] self.segments()[i],
                self.text(),
            )
        &&& forall|i: int|
            0 <= i < self.segments().len() && self.segments()[i] is Positional
                ==> (#[trigger] self.segments()[i])->Positional_index == positional_count(
                self.segments().take(i),
            )
    }

    /// Scans a template. Positional placeholders are numbered in order of
    /// appearance; a `{name}` placeholder records its name; `{{` and `}}`
    /// become one-character literals; a format specifier after `:` is
    /// ignored for naming purposes. Rendering the scanned segments with any
    /// argument list reproduces the character-level meaning of the
    /// template.
    pub fn parse(text: &str) -> (r: Template)
        ensures
            r.text() == text@,
            r.wf(),
            forall|args: Seq<Seq<char>>|
                #[trigger] rendering(r.segments(), r.text(), args) == spec_format(
                    text@,
                    0,
                    args,
                    0,
                ),
            has_named(r.segments()) == spec_has_named(text@, 0),
            positional_count(r.segments()) == spec_positional_total(text@, 0),
    {
        let n = text.unicode_len();
        let mut segments: Vec<Segment> = Vec::new();
        let mut i: usize = 0;
        let mut lit_start: usize = 0;
        let mut next_positional: usize = 0;
        while i < n
            invariant
                n == text@.len(),
                i <= n,
                lit_start <= i,
                next_positional <= i,
                forall|k: int|
                    0 <= k < segments@.len() ==> segment_wf(#[trigger] segments@[k], text@),
                forall|k: int|
                    0 <= k < segments@.len() && segments@[k] is Positional
                        ==> (#[trigger] segments@[k])->Positional_index == positional_count(
                        segments@.take(k),
                    ),
                next_positional == positional_count(segments@),
                forall|args: Seq<Seq<char>>|
                    #[trigger] spec_format(text@, 0, args, 0) == rendering(
                        segments@,
                        text@,
                        args,
                    ) + text@.subrange(lit_start as int, i as int) + spec_format(
                        text@,
                        i as int,
                        args,
                        next_positional as int,
                    ),
                spec_has_named(text@, 0) == (has_named(segments@) || spec_has_named(
                    text@,
                    i as int,
                )),
                spec_positional_total(text@, 0) == positional_count(segments@)
                    + spec_positional_total(text@, i as int),
            decreases n - i,
        {
            let ghost segs_before = segments@;
            let ghost i0 = i as int;
            let ghost ls0 = lit_start as int;
            let ghost k0 = next_positional as int;
            let c = text.get_char(i);
            if c == '{' && i + 1 < n && text.get_char(i + 1) == '{' {
                // An escaped opening brace: flush the literal up to and
                // including the first brace, skip the second.
                push_literal(&mut segments, lit_start, i + 1, Ghost(text@));
                i = i + 2;
                lit_start = i;
                proof {
                    lemma_parse_escape_step(text@, segs_before, segments@, ls0, i0, k0);
                    assert(spec_has_named(text@, i0) == spec_has_named(text@, i0 + 2));
                    assert(spec_positional_total(text@, i0) == spec_positional_total(
                        text@,
                        i0 + 2,
                    ));
                }
            } else if c == '}' && i + 1 < n && text.get_char(i + 1) == '}' {
                // An escaped closing brace, symmetrically.
                push_literal(&mut segments, lit_start, i + 1, Ghost(text@));
                i = i + 2;
                lit_start = i;
                proof {
                    lemma_parse_escape_step(text@, segs_before, segments@, ls0, i0, k0);
                    assert(spec_has_named(text@, i0) == spec_has_named(text@, i0 + 2));
                    assert(spec_positional_total(text@, i0) == spec_positional_total(
                        text@,
                        i0 + 2,
                    ));
                }
            } else if c == '{' {
                if lit_start < i {
                    push_literal(&mut segments, lit_start, i, Ghost(text@));
                }
                let ghost segs_flushed = segments@;
                // The placeholder content runs up to `}` or `:`.
                let content_start = i + 1;
                let mut j = content_start;
                while j < n && text.get_char(j) != '}' && text.get_char(j) != ':'
                    invariant
                        n == text@.len(),
                        content_start <= j <= n,
                        content_stop(text@, content_start as int) == content_stop(
                            text@,
                            j as int,
                        ),
                    decreases n - j,
                {
                    j = j + 1;
                }
                let content_end = j;
                proof {
                    assert(content_stop(text@, content_end as int) == content_end as int);
                }
                // Skip a format specifier.
                if j < n && text.get_char(j) == ':' {
                    while j < n && text.get_char(j) != '}'
                        invariant
                            n == text@.len(),
                            content_end <= j <= n,
                            close_stop(text@, content_end as int) == close_stop(
                                text@,
                                j as int,
                            ),
                        decreases n - j,
                    {
                        j = j + 1;
                    }
                }
                proof {
                    assert(close_stop(text@, content_end as int) == j as int);
                }
                // Consume the closing brace if present.
                if j < n {
                    j = j + 1;
                }
                proof {
                    assert(j as int == past_placeholder(text@, content_end as int));
                }
                let ghost segs0 = segments@;
                let named = content_start < content_end && !all_digits(
                    text,
                    content_start,
                    content_end,
                ) && starts_like_name(text, content_start, content_end);
                if named {
                    let name = text.substring_char(content_start, content_end).to_owned();
                    let seg = Segment::Named { name };
                    segments.push(seg);
                    proof {
                        lemma_positional_push(segs0, seg);
                    }
                } else {
                    let seg = Segment::Positional { index: next_positional };
                    segments.push(seg);
                    proof {
                        lemma_positional_push(segs0, seg);
                    }
                    next_positional = next_positional + 1;
                }
                let ghost ce = content_end as int;
                i = j;
                lit_start = i;
                proof {
                    lemma_stops_in_range(text@, i0 + 1);
                    lemma_parse_placeholder_step(
                        text@,
                        segs_before,
                        segs_flushed,
                        segments@,
                        ls0,
                        i0,
                        k0,
                        ce,
                        i as int,
                        next_positional as int,
                    );
                    lemma_stops_in_range(text@, ce);
                    assert(spec_has_named(text@, i0) == (content_is_name(text@, i0 + 1, ce)
                        || spec_has_named(text@, i as int)));
                    assert(spec_positional_total(text@, i0) == (if content_is_name(
                        text@,
                        i0 + 1,
                        ce,
                    ) {
                        spec_positional_total(text@, i as int)
                    } else {
                        1 + spec_positional_total(text@, i as int)
                    }));
                }
            } else {
                i = i + 1;
                proof {
                    lemma_parse_char_step(text@, segments@, ls0, i0, k0);
                    assert(spec_has_named(text@, i0) == spec_has_named(text@, i0 + 1));
                    assert(spec_positional_total(text@, i0) == spec_positional_total(
                        text@,
                        i0 + 1,
                    ));
                }
            }
        }
        let ghost exit_segs = segments@;
        let ghost exit_ls = lit_start as int;
        let ghost exit_k = next_positional as int;
        if lit_start < n {
            push_literal(&mut segments, lit_start, n, Ghost(text@));
        }
        let ghost final_segs = segments@;
        let r = Template { text: text.to_owned(), segments };
        proof {
            assert forall|args: Seq<Seq<char>>|
                #[trigger] rendering(r.segments(), r.text(), args) == spec_format(
                text@,
                0,
                args,
                0,
            ) by {
                assert(spec_format(text@, 0, args, 0) == rendering(exit_segs, text@, args)
                    + text@.subrange(exit_ls, n as int) + spec_format(
                    text@,
                    n as int,
                    args,
                    exit_k,
                ));
                assert(spec_format(text@, n as int, args, exit_k) == Seq::<char>::empty());
                if exit_ls < n {
                    assert(final_segs.drop_last() == exit_segs);
                    assert(final_segs.last() == Segment::Literal {
                        from: lit_start,
                        to: n,
                    });
                    assert(segment_rendering(final_segs.last(), text@, args) == text@.subrange(
                        exit_ls,
                        n as int,
                    ));
                    assert(rendering(final_segs, text@, args) == rendering(
                        exit_segs,
                        text@,
                        args,
                    ) + text@.subrange(exit_ls, n as int));
                } else {
                    assert(text@.subrange(exit_ls, n as int) =~= Seq::<char>::empty());
                    assert(final_segs == exit_segs);
                }
                assert(rendering(final_segs, text@, args) =~= spec_format(text@, 0, args, 0));
            }
            assert(spec_has_named(text@, n as int) == false);
            assert(spec_positional_total(text@, n as int) == 0);
            assert(has_named(final_segs) == has_named(exit_segs));
            assert(positional_count(final_segs) == positional_count(exit_segs));
        }
        r
    }

    /// Renders the template from positional argument values: each literal
    /// contributes its characters, each positional placeholder the matching
    /// argument; a placeholder past the argument list, or one still named,
    /// contributes nothing.
    pub fn render(&self, args: &Vec<String>) -> (r: String)
        requires
            self.wf(),
        ensures
            r@ == rendering(self.segments(), self.text(), views_of(args@)),
    {
        let mut out = String::new();
        let ghost args_views = views_of(args@);
        let m = self.segments.len();
        for s in 0..m
            invariant
                m == self.segments().len(),
                self.wf(),
                args_views == views_of(args@),
                out@ == rendering(self.segments().take(s as int), self.text(), args_views),
        {
            proof {
                assert(self.segments().take(s + 1).drop_last() == self.segments().take(s as int));
                assert(self.segments().take(s + 1).last() == self.segments()[s as int]);
                assert(segment_wf(self.segments()[s as int], self.text()));
            }
            match &self.segments[s] {
                Segment::Literal { from, to } => {
                    let piece = self.text.as_str().substring_char(*from, *to);
                    out.append(piece);
                },
                Segment::Positional { index } => {
                    if *index < args.len() {
                        out.append(args[*index].as_str());
                        proof {
                            assert(args_views[*index as int] == args@[*index as int]@);
                        }
                    }
                },
                Segment::Named { name: _ } => {},
            }
        }
        proof {
            assert(self.segments().take(m as int) == self.segments());
        }
        out
    }

    /// How many positional placeholders the template holds.
    pub fn count_positional(&self) -> (r: usize)
        ensures
            r == positional_count(self.segments()),
    {
        proof {
            lemma_positional_count_le_len(self.segments());
        }
        let mut count: usize = 0;
        let m = self.segments.len();
        for s in 0..m
            invariant
                m == self.segments().len(),
                positional_count(self.segments()) <= m,
                count == positional_count(self.segments().take(s as int)),
                count <= s,
            decreases m - s,
        {
            proof {
                assert(self.segments().take(s + 1).drop_last() == self.segments().take(s as int));
                assert(self.segments().take(s + 1).last() == self.segments()[s as int]);
                reveal_with_fuel(Seq::filter, 2);
            }
            if matches!(&self.segments[s], Segment::Positional { .. }) {
                count = count + 1;
            }
        }
        proof {
            assert(self.segments().take(m as int) == self.segments());
        }
        count
    }
}

/// One escaped-brace step of the scanner preserves the rendering
/// correspondence: the flushed literal ends with the kept brace, and the
/// skipped one contributes nothing.
proof fn lemma_parse_escape_step(
    text: Seq<char>,
    before: Seq<Segment>,
    after: Seq<Segment>,
    ls: int,
    i: int,
    k: int,
)
    requires
        0 <= ls <= i,
        i + 1 < text.len(),
        text[i] == '{' && text[i + 1] == '{' || text[i] == '}' && text[i + 1] == '}',
        after == before.push(Segment::Literal { from: ls as usize, to: (i + 1) as usize }),
        ls < i + 1 <= text.len(),
        text.len() <= usize::MAX,
        forall|args: Seq<Seq<char>>|
            #[trigger] spec_format(text, 0, args, 0) == rendering(before, text, args)
                + text.subrange(ls, i) + spec_format(text, i, args, k),
    ensures
        forall|args: Seq<Seq<char>>|
            #[trigger] spec_format(text, 0, args, 0) == rendering(after, text, args)
                + text.subrange(i + 2, i + 2) + spec_format(text, i + 2, args, k),
{
    assert forall|args: Seq<Seq<char>>|
        #[trigger] spec_format(text, 0, args, 0) == rendering(after, text, args)
            + text.subrange(i + 2, i + 2) + spec_format(text, i + 2, args, k) by {
        assert(spec_format(text, 0, args, 0) == rendering(before, text, args)
            + text.subrange(ls, i) + spec_format(text, i, args, k));
        assert(after.drop_last() == before);
        assert(after.last() == Segment::Literal { from: ls as usize, to: (i + 1) as usize });
        assert(segment_rendering(after.last(), text, args) == text.subrange(ls, i + 1));
        assert(rendering(after, text, args) == rendering(before, text, args)
            + text.subrange(ls, i + 1));
        assert(spec_format(text, i, args, k) == seq![text[i]] + spec_format(
            text,
            i + 2,
            args,
            k,
        ));
        assert(text.subrange(ls, i + 1) =~= text.subrange(ls, i) + seq![text[i]]);
        assert(rendering(after, text, args) + text.subrange(i + 2, i + 2) + spec_format(
            text,
            i + 2,
            args,
            k,
        ) =~= rendering(before, text, args) + text.subrange(ls, i) + spec_format(
            text,
            i,
            args,
            k,
        ));
    }
}

/// One ordinary-character step of the scanner preserves the rendering
/// correspondence: the pending literal grows by that character.
proof fn lemma_parse_char_step(text: Seq<char>, segs: Seq<Segment>, ls: int, i: int, k: int)
    requires
        0 <= ls <= i < text.len(),
        text[i] != '{',
        !(text[i] == '}' && i + 1 < text.len() && text[i + 1] == '}'),
        forall|args: Seq<Seq<char>>|
            #[trigger] spec_format(text, 0, args, 0) == rendering(segs, text, args)
                + text.subrange(ls, i) + spec_format(text, i, args, k),
    ensures
        forall|args: Seq<Seq<char>>|
            #[trigger] spec_format(text, 0, args, 0) == rendering(segs, text, args)
                + text.subrange(ls, i + 1) + spec_format(text, i + 1, args, k),
{
    assert forall|args: Seq<Seq<char>>|
        #[trigger] spec_format(text, 0, args, 0) == rendering(segs, text, args)
            + text.subrange(ls, i + 1) + spec_format(text, i + 1, args, k) by {
        assert(spec_format(text, 0, args, 0) == rendering(segs, text, args) + text.subrange(
            ls,
            i,
        ) + spec_format(text, i, args, k));
        assert(spec_format(text, i, args, k) == seq![text[i]] + spec_format(
            text,
            i + 1,
            args,
            k,
        ));
        assert(rendering(segs, text, args) + text.subrange(ls, i + 1) + spec_format(
            text,
            i + 1,
            args,
            k,
        ) =~= rendering(segs, text, args) + text.subrange(ls, i) + spec_format(
            text,
            i,
            args,
            k,
        ));
    }
}

/// One placeholder step of the scanner preserves the rendering
/// correspondence: the flushed literal ends before the opening brace, the
/// pushed segment contributes what the placeholder means, and scanning
/// resumes after the closing brace.
proof fn lemma_parse_placeholder_step(
    text: Seq<char>,
    before: Seq<Segment>,
    flushed: Seq<Segment>,
    after: Seq<Segment>,
    ls: int,
    i: int,
    k: int,
    ce: int,
    next: int,
    k_after: int,
)
    requires
        0 <= ls <= i < text.len(),
        text[i] == '{',
        !(i + 1 < text.len() && text[i + 1] == '{'),
        ce == content_stop(text, i + 1),
        next == past_placeholder(text, ce),
        text.len() <= usize::MAX,
        0 <= k <= usize::MAX,
        ls < i ==> flushed == before.push(
            Segment::Literal { from: ls as usize, to: i as usize },
        ),
        ls == i ==> flushed == before,
        content_is_name(text, i + 1, ce) ==> {
            &&& after.len() == flushed.len() + 1
            &&& after.drop_last() == flushed
            &&& after.last() is Named
            &&& k_after == k
        },
        !content_is_name(text, i + 1, ce) ==> {
            &&& after == flushed.push(Segment::Positional { index: k as usize })
            &&& k_after == k + 1
            &&& k as usize as int == k
        },
        forall|args: Seq<Seq<char>>|
            #[trigger] spec_format(text, 0, args, 0) == rendering(before, text, args)
                + text.subrange(ls, i) + spec_format(text, i, args, k),
    ensures
        forall|args: Seq<Seq<char>>|
            #[trigger] spec_format(text, 0, args, 0) == rendering(after, text, args)
                + text.subrange(next, next) + spec_format(text, next, args, k_after),
{
    assert forall|args: Seq<Seq<char>>|
        #[trigger] spec_format(text, 0, args, 0) == rendering(after, text, args)
            + text.subrange(next, next) + spec_format(text, next, args, k_after) by {
        lemma_stops_in_range(text, i + 1);
        lemma_stops_in_range(text, ce);
        assert(i + 1 <= ce <= text.len());
        assert(ce <= next <= text.len());
        assert(spec_format(text, 0, args, 0) == rendering(before, text, args) + text.subrange(
            ls,
            i,
        ) + spec_format(text, i, args, k));
        assert(rendering(flushed, text, args) =~= rendering(before, text, args)
            + text.subrange(ls, i)) by {
            if ls < i {
                assert(flushed.drop_last() == before);
                assert(flushed.last() == Segment::Literal { from: ls as usize, to: i as usize });
                assert(segment_rendering(flushed.last(), text, args) == text.subrange(ls, i));
                assert(rendering(flushed, text, args) == rendering(before, text, args)
                    + text.subrange(ls, i));
            } else {
                assert(text.subrange(ls, i) =~= Seq::<char>::empty());
            }
        }
        let contribution = segment_rendering(after.last(), text, args);
        assert(after.drop_last() == flushed);
        assert(rendering(after, text, args) == rendering(flushed, text, args) + contribution);
        if content_is_name(text, i + 1, ce) {
            assert(spec_format(text, i, args, k) == spec_format(text, next, args, k));
            assert(contribution =~= Seq::<char>::empty());
        } else {
            assert(spec_format(text, i, args, k) == (if k < args.len() {
                args[k]
            } else {
                Seq::<char>::empty()
            }) + spec_format(text, next, args, k + 1));
            assert(contribution =~= (if k < args.len() {
                args[k]
            } else {
                Seq::<char>::empty()
            }));
        }
        assert(rendering(after, text, args) + text.subrange(next, next) + spec_format(
            text,
            next,
            args,
            k_after,
        ) =~= rendering(before, text, args) + text.subrange(ls, i) + spec_format(
            text,
            i,
            args,
            k,
        ));
    }
}

/// The views of a sequence of strings.
pub open spec fn views_of(args: Seq<String>) -> Seq<Seq<char>> {
    args.map_values(|s: String| s@)
}

/// Appends a literal segment covering `from..to`.
fn push_literal(segments: &mut Vec<Segment>, from: usize, to: usize, text: Ghost<Seq<char>>)
    requires
        from < to <= text@.len(),
        forall|k: int|
            0 <= k < old(segments)@.len() ==> segment_wf(#[trigger] old(segments)@[k], text@),
        forall|k: int|
            0 <= k < old(segments)@.len() && old(segments)@[k] is Positional
                ==> (#[trigger] old(segments)@[k])->Positional_index == positional_count(
                old(segments)@.take(k),
            ),
    ensures
        final(segments)@ == old(segments)@.push(Segment::Literal { from, to }),
        forall|k: int|
            0 <= k < final(segments)@.len() ==> segment_wf(#[trigger] final(segments)@[k], text@),
        forall|k: int|
            0 <= k < final(segments)@.len() && final(segments)@[k] is Positional
                ==> (#[trigger] final(segments)@[k])->Positional_index == positional_count(
                final(segments)@.take(k),
            ),
        positional_count(final(segments)@) == positional_count(old(segments)@),
        has_named(final(segments)@) == has_named(old(segments)@),
{
    let ghost segs0 = segments@;
    segments.push(Segment::Literal { from, to });
    proof {
        lemma_positional_push(segs0, Segment::Literal { from, to });
        assert forall|k: int|
            0 <= k < segments@.len() && segments@[k] is Positional implies (
        #[trigger] segments@[k])->Positional_index == positional_count(segments@.take(k)) by {
            assert(k < segs0.len());
            assert(segments@[k] == segs0[k]);
            assert(segments@.take(k) == segs0.take(k));
        }
    }
}

/// Pushing a segment extends the positional count by one exactly when the
/// segment is positional, and leaves every prefix count unchanged.
proof fn lemma_positional_push(segs: Seq<Segment>, seg: Segment)
    ensures
        seg is Positional ==> positional_count(segs.push(seg)) == positional_count(segs) + 1,
        !(seg is Positional) ==> positional_count(segs.push(seg)) == positional_count(segs),
        segs.push(seg).take(segs.len() as int) == segs,
        forall|k: int| 0 <= k < segs.len() ==> segs.push(seg).take(k) == segs.take(k),
        has_named(segs.push(seg)) == (has_named(segs) || seg is Named),
{
    assert(segs.push(seg).drop_last() == segs);
    reveal_with_fuel(Seq::filter, 2);
    assert(segs.push(seg).take(segs.len() as int) =~= segs);
    assert forall|k: int| 0 <= k < segs.len() implies segs.push(seg).take(k) == segs.take(k) by {
        assert(segs.push(seg).take(k) =~= segs.take(k));
    }
    let pushed = segs.push(seg);
    if has_named(segs) {
        let i = choose|i: int| 0 <= i < segs.len() && segs[i] is Named;
        assert(pushed[i] is Named);
        assert(has_named(pushed));
    }
    if seg is Named {
        assert(pushed[segs.len() as int] is Named);
        assert(has_named(pushed));
    }
    if has_named(pushed) && !has_named(segs) {
        let i = choose|i: int| 0 <= i < pushed.len() && pushed[i] is Named;
        if i < segs.len() {
            assert(segs[i] is Named);
        } else {
            assert(pushed[i] == seg);
        }
    }
}

/// A filtered sequence is no longer than the sequence itself.
proof fn lemma_positional_count_le_len(segs: Seq<Segment>)
    ensures
        positional_count(segs) <= segs.len(),
    decreases segs.len(),
{
    reveal_with_fuel(Seq::filter, 2);
    if segs.len() > 0 {
        lemma_positional_count_le_len(segs.drop_last());
    }
}

/// Whether every character of `text` in `from..to` is an ascii digit.
fn all_digits(text: &str, from: usize, to: usize) -> (r: bool)
    requires
        from <= to <= text@.len(),
    ensures
        r == forall|k: int| from <= k < to ==> '0' <= #[trigger] text@[k] <= '9',
{
    let mut k = from;
    while k < to
        invariant
            from <= k <= to <= text@.len(),
            forall|j: int| from <= j < k ==> '0' <= #[trigger] text@[j] <= '9',
        decreases to - k,
    {
        let c = text.get_char(k);
        if !(c >= '0' && c <= '9') {
            return false;
        }
        k = k + 1;
    }
    true
}

/// Whether `text[from..to]` starts like a variable name: a letter or an
/// underscore.
fn starts_like_name(text: &str, from: usize, to: usize) -> (r: bool)
    requires
        from <= to <= text@.len(),
    ensures
        r == (from < to && (('a' <= text@[from as int] <= 'z') || ('A' <= text@[from as int]
            <= 'Z') || text@[from as int] == '_')),
{
    if from >= to {
        return false;
    }
    let c = text.get_char(from);
    (c >= 'a' && c <= 'z') || (c >= 'A' && c <= 'Z') || c == '_'
}

/// Analyzes a format string: whether it holds positional placeholders,
/// whether it holds named ones, how many positional ones there are, and the
/// distinct placeholder names in order of first appearance.
pub fn analyze_format_string(format_str: &str) -> (r: (bool, bool, usize, Vec<String>))
    ensures
        r.0 == (spec_positional_total(format_str@, 0) > 0),
        r.1 == spec_has_named(format_str@, 0),
        r.2 == spec_positional_total(format_str@, 0),
{
    let template = Template::parse(format_str);
    let count = template.count_positional();
    let mut named: Vec<String> = Vec::new();
    let mut found_named = false;
    let m = template.segments.len();
    for s in 0..m
        invariant
            m == template.segments().len(),
            found_named == exists|i: int| 0 <= i < s && template.segments()[i] is Named,
    {
        if let Segment::Named { name } = &template.segments[s] {
            found_named = true;
            if !contains_string(&named, name) {
                named.push(name.clone());
            }
            proof {
                assert(template.segments()[s as int] is Named);
            }
        }
    }
    proof {
        if found_named {
            assert(has_named(template.segments()));
        }
        if has_named(template.segments()) {
            let i = choose|i: int|
                0 <= i < template.segments().len() && template.segments()[i] is Named;
            assert(found_named);
        }
    }
    (count > 0, found_named, count, named)
}

/// Whether `needle` occurs in `haystack`.
fn contains_string(haystack: &Vec<String>, needle: &String) -> (r: bool)
    ensures
        r == exists|i: int| 0 <= i < haystack@.len() && (#[trigger] haystack@[i])@ == needle@,
{
    let n = haystack.len();
    for i in 0..n
        invariant
            n == haystack@.len(),
            forall|j: int| 0 <= j < i ==> (#[trigger] haystack@[j])@ != needle@,
    {
        if haystack[i] == *needle {
            return true;
        }
    }
    false
}

/// A formatted reactive value: a template plus one string binding per
/// placeholder. Reading renders the template from the bindings' current
/// values, recomputed on every read, so a change to an argument is
/// reflected by the next read.
#[derive(Debug, Clone)]
pub struct FormatSignal {
    template: Template,
    args: Vec<Binding<String>>,
}

impl FormatSignal {
    /// The scanned template.
    pub closed spec fn template(&self) -> Template {
        self.template
    }

    /// The argument bindings, in placeholder order.
    pub closed spec fn args(&self) -> Seq<Binding<String>> {
        self.args@
    }

    /// The current argument values.
    pub open spec fn arg_values(&self) -> Seq<Seq<char>> {
        self.args().map_values(|b: Binding<String>| b.val()@)
    }

    /// Builds a formatted signal over positional placeholders: the first
    /// `{}` reads `args[0]`, and so on.
    pub fn positional(text: &str, args: Vec<Binding<String>>) -> (r: Self)
        ensures
            r.template().text() == text@,
            r.template().wf(),
            r.args() == args@,
    {
        FormatSignal { template: Template::parse(text), args }
    }

    /// Builds a formatted signal over named placeholders: each `{name}` is
    /// resolved to the binding paired with that name, in order of
    /// appearance. The result is `None` when the template holds a
    /// positional placeholder or names an argument that is not provided.
    pub fn named(text: &str, args: Vec<(String, Binding<String>)>) -> (r: Option<Self>)
        ensures
            r is Some ==> r->0.template().text() == text@ && r->0.template().wf(),
    {
        let template = Template::parse(text);
        let mut resolved: Vec<Binding<String>> = Vec::new();
        let mut segments: Vec<Segment> = Vec::new();
        let ghost text_view = template.text();
        let m = template.segments.len();
        let mut next_index: usize = 0;
        for s in 0..m
            invariant
                m == template.segments().len(),
                template.wf(),
                next_index == positional_count(segments@),
                next_index <= s,
                forall|k: int|
                    0 <= k < segments@.len() ==> segment_wf(#[trigger] segments@[k], text_view),
                forall|k: int|
                    0 <= k < segments@.len() && segments@[k] is Positional
                        ==> (#[trigger] segments@[k])->Positional_index == positional_count(
                        segments@.take(k),
                    ),
                text_view == template.text(),
        {
            proof {
                assert(segment_wf(template.segments()[s as int], template.text()));
            }
            let ghost segs0 = segments@;
            match &template.segments[s] {
                Segment::Named { name } => {
                    match lookup_binding(&args, name) {
                        Some(resolved_binding) => {
                            resolved.push(resolved_binding);
                            let seg = Segment::Positional { index: next_index };
                            segments.push(seg);
                            proof {
                                lemma_positional_push(segs0, seg);
                            }
                            next_index = next_index + 1;
                        },
                        None => {
                            return None;
                        },
                    }
                },
                Segment::Positional { index: _ } => {
                    return None;
                },
                Segment::Literal { from, to } => {
                    let seg = Segment::Literal { from: *from, to: *to };
                    segments.push(seg);
                    proof {
                        lemma_positional_push(segs0, seg);
                        assert(segment_wf(seg, text_view));
                    }
                },
            }
        }
        let rewritten = Template { text: template.text, segments };
        Some(FormatSignal { template: rewritten, args: resolved })
    }

    /// Renders the template from the arguments' current values.
    pub fn get(&self) -> (r: String)
        requires
            self.template().wf(),
        ensures
            r@ == rendering(self.template().segments(), self.template().text(), self.arg_values()),
    {
        let mut values: Vec<String> = Vec::new();
        let n = self.args.len();
        for i in 0..n
            invariant
                n == self.args().len(),
                values@.len() == i,
                forall|k: int| 0 <= k < i ==> (#[trigger] values@[k])@ == self.args()[k].val()@,
        {
            values.push(self.args[i].get());
            proof {
                assert(cloned::<String>(self.args()[i as int].val(), values@.last()));
            }
        }
        let r = self.template.render(&values);
        proof {
            assert(views_of(values@) =~= self.arg_values());
        }
        r
    }

    /// Sets the argument at `index` to a new value; the next read renders
    /// with it. The argument binding's own watchers are notified once.
    pub fn set_arg(&mut self, index: usize, value: String) -> (n: Notification<String>)
        requires
            index < old(self).args().len(),
        ensures
            final(self).template() == old(self).template(),
            final(self).args().len() == old(self).args().len(),
            final(self).args()[index as int].val() == value,
            forall|k: int|
                0 <= k < old(self).args().len() && k != index
                    ==> #[trigger] final(self).args()[k] == old(self).args()[k],
            n.recipients@ == old(self).args()[index as int].watcher_ids(),
    {
        let n = self.args[index].set(value);
        n
    }
}

/// The binding paired with `name`, if one is.
fn lookup_binding(args: &Vec<(String, Binding<String>)>, name: &String) -> (r: Option<
    Binding<String>,
>)
    ensures
        r is Some ==> exists|i: int|
            {
                &&& 0 <= i < args@.len()
                &&& (#[trigger] args@[i]).0@ == name@
                &&& cloned::<String>(args@[i].1.val(), r->0.val())
            },
{
    let n = args.len();
    let mut i: usize = 0;
    while i < n
        invariant
            n == args@.len(),
            i <= n,
        decreases n - i,
    {
        if args[i].0 == *name {
            let found = args[i].1.duplicate();
            proof {
                assert(args@[i as int].0@ == name@ && cloned::<String>(
                    args@[i as int].1.val(),
                    found.val(),
                ));
            }
            return Some(found);
        }
        i = i + 1;
    }
    None
}

} // verus!
