//! The format string, the argument list, and the validated format model:
//! segment splitting on the placeholder marker `{}` and the arity check
//! that the number of placeholders equals the number of arguments.

use vstd::prelude::*;

verus! {

/// True when the placeholder marker `{}` begins at offset `i` of `s`.
pub open spec fn marker_at(s: Seq<char>, i: int) -> bool {
    0 <= i && i + 1 < s.len() && s[i] == '{' && s[i + 1] == '}'
}

/// The literal segments of `s`: the substrings between consecutive
/// non-overlapping occurrences of the placeholder marker, scanned left to
/// right, empty segments preserved. A string without the marker yields a
/// single segment; the empty string yields a single empty segment.
pub open spec fn split_pieces(s: Seq<char>) -> Seq<Seq<char>>
    decreases s.len(),
{
    if marker_at(s, 0) {
        seq![Seq::<char>::empty()] + split_pieces(s.skip(2))
    } else if s.len() >= 1 {
        let rest = split_pieces(s.skip(1));
        seq![seq![s[0]] + rest[0]] + rest.skip(1)
    } else {
        seq![Seq::<char>::empty()]
    }
}

/// The number of non-overlapping occurrences of the placeholder marker in
/// `s`, scanned left to right: the placeholder count of a format string.
pub open spec fn marker_count(s: Seq<char>) -> nat
    decreases s.len(),
{
    if marker_at(s, 0) {
        1 + marker_count(s.skip(2))
    } else if s.len() >= 1 {
        marker_count(s.skip(1))
    } else {
        0
    }
}

/// The views of a sequence of strings.
pub open spec fn views(ss: Seq<String>) -> Seq<Seq<char>> {
    Seq::new(ss.len(), |i: int| ss[i]@)
}

/// Splitting never yields an empty sequence of segments, and the number of
/// literal segments is always one more than the number of placeholders.
pub proof fn lemma_segment_count(s: Seq<char>)
    ensures
        split_pieces(s).len() == marker_count(s) + 1,
    decreases s.len(),
{
    if marker_at(s, 0) {
        lemma_segment_count(s.skip(2));
    } else if s.len() >= 1 {
        lemma_segment_count(s.skip(1));
    }
}

/// A string without the marker splits into itself alone.
proof fn lemma_split_no_marker(s: Seq<char>)
    requires
        forall|j: int| !marker_at(s, j),
    ensures
        split_pieces(s) =~~= seq![s],
        marker_count(s) == 0,
    decreases s.len(),
{
    if s.len() >= 1 {
        assert(!marker_at(s, 0));
        assert forall|j: int| !marker_at(s.skip(1), j) by {
            if marker_at(s.skip(1), j) {
                assert(marker_at(s, j + 1));
            }
        }
        lemma_split_no_marker(s.skip(1));
        assert(seq![s[0]] + s.skip(1) =~= s);
    }
}

/// When the first marker of `s` begins at `k`, the first segment is the text
/// before `k` and the rest is the split of the text after the marker.
proof fn lemma_split_first_marker(s: Seq<char>, k: int)
    requires
        marker_at(s, k),
        forall|j: int| 0 <= j < k ==> !marker_at(s, j),
    ensures
        split_pieces(s) =~~= seq![s.subrange(0, k)] + split_pieces(s.skip(k + 2)),
        marker_count(s) == 1 + marker_count(s.skip(k + 2)),
    decreases k,
{
    if k == 0 {
        assert(s.subrange(0, 0) =~= Seq::<char>::empty());
    } else {
        assert(!marker_at(s, 0));
        assert(s.len() >= 1);
        let t = s.skip(1);
        assert(marker_at(t, k - 1)) by {
            assert(t[k - 1] == s[k] && t[k] == s[k + 1]);
        }
        assert forall|j: int| 0 <= j < k - 1 implies !marker_at(t, j) by {
            if marker_at(t, j) {
                assert(marker_at(s, j + 1));
            }
        }
        lemma_split_first_marker(t, k - 1);
        assert(t.skip(k + 1) =~= s.skip(k + 2));
        let rest = split_pieces(t);
        lemma_segment_count(t);
        assert(rest[0] == t.subrange(0, k - 1));
        assert(seq![s[0]] + t.subrange(0, k - 1) =~= s.subrange(0, k));
        assert(rest.skip(1) =~~= split_pieces(s.skip(k + 2)));
    }
}

/// The raw format string: the value of the format-string literal.
#[derive(Debug)]
pub struct FormatStr {
    format: String,
}

impl FormatStr {
    /// The characters of the format string.
    pub closed spec fn text(&self) -> Seq<char> {
        self.format@
    }

    /// Wraps the value of a format-string literal.
    pub fn from(format: String) -> (r: FormatStr)
        ensures
            r.text() == format@,
    {
        FormatStr { format }
    }

    /// Splits the format string on every non-overlapping occurrence of the
    /// placeholder marker `{}`, preserving empty segments.
    pub fn split_into_pieces(&self) -> (pieces: Vec<String>)
        ensures
            views(pieces@) == split_pieces(self.text()),
            pieces@.len() == marker_count(self.text()) + 1,
    {
        let s: &str = self.format.as_str();
        let n: usize = s.unicode_len();
        let mut pieces: Vec<String> = Vec::new();
        let mut start: usize = 0;
        let mut i: usize = 0;
        proof {
            assert(s@.skip(0) =~= s@);
            assert(views(pieces@) + split_pieces(s@) =~~= split_pieces(s@));
        }
        while n - i > 1
            invariant
                s@ == self.text(),
                n == s@.len(),
                start <= i <= n,
                forall|j: int| start <= j < i ==> !marker_at(s@, j),
                split_pieces(s@) =~~= views(pieces@) + split_pieces(s@.skip(start as int)),
                marker_count(s@) == pieces@.len() + marker_count(s@.skip(start as int)),
            decreases n - i,
        {
            if s.get_char(i) == '{' && s.get_char(i + 1) == '}' {
                let piece = s.substring_char(start, i).to_owned();
                proof {
                    let t = s@.skip(start as int);
                    let k = i - start;
                    assert(marker_at(t, k)) by {
                        assert(t[k] == s@[i as int] && t[k + 1] == s@[i + 1]);
                    }
                    assert forall|j: int| 0 <= j < k implies !marker_at(t, j) by {
                        if marker_at(t, j) {
                            assert(marker_at(s@, start + j));
                        }
                    }
                    lemma_split_first_marker(t, k);
                    assert(t.subrange(0, k) =~= s@.subrange(start as int, i as int));
                    assert(t.skip(k + 2) =~= s@.skip(i + 2 as int));
                    assert(views(pieces@.push(piece)) =~= views(pieces@) + seq![piece@]);
                }
                pieces.push(piece);
                start = i + 2;
                i = i + 2;
            } else {
                proof {
                    assert(forall|j: int| start <= j < i + 1 ==> !marker_at(s@, j));
                }
                i = i + 1;
            }
        }
        let last = s.substring_char(start, n).to_owned();
        proof {
            let t = s@.skip(start as int);
            assert forall|j: int| !marker_at(t, j) by {
                if marker_at(t, j) {
                    assert(marker_at(s@, start + j));
                    assert(start + j + 1 < n);
                }
            }
            lemma_split_no_marker(t);
            assert(t =~= s@.subrange(start as int, n as int));
            assert(views(pieces@.push(last)) =~= views(pieces@) + seq![last@]);
        }
        pieces.push(last);
        proof {
            lemma_segment_count(self.text());
        }
        pieces
    }
}

/// Relies on `proc_macro2::Span::call_site`: the nominal position of the
/// current invocation, used to anchor diagnostics when no argument was
/// supplied.
#[verifier::external_body]
fn call_site_span() -> proc_macro2::Span {
    proc_macro2::Span::call_site()
}

#[verifier::external_type_specification]
#[verifier::external_body]
pub struct ExSpan(proc_macro2::Span);

/// The ordered list of substitution expressions of one invocation, each kept
/// as its source text, together with the source position of the list. An
/// invocation without arguments holds nothing.
pub struct FormatArgs {
    args: Option<(Vec<String>, proc_macro2::Span)>,
}

impl FormatArgs {
    /// The texts of the argument expressions, in source order; empty when no
    /// arguments were supplied.
    pub closed spec fn arg_texts(&self) -> Seq<Seq<char>> {
        match self.args {
            Some(p) => views(p.0@),
            None => Seq::<Seq<char>>::empty(),
        }
    }

    /// The recorded source position of the argument list, if one was
    /// supplied.
    pub closed spec fn spec_span(&self) -> Option<proc_macro2::Span> {
        match self.args {
            Some(p) => Some(p.1),
            None => None,
        }
    }

    /// Wraps an optional argument list: the expression texts in source order
    /// and the list's source position.
    pub fn from(args: Option<(Vec<String>, proc_macro2::Span)>) -> (r: FormatArgs)
        ensures
            args is Some ==> r.arg_texts() == views((args->0).0@) && r.spec_span() == Some(
                (args->0).1,
            ),
            args is None ==> r.arg_texts() == Seq::<Seq<char>>::empty() && r.spec_span() is None,
    {
        FormatArgs { args }
    }

    /// The number of supplied arguments.
    pub fn len(&self) -> (n: usize)
        ensures
            n == self.arg_texts().len(),
    {
        match &self.args {
            Some(p) => p.0.len(),
            None => 0,
        }
    }

    /// The position of the argument list, if any.
    pub fn span(&self) -> (r: Option<proc_macro2::Span>)
        ensures
            r == self.spec_span(),
    {
        match &self.args {
            Some(p) => Some(p.1),
            None => None,
        }
    }

    /// The position of the argument list, or the invocation's nominal call
    /// site when no arguments were supplied.
    pub fn span_or_default(&self) -> (r: proc_macro2::Span)
        ensures
            self.spec_span() is Some ==> r == self.spec_span()->0,
    {
        match self.span() {
            Some(span) => span,
            None => call_site_span(),
        }
    }

    /// Hands the argument expression texts out, in source order.
    pub fn into_args(self) -> (r: Vec<String>)
        ensures
            views(r@) == self.arg_texts(),
    {
        match self.args {
            Some(p) => p.0,
            None => Vec::new(),
        }
    }
}

/// The kind of a compile-time diagnostic.
#[derive(PartialEq, Eq, Structural, Clone, Copy, Debug)]
pub enum ErrorKind {
    /// The format expression is not a constant string literal.
    NotStringLiteral,
    /// More arguments were supplied than the format string has placeholders.
    TooManyArgs,
    /// Fewer arguments were supplied than the format string has placeholders.
    TooFewArgs,
}

/// A compile-time diagnostic: its kind and the source position it is
/// anchored at.
#[derive(Debug)]
pub struct ExpandError {
    pub kind: ErrorKind,
    pub span: proc_macro2::Span,
}

impl ExpandError {
    /// The diagnostic message for this error.
    pub fn message(&self) -> (r: &'static str)
        ensures
            self.kind == ErrorKind::NotStringLiteral ==> r@ == "format must be a constant string literal"@,
            self.kind == ErrorKind::TooManyArgs ==> r@ == "too many format arguments passed (more than parameters)"@,
            self.kind == ErrorKind::TooFewArgs ==> r@ == "too few format arguments passed (fewer than parameters)"@,
    {
        match self.kind {
            ErrorKind::NotStringLiteral => "format must be a constant string literal",
            ErrorKind::TooManyArgs => "too many format arguments passed (more than parameters)",
            ErrorKind::TooFewArgs => "too few format arguments passed (fewer than parameters)",
        }
    }
}

/// The unvalidated pair of format string and argument list, as parsed from
/// one invocation.
pub struct PFormatArgsAST {
    pub fmt: FormatStr,
    pub args: FormatArgs,
}

/// The validated format model: the literal segments and the argument
/// expression texts, with one segment more than there are arguments.
#[derive(Debug)]
pub struct PFormatArgs {
    pub pieces: Vec<String>,
    pub args: Vec<String>,
}

impl PFormatArgs {
    /// The invariant of the validated model: one literal segment more than
    /// there are arguments.
    pub open spec fn wf(&self) -> bool {
        self.pieces@.len() == self.args@.len() + 1
    }

    /// Validates one invocation: splits the format string and checks that
    /// the number of placeholders equals the number of arguments. Succeeds
    /// exactly on that condition; too many arguments and too few arguments
    /// each yield their own diagnostic, anchored at the argument list (or at
    /// the call site when no arguments were supplied).
    pub fn try_from(value: PFormatArgsAST) -> (r: Result<PFormatArgs, ExpandError>)
        ensures
            r is Ok <==> marker_count(value.fmt.text()) == value.args.arg_texts().len(),
            r matches Ok(m) ==> m.wf() && views(m.pieces@) == split_pieces(value.fmt.text())
                && views(m.args@) == value.args.arg_texts(),
            r matches Err(e) ==> (e.kind == ErrorKind::TooManyArgs <==> marker_count(
                value.fmt.text(),
            ) < value.args.arg_texts().len()),
            r matches Err(e) ==> (e.kind == ErrorKind::TooFewArgs <==> marker_count(
                value.fmt.text(),
            ) > value.args.arg_texts().len()),
            r matches Err(e) ==> (value.args.spec_span() is Some ==> e.span
                == value.args.spec_span()->0),
    {
        let pieces = value.fmt.split_into_pieces();
        let n_args = value.args.len();
        if pieces.len() - 1 < n_args {
            Err(ExpandError { kind: ErrorKind::TooManyArgs, span: value.args.span_or_default() })
        } else if pieces.len() - 1 > n_args {
            Err(ExpandError { kind: ErrorKind::TooFewArgs, span: value.args.span_or_default() })
        } else {
            let args = value.args.into_args();
            Ok(PFormatArgs { pieces, args })
        }
    }
}

} // verus!
