//! The schema parser: raw schema text, line by line, becomes the intermediate
//! declaration model. Lines are split on newlines and tokenized on ASCII
//! whitespace; `cluster` and `enum8`/`enum16` lines open scopes that a bare
//! `}` closes (an enumeration closes before its cluster); `attr` lines with
//! the wrong field count are dropped with a non-fatal diagnostic; unbalanced
//! or malformed scope lines abort the parse.
use crate::bytes::bytes_eq;
use crate::bytes::is_space;
use crate::bytes::spec_is_space;
use crate::decl::AttrDecl;
use crate::decl::AttrDeclView;
use crate::decl::ClusterDecl;
use crate::decl::ClusterDeclView;
use crate::decl::EnumDecl;
use crate::decl::EnumDeclView;
use crate::decl::RawVariant;
use crate::decl::RawVariantView;
use crate::decl::SchemaModel;
use crate::decl::SchemaModelView;
use crate::wiretype::spec_kw_enum16;
use crate::wiretype::spec_kw_enum8;
use crate::CompileError;
use crate::Diagnostic;
use vstd::prelude::*;

verus! {

/// The lines of a byte text: the segments between newline bytes. The final
/// segment is a line too, whether or not a newline ends the text.
pub open spec fn spec_split_lines(s: Seq<u8>) -> Seq<Seq<u8>>
    decreases s.len(),
{
    if s.len() == 0 {
        seq![Seq::<u8>::empty()]
    } else if s[0] == 10 {
        seq![Seq::<u8>::empty()] + spec_split_lines(s.skip(1))
    } else {
        let r = spec_split_lines(s.skip(1));
        seq![seq![s[0]] + r[0]] + r.skip(1)
    }
}

/// A text always has at least one line.
pub proof fn lemma_split_lines_len(s: Seq<u8>)
    ensures
        spec_split_lines(s).len() >= 1,
    decreases s.len(),
{
    if s.len() > 0 && s[0] != 10 {
        lemma_split_lines_len(s.skip(1));
    }
}

/// Splitting at the first newline: the text up to it is the first line, and
/// the rest splits on its own.
proof fn lemma_split_lines_delim(s: Seq<u8>, i: int)
    requires
        0 <= i < s.len(),
        s[i] == 10,
        forall|j: int| 0 <= j < i ==> s[j] != 10,
    ensures
        spec_split_lines(s) == seq![s.take(i)] + spec_split_lines(s.skip(i + 1)),
    decreases i,
{
    if i == 0 {
        assert(s.take(0) =~= Seq::<u8>::empty());
    } else {
        assert(s.skip(1)[i - 1] == s[i]);
        assert(forall|j: int| 0 <= j < i - 1 ==> s.skip(1)[j] == s[j + 1]);
        lemma_split_lines_delim(s.skip(1), i - 1);
        let r = spec_split_lines(s.skip(1));
        lemma_split_lines_len(s.skip(1).skip(i));
        assert(r == seq![s.skip(1).take(i - 1)] + spec_split_lines(s.skip(1).skip(i)));
        assert(r[0] == s.skip(1).take(i - 1));
        assert(seq![s[0]] + s.skip(1).take(i - 1) =~= s.take(i));
        assert(s.skip(1).skip(i) =~= s.skip(i + 1));
        assert(r.skip(1) =~= spec_split_lines(s.skip(i + 1)));
        assert(spec_split_lines(s) =~= seq![s.take(i)] + spec_split_lines(s.skip(i + 1)));
    }
}

/// A text with no newline is a single line.
proof fn lemma_split_lines_none(s: Seq<u8>)
    requires
        forall|j: int| 0 <= j < s.len() ==> s[j] != 10,
    ensures
        spec_split_lines(s) == seq![s],
    decreases s.len(),
{
    if s.len() == 0 {
        assert(s =~= Seq::<u8>::empty());
    } else {
        assert(forall|j: int| 0 <= j < s.skip(1).len() ==> s.skip(1)[j] == s[j + 1]);
        lemma_split_lines_none(s.skip(1));
        let r = spec_split_lines(s.skip(1));
        assert(r[0] == s.skip(1));
        assert(seq![s[0]] + s.skip(1) =~= s);
        assert(r.skip(1) =~= Seq::<Seq<u8>>::empty());
        assert(spec_split_lines(s) =~= seq![s]);
    }
}

/// Splits a byte text into its lines.
pub fn split_lines(input: &Vec<u8>) -> (r: Vec<Vec<u8>>)
    ensures
        r.deep_view() == spec_split_lines(input@),
{
    let n = input.len();
    let mut r: Vec<Vec<u8>> = Vec::new();
    let mut pos: usize = 0;
    proof {
        assert(r.deep_view() =~~= Seq::<Seq<u8>>::empty());
        assert(input@.skip(0) =~= input@);
        assert(Seq::<Seq<u8>>::empty() + spec_split_lines(input@) =~= spec_split_lines(input@));
    }
    loop
        invariant_except_break
            spec_split_lines(input@) == r.deep_view() + spec_split_lines(input@.skip(pos as int)),
        invariant
            pos <= n,
            n == input@.len(),
        ensures
            r.deep_view() == spec_split_lines(input@),
        decreases n - pos,
    {
        let mut j: usize = pos;
        while j < n && input[j] != 10
            invariant
                pos <= j <= n,
                n == input@.len(),
                forall|k: int| pos <= k < j ==> input@[k] != 10,
            decreases n - j,
        {
            j = j + 1;
        }
        let seg = vstd::slice::slice_to_vec(vstd::slice::slice_subrange(input.as_slice(), pos, j));
        let ghost old_dv = r.deep_view();
        let ghost rest = input@.skip(pos as int);
        proof {
            assert(seg@ =~= rest.take(j - pos as int));
            assert(forall|k: int| 0 <= k < j - pos as int ==> rest[k] == input@[k + pos]);
        }
        r.push(seg);
        proof {
            assert(r.deep_view() =~~= old_dv.push(seg@));
        }
        if j == n {
            proof {
                lemma_split_lines_none(rest);
                assert(seg@ =~= rest);
                assert(old_dv + spec_split_lines(rest) =~= old_dv.push(seg@));
            }
            break ;
        }
        proof {
            assert(rest[j - pos as int] == input@[j as int]);
            lemma_split_lines_delim(rest, j - pos as int);
            assert(rest.skip(j - pos as int + 1) =~= input@.skip(j + 1));
            assert(old_dv + (seq![seg@] + spec_split_lines(input@.skip(j + 1))) =~= old_dv.push(
                seg@,
            ) + spec_split_lines(input@.skip(j + 1)));
        }
        pos = j + 1;
    }
    r
}

/// The length of the leading run of non-whitespace bytes.
pub open spec fn spec_tok_len(s: Seq<u8>) -> int
    decreases s.len(),
{
    if s.len() == 0 || spec_is_space(s[0]) {
        0
    } else {
        1 + spec_tok_len(s.skip(1))
    }
}

/// The leading token run is never longer than the text.
pub proof fn lemma_tok_len_bounds(s: Seq<u8>)
    ensures
        0 <= spec_tok_len(s) <= s.len(),
    decreases s.len(),
{
    if s.len() > 0 && !spec_is_space(s[0]) {
        lemma_tok_len_bounds(s.skip(1));
    }
}

/// The tokens of a line: the maximal runs of non-whitespace bytes, in
/// order.
pub open spec fn spec_tokens(s: Seq<u8>) -> Seq<Seq<u8>>
    decreases s.len(),
    when true
    via spec_tokens_decreases
{
    if s.len() == 0 {
        Seq::empty()
    } else if spec_is_space(s[0]) {
        spec_tokens(s.skip(1))
    } else {
        seq![s.take(spec_tok_len(s))] + spec_tokens(s.skip(spec_tok_len(s)))
    }
}

#[via_fn]
proof fn spec_tokens_decreases(s: Seq<u8>) {
    if s.len() != 0 && !spec_is_space(s[0]) {
        lemma_tok_len_bounds(s.skip(1));
        lemma_tok_len_bounds(s);
        assert(spec_tok_len(s) >= 1);
    }
}

/// Where the leading scan stops, the leading token ends.
proof fn lemma_tok_len_scan(s: Seq<u8>, j: int)
    requires
        0 <= j <= s.len(),
        forall|k: int| 0 <= k < j ==> !spec_is_space(s[k]),
        j == s.len() || spec_is_space(s[j]),
    ensures
        spec_tok_len(s) == j,
    decreases j,
{
    if j > 0 {
        assert(forall|k: int| 0 <= k < j - 1 ==> s.skip(1)[k] == s[k + 1]);
        if j - 1 < s.skip(1).len() {
            assert(s.skip(1)[j - 1] == s[j]);
        }
        lemma_tok_len_scan(s.skip(1), j - 1);
    }
}

/// Splits a line into its whitespace-separated tokens.
pub fn tokenize(line: &Vec<u8>) -> (r: Vec<Vec<u8>>)
    ensures
        r.deep_view() == spec_tokens(line@),
{
    let n = line.len();
    let mut r: Vec<Vec<u8>> = Vec::new();
    let mut pos: usize = 0;
    proof {
        assert(r.deep_view() =~~= Seq::<Seq<u8>>::empty());
        assert(line@.skip(0) =~= line@);
        assert(Seq::<Seq<u8>>::empty() + spec_tokens(line@) =~= spec_tokens(line@));
    }
    while pos < n
        invariant
            pos <= n,
            n == line@.len(),
            spec_tokens(line@) == r.deep_view() + spec_tokens(line@.skip(pos as int)),
        decreases n - pos,
    {
        let b = line[pos];
        if b == 32 || b == 9 || b == 10 || b == 12 || b == 13 {
            proof {
                let rest = line@.skip(pos as int);
                assert(rest[0] == line@[pos as int]);
                assert(spec_is_space(rest[0]));
                assert(rest.skip(1) =~= line@.skip(pos + 1));
            }
            pos = pos + 1;
        } else {
            let mut j: usize = pos + 1;
            while j < n && !is_space(line[j])
                invariant
                    pos < j <= n,
                    n == line@.len(),
                    forall|k: int| pos <= k < j ==> !spec_is_space(line@[k]),
                decreases n - j,
            {
                j = j + 1;
            }
            let tok = vstd::slice::slice_to_vec(
                vstd::slice::slice_subrange(line.as_slice(), pos, j),
            );
            let ghost old_dv = r.deep_view();
            let ghost rest = line@.skip(pos as int);
            proof {
                assert(forall|k: int| 0 <= k < rest.len() ==> rest[k] == line@[k + pos]);
                if (j as int) < n as int {
                    assert(spec_is_space(rest[j - pos as int]));
                }
                lemma_tok_len_scan(rest, j - pos as int);
                assert(tok@ =~= rest.take(j - pos as int));
                assert(rest.skip(j - pos as int) =~= line@.skip(j as int));
            }
            r.push(tok);
            proof {
                assert(r.deep_view() =~~= old_dv.push(tok@));
                assert(old_dv + (seq![tok@] + spec_tokens(line@.skip(j as int))) =~= old_dv.push(
                    tok@,
                ) + spec_tokens(line@.skip(j as int)));
            }
            pos = j;
        }
    }
    proof {
        assert(line@.skip(n as int) =~= Seq::<u8>::empty());
        assert(r.deep_view() + spec_tokens(line@.skip(n as int)) =~= r.deep_view());
    }
    r
}

/// The keyword `attr`.
pub open spec fn spec_kw_attr() -> Seq<u8> {
    seq!['a' as u8, 't' as u8, 't' as u8, 'r' as u8]
}

/// The keyword `cluster`.
pub open spec fn spec_kw_cluster() -> Seq<u8> {
    seq!['c' as u8, 'l' as u8, 'u' as u8, 's' as u8, 't' as u8, 'e' as u8, 'r' as u8]
}

/// The scope closer `}`.
pub open spec fn spec_kw_rbrace() -> Seq<u8> {
    seq!['}' as u8]
}

/// The keyword `attr`.
fn kw_attr() -> (r: Vec<u8>)
    ensures
        r@ == spec_kw_attr(),
{
    let r: Vec<u8> = vec!['a' as u8, 't' as u8, 't' as u8, 'r' as u8];
    proof {
        assert(r@ =~= spec_kw_attr());
    }
    r
}

/// The keyword `cluster`.
fn kw_cluster() -> (r: Vec<u8>)
    ensures
        r@ == spec_kw_cluster(),
{
    let r: Vec<u8> = vec![
        'c' as u8,
        'l' as u8,
        'u' as u8,
        's' as u8,
        't' as u8,
        'e' as u8,
        'r' as u8,
    ];
    proof {
        assert(r@ =~= spec_kw_cluster());
    }
    r
}

/// The keyword `enum8`.
fn kw_enum8() -> (r: Vec<u8>)
    ensures
        r@ == spec_kw_enum8(),
{
    let r: Vec<u8> = vec!['e' as u8, 'n' as u8, 'u' as u8, 'm' as u8, '8' as u8];
    proof {
        assert(r@ =~= spec_kw_enum8());
    }
    r
}

/// The keyword `enum16`.
fn kw_enum16() -> (r: Vec<u8>)
    ensures
        r@ == spec_kw_enum16(),
{
    let r: Vec<u8> = vec!['e' as u8, 'n' as u8, 'u' as u8, 'm' as u8, '1' as u8, '6' as u8];
    proof {
        assert(r@ =~= spec_kw_enum16());
    }
    r
}

/// The scope closer `}`.
fn kw_rbrace() -> (r: Vec<u8>)
    ensures
        r@ == spec_kw_rbrace(),
{
    let r: Vec<u8> = vec!['}' as u8];
    proof {
        assert(r@ =~= spec_kw_rbrace());
    }
    r
}

/// The parser's state between lines: what has been collected, and which
/// scopes stand open.
pub ghost struct ParseStateView {
    pub globals: Seq<AttrDeclView>,
    pub clusters: Seq<ClusterDeclView>,
    pub genums: Seq<EnumDeclView>,
    pub cur_cluster: Option<ClusterDeclView>,
    pub cur_enum: Option<EnumDeclView>,
    pub diags: Seq<Diagnostic>,
}

/// The state before any line: nothing collected, no scope open.
pub open spec fn spec_state0() -> ParseStateView {
    ParseStateView {
        globals: Seq::empty(),
        clusters: Seq::empty(),
        genums: Seq::empty(),
        cur_cluster: None,
        cur_enum: None,
        diags: Seq::empty(),
    }
}

/// One line's effect on the parser state. Empty lines and lines whose first
/// token starts with `#` are skipped. While an enumeration scope is open,
/// only its body lines and the closer are legal: a `<value> <name>` pair
/// extends it, `}` closes it into its owner, an opener keyword is an
/// unbalanced scope, and any other shape is malformed. Otherwise `attr`
/// lines with seven to nine fields declare an attribute (fewer or more
/// drop the record with a diagnostic), `cluster` and `enum8`/`enum16` lines
/// open scopes, a bare `}` closes the open cluster, and unrecognized lines
/// are ignored.
pub open spec fn spec_parse_line(
    st: ParseStateView,
    lineno: usize,
    toks: Seq<Seq<u8>>,
) -> Result<ParseStateView, CompileError> {
    if toks.len() == 0 {
        Ok(st)
    } else if toks[0].len() > 0 && toks[0][0] == '#' as u8 {
        Ok(st)
    } else if st.cur_enum is Some {
        let en = st.cur_enum.unwrap();
        if toks.len() == 1 && toks[0] == spec_kw_rbrace() {
            match st.cur_cluster {
                Some(c) => Ok(
                    ParseStateView {
                        globals: st.globals,
                        clusters: st.clusters,
                        genums: st.genums,
                        cur_cluster: Some(
                            ClusterDeclView {
                                line: c.line,
                                name: c.name,
                                code: c.code,
                                attributes: c.attributes,
                                enums: c.enums.push(en),
                            },
                        ),
                        cur_enum: None,
                        diags: st.diags,
                    },
                ),
                None => Ok(
                    ParseStateView {
                        globals: st.globals,
                        clusters: st.clusters,
                        genums: st.genums.push(en),
                        cur_cluster: st.cur_cluster,
                        cur_enum: None,
                        diags: st.diags,
                    },
                ),
            }
        } else if toks[0] == spec_kw_attr() || toks[0] == spec_kw_cluster() || toks[0]
            == spec_kw_enum8() || toks[0] == spec_kw_enum16() {
            Err(CompileError::UnbalancedScope { line: lineno })
        } else if toks.len() == 2 {
            Ok(
                ParseStateView {
                    globals: st.globals,
                    clusters: st.clusters,
                    genums: st.genums,
                    cur_cluster: st.cur_cluster,
                    cur_enum: Some(
                        EnumDeclView {
                            line: en.line,
                            wide: en.wide,
                            name: en.name,
                            variants: en.variants.push(
                                RawVariantView { line: lineno, value: toks[0], name: toks[1] },
                            ),
                        },
                    ),
                    diags: st.diags,
                },
            )
        } else {
            Err(CompileError::MalformedDeclaration { line: lineno })
        }
    } else if toks[0] == spec_kw_attr() {
        if 7 <= toks.len() <= 9 {
            let a = AttrDeclView {
                line: lineno,
                code: toks[1],
                name: toks[2],
                kind: toks[3],
                range: toks.subrange(4, toks.len() - 3),
                access: toks[toks.len() - 3],
                default: toks[toks.len() - 2],
                mandatory: toks[toks.len() - 1],
            };
            match st.cur_cluster {
                Some(c) => Ok(
                    ParseStateView {
                        globals: st.globals,
                        clusters: st.clusters,
                        genums: st.genums,
                        cur_cluster: Some(
                            ClusterDeclView {
                                line: c.line,
                                name: c.name,
                                code: c.code,
                                attributes: c.attributes.push(a),
                                enums: c.enums,
                            },
                        ),
                        cur_enum: None,
                        diags: st.diags,
                    },
                ),
                None => Ok(
                    ParseStateView {
                        globals: st.globals.push(a),
                        clusters: st.clusters,
                        genums: st.genums,
                        cur_cluster: st.cur_cluster,
                        cur_enum: None,
                        diags: st.diags,
                    },
                ),
            }
        } else {
            Ok(
                ParseStateView {
                    globals: st.globals,
                    clusters: st.clusters,
                    genums: st.genums,
                    cur_cluster: st.cur_cluster,
                    cur_enum: st.cur_enum,
                    diags: st.diags.push(Diagnostic { line: lineno }),
                },
            )
        }
    } else if toks[0] == spec_kw_cluster() {
        if st.cur_cluster is Some {
            Err(CompileError::UnbalancedScope { line: lineno })
        } else if toks.len() >= 3 {
            Ok(
                ParseStateView {
                    globals: st.globals,
                    clusters: st.clusters,
                    genums: st.genums,
                    cur_cluster: Some(
                        ClusterDeclView {
                            line: lineno,
                            name: toks[1],
                            code: toks[2],
                            attributes: Seq::empty(),
                            enums: Seq::empty(),
                        },
                    ),
                    cur_enum: None,
                    diags: st.diags,
                },
            )
        } else {
            Err(CompileError::MalformedDeclaration { line: lineno })
        }
    } else if toks[0] == spec_kw_enum8() || toks[0] == spec_kw_enum16() {
        if toks.len() >= 2 {
            Ok(
                ParseStateView {
                    globals: st.globals,
                    clusters: st.clusters,
                    genums: st.genums,
                    cur_cluster: st.cur_cluster,
                    cur_enum: Some(
                        EnumDeclView {
                            line: lineno,
                            wide: toks[0] == spec_kw_enum16(),
                            name: toks[1],
                            variants: Seq::empty(),
                        },
                    ),
                    diags: st.diags,
                },
            )
        } else {
            Err(CompileError::MalformedDeclaration { line: lineno })
        }
    } else if toks.len() == 1 && toks[0] == spec_kw_rbrace() {
        match st.cur_cluster {
            Some(c) => Ok(
                ParseStateView {
                    globals: st.globals,
                    clusters: st.clusters.push(c),
                    genums: st.genums,
                    cur_cluster: None,
                    cur_enum: st.cur_enum,
                    diags: st.diags,
                },
            ),
            None => Err(CompileError::UnbalancedScope { line: lineno }),
        }
    } else {
        Ok(st)
    }
}

/// The parser state after the first `n` lines, or the first fatal error.
pub open spec fn spec_parse_upto(lines: Seq<Seq<u8>>, n: int) -> Result<
    ParseStateView,
    CompileError,
>
    decreases n,
{
    if n <= 0 {
        Ok(spec_state0())
    } else {
        match spec_parse_upto(lines, n - 1) {
            Err(e) => Err(e),
            Ok(st) => spec_parse_line(st, n as usize, spec_tokens(lines[n - 1])),
        }
    }
}

/// The parse of a whole text, as a mathematical value: the model and the
/// non-fatal diagnostics, or the first fatal error. A scope still open at
/// the end of the text is an unbalanced scope, reported at its opener's
/// line.
pub open spec fn spec_parse(input: Seq<u8>) -> Result<
    (SchemaModelView, Seq<Diagnostic>),
    CompileError,
> {
    let lines = spec_split_lines(input);
    match spec_parse_upto(lines, lines.len() as int) {
        Err(e) => Err(e),
        Ok(st) => {
            if st.cur_enum is Some {
                Err(CompileError::UnbalancedScope { line: st.cur_enum.unwrap().line })
            } else if st.cur_cluster is Some {
                Err(CompileError::UnbalancedScope { line: st.cur_cluster.unwrap().line })
            } else {
                Ok(
                    (
                        SchemaModelView {
                            global_attributes: st.globals,
                            clusters: st.clusters,
                            global_enums: st.genums,
                        },
                        st.diags,
                    ),
                )
            }
        },
    }
}

/// A fatal error in a prefix of the lines is the parse's outcome.
proof fn lemma_parse_upto_err(lines: Seq<Seq<u8>>, i: int)
    requires
        0 <= i <= lines.len(),
        spec_parse_upto(lines, i) is Err,
    ensures
        spec_parse_upto(lines, lines.len() as int) == spec_parse_upto(lines, i),
    decreases lines.len() - i,
{
    if i < lines.len() {
        lemma_parse_upto_err(lines, i + 1);
    }
}

/// The view of the parser's executable state.
pub open spec fn spec_exec_state(
    globals: Seq<AttrDecl>,
    clusters: Seq<ClusterDecl>,
    genums: Seq<EnumDecl>,
    cur_cluster: Option<ClusterDecl>,
    cur_enum: Option<EnumDecl>,
    diags: Seq<Diagnostic>,
) -> ParseStateView {
    ParseStateView {
        globals: globals.map_values(|a: AttrDecl| a@),
        clusters: clusters.map_values(|c: ClusterDecl| c@),
        genums: genums.map_values(|e: EnumDecl| e@),
        cur_cluster: match cur_cluster {
            Some(c) => Some(c@),
            None => None,
        },
        cur_enum: match cur_enum {
            Some(e) => Some(e@),
            None => None,
        },
        diags: diags,
    }
}

/// Clones a range of a token list.
fn vecs_subrange(toks: &Vec<Vec<u8>>, a: usize, b: usize) -> (r: Vec<Vec<u8>>)
    requires
        a <= b <= toks@.len(),
    ensures
        r.deep_view() == toks.deep_view().subrange(a as int, b as int),
{
    let mut r: Vec<Vec<u8>> = Vec::new();
    let mut i: usize = a;
    proof {
        assert(r.deep_view() =~~= toks.deep_view().subrange(a as int, a as int));
    }
    while i < b
        invariant
            a <= i <= b <= toks@.len(),
            r.deep_view() == toks.deep_view().subrange(a as int, i as int),
        decreases b - i,
    {
        let ghost old_dv = r.deep_view();
        r.push(toks[i].clone());
        proof {
            assert(toks.deep_view()[i as int] =~= toks@[i as int]@);
            assert(r.deep_view() =~~= old_dv.push(toks.deep_view()[i as int]));
            assert(r.deep_view() =~= toks.deep_view().subrange(a as int, i + 1));
        }
        i = i + 1;
    }
    r
}

/// Parses a whole schema text into the intermediate model and the non-fatal
/// diagnostics for dropped records, or stops at the first fatal error.
pub fn parse(input: &Vec<u8>) -> (r: Result<(SchemaModel, Vec<Diagnostic>), CompileError>)
    ensures
        match r {
            Ok(p) => spec_parse(input@) == Ok::<(SchemaModelView, Seq<Diagnostic>), CompileError>(
                (p.0@, p.1@),
            ),
            Err(e) => spec_parse(input@) == Err::<(SchemaModelView, Seq<Diagnostic>), CompileError>(
                e,
            ),
        },
{
    let lines = split_lines(input);
    let ghost linesv = lines.deep_view();
    let mut globals: Vec<AttrDecl> = Vec::new();
    let mut clusters: Vec<ClusterDecl> = Vec::new();
    let mut genums: Vec<EnumDecl> = Vec::new();
    let mut cur_cluster: Option<ClusterDecl> = None;
    let mut cur_enum: Option<EnumDecl> = None;
    let mut diags: Vec<Diagnostic> = Vec::new();
    let mut i: usize = 0;
    proof {
        assert(globals@.map_values(|a: AttrDecl| a@) =~= Seq::<AttrDeclView>::empty());
        assert(clusters@.map_values(|c: ClusterDecl| c@) =~= Seq::<ClusterDeclView>::empty());
        assert(genums@.map_values(|e: EnumDecl| e@) =~= Seq::<EnumDeclView>::empty());
        assert(spec_parse_upto(linesv, 0) == Ok::<ParseStateView, CompileError>(
            spec_exec_state(globals@, clusters@, genums@, cur_cluster, cur_enum, diags@),
        ));
    }
    while i < lines.len()
        invariant
            i <= lines@.len(),
            linesv == lines.deep_view(),
            linesv == spec_split_lines(input@),
            linesv.len() == lines@.len(),
            spec_parse_upto(linesv, i as int) == Ok::<ParseStateView, CompileError>(
                spec_exec_state(globals@, clusters@, genums@, cur_cluster, cur_enum, diags@),
            ),
        decreases lines@.len() - i,
    {
        let ghost st0 = spec_exec_state(globals@, clusters@, genums@, cur_cluster, cur_enum, diags@);
        let toks = tokenize(&lines[i]);
        let lineno = i + 1;
        proof {
            assert(linesv[i as int] == lines@[i as int]@);
            assert(toks.deep_view() == spec_tokens(linesv[i as int]));
        }
        let ghost toksv = toks.deep_view();
        let ghost goal = spec_parse_line(st0, lineno, toksv);
        if toks.len() == 0 {
            // An empty line is skipped.
        } else {
            proof {
                assert(toksv[0] == toks@[0]@);
                assert(forall|k: int| 0 <= k < toksv.len() ==> toksv[k] == toks@[k]@);
            }
            if toks[0].len() > 0 && toks[0][0] == '#' as u8 {
                // A comment line is skipped.
            } else if cur_enum.is_some() {
                let is_closer = toks.len() == 1 && bytes_eq(&toks[0], &kw_rbrace());
                let is_opener = bytes_eq(&toks[0], &kw_attr()) || bytes_eq(&toks[0], &kw_cluster())
                    || bytes_eq(&toks[0], &kw_enum8()) || bytes_eq(&toks[0], &kw_enum16());
                if is_closer {
                    let en = match cur_enum {
                        Some(e) => e,
                        None => {
                            proof {
                                assert(false);
                            }
                            unreached()
                        },
                    };
                    cur_enum = None;
                    match cur_cluster {
                        Some(mut c) => {
                            let ghost oldc = c;
                            c.enums.push(en);
                            proof {
                                assert(c.enums@.map_values(|e: EnumDecl| e@) =~= oldc.enums@
                                    .map_values(|e: EnumDecl| e@).push(en@));
                            }
                            cur_cluster = Some(c);
                        },
                        None => {
                            let ghost oldg = genums@;
                            genums.push(en);
                            proof {
                                assert(genums@.map_values(|e: EnumDecl| e@) =~= oldg.map_values(
                                    |e: EnumDecl| e@,
                                ).push(en@));
                            }
                            cur_cluster = None;
                        },
                    }
                } else if is_opener {
                    proof {
                        assert(goal == Err::<ParseStateView, CompileError>(
                            CompileError::UnbalancedScope { line: lineno },
                        ));
                        lemma_parse_upto_err(linesv, i + 1);
                    }
                    return Err(CompileError::UnbalancedScope { line: lineno });
                } else if toks.len() == 2 {
                    let mut en = match cur_enum {
                        Some(e) => e,
                        None => {
                            proof {
                                assert(false);
                            }
                            unreached()
                        },
                    };
                    let ghost olde = en;
                    let v = RawVariant {
                        line: lineno,
                        value: toks[0].clone(),
                        name: toks[1].clone(),
                    };
                    en.variants.push(v);
                    proof {
                        assert(en.variants@.map_values(|x: RawVariant| x@) =~= olde.variants@
                            .map_values(|x: RawVariant| x@).push(
                            RawVariantView { line: lineno, value: toksv[0], name: toksv[1] },
                        ));
                    }
                    cur_enum = Some(en);
                } else {
                    proof {
                        assert(goal == Err::<ParseStateView, CompileError>(
                            CompileError::MalformedDeclaration { line: lineno },
                        ));
                        lemma_parse_upto_err(linesv, i + 1);
                    }
                    return Err(CompileError::MalformedDeclaration { line: lineno });
                }
            } else if bytes_eq(&toks[0], &kw_attr()) {
                if 7 <= toks.len() && toks.len() <= 9 {
                    let nt = toks.len();
                    let a = AttrDecl {
                        line: lineno,
                        code: toks[1].clone(),
                        name: toks[2].clone(),
                        kind: toks[3].clone(),
                        range: vecs_subrange(&toks, 4, nt - 3),
                        access: toks[nt - 3].clone(),
                        default: toks[nt - 2].clone(),
                        mandatory: toks[nt - 1].clone(),
                    };
                    proof {
                        assert(a@ == AttrDeclView {
                            line: lineno,
                            code: toksv[1],
                            name: toksv[2],
                            kind: toksv[3],
                            range: toksv.subrange(4, toksv.len() - 3),
                            access: toksv[toksv.len() - 3],
                            default: toksv[toksv.len() - 2],
                            mandatory: toksv[toksv.len() - 1],
                        });
                    }
                    match cur_cluster {
                        Some(mut c) => {
                            let ghost oldc = c;
                            c.attributes.push(a);
                            proof {
                                assert(c.attributes@.map_values(|x: AttrDecl| x@) =~= oldc
                                    .attributes@.map_values(|x: AttrDecl| x@).push(
                                    c.attributes@.last()@,
                                ));
                            }
                            cur_cluster = Some(c);
                        },
                        None => {
                            let ghost oldg = globals@;
                            globals.push(a);
                            proof {
                                assert(globals@.map_values(|x: AttrDecl| x@) =~= oldg.map_values(
                                    |x: AttrDecl| x@,
                                ).push(globals@.last()@));
                            }
                            cur_cluster = None;
                        },
                    }
                } else {
                    diags.push(Diagnostic { line: lineno });
                }
            } else if bytes_eq(&toks[0], &kw_cluster()) {
                if cur_cluster.is_some() {
                    proof {
                        assert(goal == Err::<ParseStateView, CompileError>(
                            CompileError::UnbalancedScope { line: lineno },
                        ));
                        lemma_parse_upto_err(linesv, i + 1);
                    }
                    return Err(CompileError::UnbalancedScope { line: lineno });
                } else if toks.len() >= 3 {
                    cur_cluster = Some(
                        ClusterDecl {
                            line: lineno,
                            name: toks[1].clone(),
                            code: toks[2].clone(),
                            attributes: Vec::new(),
                            enums: Vec::new(),
                        },
                    );
                    proof {
                        let c = cur_cluster.unwrap();
                        assert(c.attributes@.map_values(|x: AttrDecl| x@) =~= Seq::<
                            AttrDeclView,
                        >::empty());
                        assert(c.enums@.map_values(|x: EnumDecl| x@) =~= Seq::<
                            EnumDeclView,
                        >::empty());
                    }
                } else {
                    proof {
                        assert(goal == Err::<ParseStateView, CompileError>(
                            CompileError::MalformedDeclaration { line: lineno },
                        ));
                        lemma_parse_upto_err(linesv, i + 1);
                    }
                    return Err(CompileError::MalformedDeclaration { line: lineno });
                }
            } else if bytes_eq(&toks[0], &kw_enum8()) || bytes_eq(&toks[0], &kw_enum16()) {
                if toks.len() >= 2 {
                    let wide = bytes_eq(&toks[0], &kw_enum16());
                    cur_enum = Some(
                        EnumDecl { line: lineno, wide, name: toks[1].clone(), variants: Vec::new() },
                    );
                    proof {
                        let e = cur_enum.unwrap();
                        assert(e.variants@.map_values(|x: RawVariant| x@) =~= Seq::<
                            RawVariantView,
                        >::empty());
                    }
                } else {
                    proof {
                        assert(goal == Err::<ParseStateView, CompileError>(
                            CompileError::MalformedDeclaration { line: lineno },
                        ));
                        lemma_parse_upto_err(linesv, i + 1);
                    }
                    return Err(CompileError::MalformedDeclaration { line: lineno });
                }
            } else if toks.len() == 1 && bytes_eq(&toks[0], &kw_rbrace()) {
                match cur_cluster {
                    Some(c) => {
                        let ghost oldcs = clusters@;
                        clusters.push(c);
                        proof {
                            assert(clusters@.map_values(|x: ClusterDecl| x@) =~= oldcs.map_values(
                                |x: ClusterDecl| x@,
                            ).push(clusters@.last()@));
                        }
                        cur_cluster = None;
                    },
                    None => {
                        proof {
                            assert(goal == Err::<ParseStateView, CompileError>(
                                CompileError::UnbalancedScope { line: lineno },
                            ));
                            lemma_parse_upto_err(linesv, i + 1);
                        }
                        return Err(CompileError::UnbalancedScope { line: lineno });
                    },
                }
            } else {
                // An unrecognized line outside any enumeration is skipped.
            }
        }
        proof {
            let st1 = spec_exec_state(globals@, clusters@, genums@, cur_cluster, cur_enum, diags@);
            assert(goal == Ok::<ParseStateView, CompileError>(st1));
        }
        i = lineno;
    }
    proof {
        assert(i as int == linesv.len());
    }
    match cur_enum {
        Some(e) => Err(CompileError::UnbalancedScope { line: e.line }),
        None => {
            match cur_cluster {
                Some(c) => Err(CompileError::UnbalancedScope { line: c.line }),
                None => {
                    let model = SchemaModel {
                        global_attributes: globals,
                        clusters: clusters,
                        global_enums: genums,
                    };
                    Ok((model, diags))
                },
            }
        },
    }
}

} // verus!
