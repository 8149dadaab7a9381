//! Expansion of variables in configuration values, with a bash-like syntax.
//!
//! A reference is one of
//! - `${BODY}` where `BODY` holds no `}`; `${NAME:?}` fails when `NAME` is
//!   undefined, `${NAME:-DEFAULT}` uses `DEFAULT` when `NAME` is undefined and
//!   `${NAME}` expands to nothing when `NAME` is undefined;
//! - `$NAME` where `NAME` is an ASCII identifier that ends at a word boundary;
//!   it expands to nothing when undefined;
//! - `$$`, which stands for a single `$`.
//!
//! Everything else is copied verbatim. References are found from left to
//! right and do not overlap.
use vstd::prelude::*;
use std::collections::HashMap;
use crate::text::{chars_of, string_of};

verus! {

/// Whether `c` is a Unicode word character (the class `\w` of regular
/// expressions), as regex-syntax defines it; this decides where a `$NAME`
/// reference may end.
pub uninterp spec fn unicode_word_char(c: char) -> bool;

/// ASCII identifier start: a letter or `_`.
pub open spec fn is_ident_start(c: char) -> bool {
    ('a' <= c && c <= 'z') || ('A' <= c && c <= 'Z') || c == '_'
}

/// ASCII identifier character: a letter, a digit or `_`.
pub open spec fn is_ident_char(c: char) -> bool {
    is_ident_start(c) || ('0' <= c && c <= '9')
}

/// Calls `regex_syntax::is_word_character`, which tells whether a character
/// belongs to the Unicode word class (Alphabetic, Join_Control, Decimal_Number,
/// Mark or Connector_Punctuation). The contract names that result; of ASCII
/// characters it states what the classification documents: exactly letters,
/// digits and `_` are word characters.
#[verifier::external_body]
fn is_word_char(c: char) -> (r: bool)
    ensures
        r == unicode_word_char(c),
        (c as u32) < 128 ==> (r <==> is_ident_char(c)),
{
    regex_syntax::is_word_character(c)
}

/// A reference found in the input.
pub ghost enum VarRef {
    /// `${BODY}`
    Braced(Seq<char>),
    /// `$NAME`
    Named(Seq<char>),
    /// `$$`
    Dollar,
}

/// Index of the first `}` at or after `i`, or the length when there is none.
pub open spec fn close_brace(s: Seq<char>, i: int) -> int
    decreases s.len() - i,
{
    if i < 0 || i >= s.len() {
        s.len() as int
    } else if s[i] == '}' {
        i
    } else {
        close_brace(s, i + 1)
    }
}

/// End of the run of identifier characters that starts at `i`.
pub open spec fn ident_end(s: Seq<char>, i: int) -> int
    decreases s.len() - i,
{
    if i < 0 || i >= s.len() || !is_ident_char(s[i]) {
        i
    } else {
        ident_end(s, i + 1)
    }
}

/// Whether a `$NAME` reference that starts at `p` is found.
pub open spec fn named_ref_at(s: Seq<char>, p: int) -> bool {
    &&& p + 1 < s.len()
    &&& is_ident_start(s[p + 1])
    &&& (ident_end(s, p + 1) == s.len() || !unicode_word_char(s[ident_end(s, p + 1)]))
}

/// The reference that starts at `p` (where `s[p]` is `$`), with the index just
/// after it; `None` when the `$` starts no reference.
pub open spec fn reference_at(s: Seq<char>, p: int) -> Option<(int, VarRef)> {
    if p + 1 < s.len() && s[p + 1] == '{' && close_brace(s, p + 2) < s.len() {
        Some((close_brace(s, p + 2) + 1, VarRef::Braced(s.subrange(p + 2, close_brace(s, p + 2)))))
    } else if named_ref_at(s, p) {
        Some((ident_end(s, p + 1), VarRef::Named(s.subrange(p + 1, ident_end(s, p + 1)))))
    } else if p + 1 < s.len() && s[p + 1] == '$' {
        Some((p + 2, VarRef::Dollar))
    } else {
        None
    }
}

/// Index of the first `:-` in `b` at or after `i`, or the length of `b`.
pub open spec fn default_sep(b: Seq<char>, i: int) -> int
    decreases b.len() - i,
{
    if i < 0 || i + 1 >= b.len() {
        b.len() as int
    } else if b[i] == ':' && b[i + 1] == '-' {
        i
    } else {
        default_sep(b, i + 1)
    }
}

/// `b` ends with `:?`.
pub open spec fn ends_with_required(b: Seq<char>) -> bool {
    b.len() >= 2 && b[b.len() - 2] == ':' && b[b.len() - 1] == '?'
}

/// The variable name of a reference and the value used when the name is
/// undefined (`None`: undefined is an error).
pub open spec fn name_and_default(r: VarRef) -> (Seq<char>, Option<Seq<char>>) {
    match r {
        VarRef::Braced(b) => {
            if ends_with_required(b) {
                (b.subrange(0, b.len() - 2), None)
            } else if default_sep(b, 0) < b.len() {
                (b.subrange(0, default_sep(b, 0)), Some(b.subrange(default_sep(b, 0) + 2, b.len() as int)))
            } else {
                (b, Some(Seq::<char>::empty()))
            }
        },
        VarRef::Named(n) => (n, Some(Seq::<char>::empty())),
        VarRef::Dollar => (Seq::<char>::empty(), Some(seq!['$'])),
    }
}

/// The value a reference expands to, where `lookup` gives the values of
/// variables; an empty name always takes the default.
pub open spec fn resolve(r: VarRef, lookup: spec_fn(Seq<char>) -> Option<Seq<char>>) -> Option<Seq<char>> {
    let (name, default) = name_and_default(r);
    if name.len() == 0 {
        default
    } else {
        match lookup(name) {
            Some(v) => Some(v),
            None => default,
        }
    }
}

/// Puts `p` in front of a successful expansion.
pub open spec fn prepend(p: Seq<char>, r: Result<Seq<char>, Seq<char>>) -> Result<Seq<char>, Seq<char>> {
    match r {
        Ok(x) => Ok(p + x),
        Err(n) => Err(n),
    }
}

proof fn lemma_close_brace_bounds(s: Seq<char>, i: int)
    requires
        0 <= i,
    ensures
        i <= close_brace(s, i) <= s.len() || (i > s.len() && close_brace(s, i) == s.len()),
        close_brace(s, i) < s.len() ==> s[close_brace(s, i)] == '}',
        forall|k: int| i <= k < close_brace(s, i) ==> s[k] != '}',
    decreases s.len() - i,
{
    if i < s.len() && s[i] != '}' {
        lemma_close_brace_bounds(s, i + 1);
    }
}

proof fn lemma_ident_end_bounds(s: Seq<char>, i: int)
    requires
        0 <= i <= s.len(),
    ensures
        i <= ident_end(s, i) <= s.len(),
        forall|k: int| i <= k < ident_end(s, i) ==> is_ident_char(#[trigger] s[k]),
        ident_end(s, i) < s.len() ==> !is_ident_char(s[ident_end(s, i)]),
    decreases s.len() - i,
{
    if i < s.len() && is_ident_char(s[i]) {
        lemma_ident_end_bounds(s, i + 1);
    }
}

proof fn lemma_default_sep_bounds(b: Seq<char>, i: int)
    requires
        0 <= i,
    ensures
        default_sep(b, i) == b.len() || (i <= default_sep(b, i) && default_sep(b, i) + 1 < b.len()
            && b[default_sep(b, i)] == ':' && b[default_sep(b, i) + 1] == '-'),
    decreases b.len() - i,
{
    if i + 1 < b.len() && !(b[i] == ':' && b[i + 1] == '-') {
        lemma_default_sep_bounds(b, i + 1);
    }
}

/// A reference always ends after the `$` that starts it.
pub proof fn lemma_reference_end(s: Seq<char>, p: int)
    requires
        0 <= p < s.len(),
    ensures
        reference_at(s, p) matches Some((e, _)) ==> p < e <= s.len(),
{
    if p + 2 <= s.len() {
        lemma_close_brace_bounds(s, p + 2);
    }
    if p + 1 < s.len() {
        lemma_ident_end_bounds(s, p + 1);
    }
}

/// The expansion of `s` from index `i` on: `Ok` with the text, or `Err` with
/// the name of the first variable that is undefined where a value is required.
pub open spec fn expand_from(s: Seq<char>, i: int, lookup: spec_fn(Seq<char>) -> Option<Seq<char>>) -> Result<Seq<char>, Seq<char>>
    decreases s.len() - i,
{
    if i < 0 || i >= s.len() {
        Ok(Seq::<char>::empty())
    } else if s[i] == '$' && reference_at(s, i) is Some {
        let (e, r) = reference_at(s, i)->0;
        proof {
            lemma_reference_end(s, i);
        }
        match resolve(r, lookup) {
            None => Err(name_and_default(r).0),
            Some(v) => prepend(v, expand_from(s, e, lookup)),
        }
    } else {
        prepend(seq![s[i]], expand_from(s, i + 1, lookup))
    }
}

/// The expansion of the whole of `s`.
pub open spec fn expand(s: Seq<char>, lookup: spec_fn(Seq<char>) -> Option<Seq<char>>) -> Result<Seq<char>, Seq<char>> {
    expand_from(s, 0, lookup)
}

/// A lookup that is told where the reference stands: the position of its
/// `$` in the text, then the name; each reference may so get a value of its
/// own.
pub open spec fn resolve_at(r: VarRef, p: int, lookup: spec_fn(int, Seq<char>) -> Option<Seq<char>>) -> Option<Seq<char>> {
    let (name, default) = name_and_default(r);
    if name.len() == 0 {
        default
    } else {
        match lookup(p, name) {
            Some(v) => Some(v),
            None => default,
        }
    }
}

/// The expansion of `s` from index `i` on (see `expand_from`), where the
/// reference at position `p` takes its value from `lookup(p, name)`.
pub open spec fn expand_at_from(s: Seq<char>, i: int, lookup: spec_fn(int, Seq<char>) -> Option<Seq<char>>) -> Result<Seq<char>, Seq<char>>
    decreases s.len() - i,
{
    if i < 0 || i >= s.len() {
        Ok(Seq::<char>::empty())
    } else if s[i] == '$' && reference_at(s, i) is Some {
        let (e, r) = reference_at(s, i)->0;
        proof {
            lemma_reference_end(s, i);
        }
        match resolve_at(r, i, lookup) {
            None => Err(name_and_default(r).0),
            Some(v) => prepend(v, expand_at_from(s, e, lookup)),
        }
    } else {
        prepend(seq![s[i]], expand_at_from(s, i + 1, lookup))
    }
}

/// The expansion of the whole of `s`, each reference looked up with its
/// position.
pub open spec fn expand_at(s: Seq<char>, lookup: spec_fn(int, Seq<char>) -> Option<Seq<char>>) -> Result<Seq<char>, Seq<char>> {
    expand_at_from(s, 0, lookup)
}

/// The lookup that gives every reference to a name the same value.
pub open spec fn everywhere(lookup: spec_fn(Seq<char>) -> Option<Seq<char>>) -> spec_fn(int, Seq<char>) -> Option<Seq<char>> {
    |p: int, n: Seq<char>| lookup(n)
}

/// Where every reference to a name has the same value, the two expansions
/// agree.
pub proof fn lemma_expand_everywhere(s: Seq<char>, i: int, lookup: spec_fn(Seq<char>) -> Option<Seq<char>>)
    ensures
        expand_at_from(s, i, everywhere(lookup)) == expand_from(s, i, lookup),
    decreases s.len() - i,
{
    if i < 0 || i >= s.len() {
    } else if s[i] == '$' && reference_at(s, i) is Some {
        let (e, r) = reference_at(s, i)->0;
        lemma_reference_end(s, i);
        lemma_expand_everywhere(s, e, lookup);
    } else {
        lemma_expand_everywhere(s, i + 1, lookup);
    }
}

/// Error of an expansion.
#[derive(Debug, Clone, PartialEq, Eq)]
pub enum ExpandError {
    /// A variable that must be defined (`${NAME:?}`) is undefined; holds the name.
    Undefined(String),
}

/// The view of an optional string.
pub open spec fn opt_view(o: Option<String>) -> Option<Seq<char>> {
    match o {
        Some(s) => Some(s@),
        None => None,
    }
}

/// The variable an expansion error names.
pub open spec fn expand_error_name(e: ExpandError) -> Seq<char> {
    match e {
        ExpandError::Undefined(n) => n@,
    }
}

/// The view of the result of an expansion.
pub open spec fn expand_result_view(r: Result<String, ExpandError>) -> Result<Seq<char>, Seq<char>> {
    match r {
        Ok(s) => Ok(s@),
        Err(ExpandError::Undefined(n)) => Err(n@),
    }
}

/// Every answer the getter can give agrees with `lookup`.
pub open spec fn getter_agrees<F: Fn(&str) -> Option<String>>(getter: F, lookup: spec_fn(Seq<char>) -> Option<Seq<char>>) -> bool {
    forall|x: &str, y: Option<String>| #[trigger] call_ensures(getter, (x,), y) ==> opt_view(y) == lookup(x@)
}

/// Every answer the getter can give, asked at a position and for a name,
/// agrees with `lookup`.
pub open spec fn getter_agrees_at<F: Fn(usize, &str) -> Option<String>>(getter: F, lookup: spec_fn(int, Seq<char>) -> Option<Seq<char>>) -> bool {
    forall|p: usize, x: &str, y: Option<String>| #[trigger] call_ensures(getter, (p, x), y) ==> opt_view(y) == lookup(p as int, x@)
}

fn close_brace_exec(s: &Vec<char>, i: usize) -> (j: usize)
    requires
        i <= s.len(),
    ensures
        j == close_brace(s@, i as int),
{
    let mut j = i;
    while j < s.len() && s[j] != '}'
        invariant
            i <= j <= s.len(),
            close_brace(s@, i as int) == close_brace(s@, j as int),
        decreases s.len() - j,
    {
        j = j + 1;
    }
    j
}

fn ident_end_exec(s: &Vec<char>, i: usize) -> (j: usize)
    requires
        i <= s.len(),
    ensures
        j == ident_end(s@, i as int),
{
    let mut j = i;
    while j < s.len() && is_ident_char_exec(s[j])
        invariant
            i <= j <= s.len(),
            ident_end(s@, i as int) == ident_end(s@, j as int),
        decreases s.len() - j,
    {
        j = j + 1;
    }
    j
}

fn is_ident_start_exec(c: char) -> (r: bool)
    ensures
        r == is_ident_start(c),
{
    ('a' <= c && c <= 'z') || ('A' <= c && c <= 'Z') || c == '_'
}

fn is_ident_char_exec(c: char) -> (r: bool)
    ensures
        r == is_ident_char(c),
{
    is_ident_start_exec(c) || ('0' <= c && c <= '9')
}

fn default_sep_exec(b: &Vec<char>) -> (j: usize)
    ensures
        j == default_sep(b@, 0),
{
    let mut j: usize = 0;
    while j < b.len() && j + 1 < b.len() && !(b[j] == ':' && b[j + 1] == '-')
        invariant
            j <= b.len(),
            default_sep(b@, 0) == default_sep(b@, j as int),
        decreases b.len() - j,
    {
        j = j + 1;
    }
    if j >= b.len() || j + 1 >= b.len() {
        b.len()
    } else {
        j
    }
}

/// The reference found at a `$`, as the executable code sees it.
enum RefExec {
    Braced(usize, usize),
    Named(usize, usize),
    Dollar,
}

spec fn ref_exec_view(s: Seq<char>, r: RefExec) -> VarRef {
    match r {
        RefExec::Braced(a, b) => VarRef::Braced(s.subrange(a as int, b as int)),
        RefExec::Named(a, b) => VarRef::Named(s.subrange(a as int, b as int)),
        RefExec::Dollar => VarRef::Dollar,
    }
}

spec fn ref_exec_ok(s: Seq<char>, r: RefExec) -> bool {
    match r {
        RefExec::Braced(a, b) => a <= b <= s.len(),
        RefExec::Named(a, b) => a <= b <= s.len(),
        RefExec::Dollar => true,
    }
}

fn reference_at_exec(s: &Vec<char>, p: usize) -> (r: Option<(usize, RefExec)>)
    requires
        p < s.len(),
        s@[p as int] == '$',
    ensures
        match r {
            Some((e, x)) => reference_at(s@, p as int) == Some((e as int, ref_exec_view(s@, x)))
                && ref_exec_ok(s@, x),
            None => reference_at(s@, p as int) is None,
        },
{
    proof {
        lemma_close_brace_bounds(s@, p as int + 2);
        lemma_ident_end_bounds(s@, p as int + 1);
    }
    if p + 1 < s.len() && s[p + 1] == '{' {
        let q = close_brace_exec(s, p + 2);
        if q < s.len() {
            return Some((q + 1, RefExec::Braced(p + 2, q)));
        }
    }
    if p + 1 < s.len() && is_ident_start_exec(s[p + 1]) {
        let k = ident_end_exec(s, p + 1);
        if k == s.len() || !is_word_char(s[k]) {
            return Some((k, RefExec::Named(p + 1, k)));
        }
        return None;
    }
    if p + 1 < s.len() && s[p + 1] == '$' {
        Some((p + 2, RefExec::Dollar))
    } else {
        None
    }
}

/// Name and default of a reference, as character vectors.
fn name_and_default_exec(s: &Vec<char>, r: &RefExec) -> (res: (Vec<char>, Option<Vec<char>>))
    requires
        ref_exec_ok(s@, *r),
    ensures
        name_and_default(ref_exec_view(s@, *r)).0 == res.0@,
        name_and_default(ref_exec_view(s@, *r)).1 == match res.1 {
            Some(d) => Some(d@),
            None => None::<Seq<char>>,
        },
{
    match r {
        RefExec::Braced(a, b) => {
            let a = *a;
            let b = *b;
            let mut body: Vec<char> = Vec::new();
            let mut i = a;
            while i < b
                invariant
                    a <= i <= b <= s.len(),
                    body@ == s@.subrange(a as int, i as int),
                decreases b - i,
            {
                body.push(s[i]);
                i = i + 1;
                assert(body@ =~= s@.subrange(a as int, i as int));
            }
            let n = body.len();
            if n >= 2 && body[n - 2] == ':' && body[n - 1] == '?' {
                let mut name: Vec<char> = Vec::new();
                let mut i: usize = 0;
                while i < n - 2
                    invariant
                        n == body.len(),
                        n >= 2,
                        i <= n - 2,
                        name@ == body@.subrange(0, i as int),
                    decreases n - 2 - i,
                {
                    name.push(body[i]);
                    i = i + 1;
                    assert(name@ =~= body@.subrange(0, i as int));
                }
                (name, None)
            } else {
                let j = default_sep_exec(&body);
                proof {
                    lemma_default_sep_bounds(body@, 0);
                }
                if j < n {
                    let mut name: Vec<char> = Vec::new();
                    let mut i: usize = 0;
                    while i < j
                        invariant
                            j < n == body.len(),
                            i <= j,
                            name@ == body@.subrange(0, i as int),
                        decreases j - i,
                    {
                        name.push(body[i]);
                        i = i + 1;
                        assert(name@ =~= body@.subrange(0, i as int));
                    }
                    let mut dflt: Vec<char> = Vec::new();
                    let mut i: usize = j + 2;
                    while i < n
                        invariant
                            j + 2 <= n == body.len(),
                            j + 2 <= i <= n,
                            dflt@ == body@.subrange(j + 2, i as int),
                        decreases n - i,
                    {
                        dflt.push(body[i]);
                        i = i + 1;
                        assert(dflt@ =~= body@.subrange(j + 2, i as int));
                    }
                    (name, Some(dflt))
                } else {
                    (body, Some(Vec::new()))
                }
            }
        },
        RefExec::Named(a, b) => {
            let a = *a;
            let b = *b;
            let mut name: Vec<char> = Vec::new();
            let mut i = a;
            while i < b
                invariant
                    a <= i <= b <= s.len(),
                    name@ == s@.subrange(a as int, i as int),
                decreases b - i,
            {
                name.push(s[i]);
                i = i + 1;
                assert(name@ =~= s@.subrange(a as int, i as int));
            }
            (name, Some(Vec::new()))
        },
        RefExec::Dollar => {
            let mut d: Vec<char> = Vec::new();
            d.push('$');
            assert(d@ =~= seq!['$']);
            (Vec::new(), Some(d))
        },
    }
}

/// Expands the variables of `input`, asking `getter` for the value of each
/// referenced name (in order of appearance), together with the position of
/// the reference in `input` (counted in characters).
///
/// Whenever every answer of `getter` agrees with a function `lookup`, the
/// result is the expansion of `input` under `lookup`.
pub fn expand_vars_at<F: Fn(usize, &str) -> Option<String>>(input: &str, getter: &F) -> (r: Result<String, ExpandError>)
    requires
        forall|p: usize, x: &str| #[trigger] getter.requires((p, x)),
    ensures
        forall|lookup: spec_fn(int, Seq<char>) -> Option<Seq<char>>| getter_agrees_at(*getter, lookup)
            ==> expand_result_view(r) == expand_at(input@, lookup),
{
    let s = chars_of(input);
    let mut out: Vec<char> = Vec::new();
    let mut i: usize = 0;
    while i < s.len()
        invariant
            i <= s.len(),
            s@ == input@,
            forall|p: usize, x: &str| #[trigger] getter.requires((p, x)),
            forall|lookup: spec_fn(int, Seq<char>) -> Option<Seq<char>>| getter_agrees_at(*getter, lookup)
                ==> expand_at_from(s@, 0, lookup) == prepend(out@, expand_at_from(s@, i as int, lookup)),
        decreases s.len() - i,
    {
        let found = if s[i] == '$' {
            reference_at_exec(&s, i)
        } else {
            None
        };
        match found {
            Some((e, r)) => {
                proof {
                    lemma_reference_end(s@, i as int);
                }
                let (name, default) = name_and_default_exec(&s, &r);
                let ghost gr = ref_exec_view(s@, r);
                let value: Option<Vec<char>> = if name.len() == 0 {
                    default
                } else {
                    let name_str = string_of(&name);
                    let name_ref = name_str.as_str();
                    let answer = getter(i, name_ref);
                    proof {
                        assert forall|lookup: spec_fn(int, Seq<char>) -> Option<Seq<char>>| getter_agrees_at(*getter, lookup)
                            implies opt_view(answer) == lookup(i as int, name@) by {
                            assert(call_ensures(*getter, (i, name_ref), answer));
                        }
                    }
                    match answer {
                        Some(v) => Some(chars_of(v.as_str())),
                        None => default,
                    }
                };
                let ghost value_view: Option<Seq<char>> = match &value {
                    Some(v) => Some(v@),
                    None => None,
                };
                assert forall|lookup: spec_fn(int, Seq<char>) -> Option<Seq<char>>| getter_agrees_at(*getter, lookup)
                    implies resolve_at(gr, i as int, lookup) == value_view by {
                }
                match value {
                    None => {
                        let name_str = string_of(&name);
                        proof {
                            assert forall|lookup: spec_fn(int, Seq<char>) -> Option<Seq<char>>| getter_agrees_at(*getter, lookup)
                                implies expand_result_view(Err(ExpandError::Undefined(name_str))) == expand_at(input@, lookup) by {
                                assert(expand_at_from(s@, i as int, lookup) == Err::<Seq<char>, Seq<char>>(name@));
                            }
                        }
                        return Err(ExpandError::Undefined(name_str));
                    },
                    Some(v) => {
                        let ghost old_out = out@;
                        let mut k: usize = 0;
                        while k < v.len()
                            invariant
                                k <= v.len(),
                                out@ == old_out + v@.subrange(0, k as int),
                            decreases v.len() - k,
                        {
                            out.push(v[k]);
                            k = k + 1;
                            assert(out@ =~= old_out + v@.subrange(0, k as int));
                        }
                        assert(v@.subrange(0, v@.len() as int) =~= v@);
                        assert forall|lookup: spec_fn(int, Seq<char>) -> Option<Seq<char>>| getter_agrees_at(*getter, lookup)
                            implies expand_at_from(s@, 0, lookup) == prepend(out@, expand_at_from(s@, e as int, lookup)) by {
                            assert(expand_at_from(s@, i as int, lookup) == prepend(v@, expand_at_from(s@, e as int, lookup)));
                            match expand_at_from(s@, e as int, lookup) {
                                Ok(x) => {
                                    assert(old_out + (v@ + x) =~= (old_out + v@) + x);
                                },
                                Err(_) => {},
                            }
                        }
                        i = e;
                    },
                }
            },
            None => {
                let c = s[i];
                let ghost old_out = out@;
                out.push(c);
                assert forall|lookup: spec_fn(int, Seq<char>) -> Option<Seq<char>>| getter_agrees_at(*getter, lookup)
                    implies expand_at_from(s@, 0, lookup) == prepend(out@, expand_at_from(s@, i + 1, lookup)) by {
                    assert(expand_at_from(s@, i as int, lookup) == prepend(seq![c], expand_at_from(s@, i + 1, lookup)));
                    match expand_at_from(s@, i + 1, lookup) {
                        Ok(x) => {
                            assert(old_out + (seq![c] + x) =~= old_out.push(c) + x);
                        },
                        Err(_) => {},
                    }
                }
                i = i + 1;
            },
        }
    }
    let res = string_of(&out);
    proof {
        assert forall|lookup: spec_fn(int, Seq<char>) -> Option<Seq<char>>| getter_agrees_at(*getter, lookup)
            implies expand_result_view(Ok(res)) == expand_at(input@, lookup) by {
            assert(out@ + Seq::<char>::empty() =~= out@);
        }
    }
    Ok(res)
}

/// Expands the variables of `input`, asking `getter` for the value of each
/// referenced name (in order of appearance).
///
/// Whenever every answer of `getter` agrees with a function `lookup`, the
/// result is the expansion of `input` under `lookup`.
pub fn expand_vars_with<F: Fn(&str) -> Option<String>>(input: &str, getter: &F) -> (r: Result<String, ExpandError>)
    requires
        forall|x: &str| #[trigger] getter.requires((x,)),
    ensures
        forall|lookup: spec_fn(Seq<char>) -> Option<Seq<char>>| getter_agrees(*getter, lookup)
            ==> expand_result_view(r) == expand(input@, lookup),
{
    let at = |p: usize, x: &str| -> (a: Option<String>)
        requires
            forall|y: &str| #[trigger] getter.requires((y,)),
        ensures
            forall|lookup: spec_fn(Seq<char>) -> Option<Seq<char>>| getter_agrees(*getter, lookup) ==> opt_view(a) == lookup(x@),
        { getter(x) };
    let r = expand_vars_at(input, &at);
    proof {
        assert forall|lookup: spec_fn(Seq<char>) -> Option<Seq<char>>| getter_agrees(*getter, lookup)
            implies expand_result_view(r) == expand(input@, lookup) by {
            assert(getter_agrees_at(at, everywhere(lookup)));
            lemma_expand_everywhere(input@, 0, lookup);
        }
    }
    r
}

/// Expands the variables of `input`, asking `getter` for the value of each
/// referenced name; see [`expand_vars_with`].
pub fn expand_vars<F: Fn(&str) -> Option<String>>(input: &str, getter: F) -> (r: Result<String, ExpandError>)
    requires
        forall|x: &str| #[trigger] getter.requires((x,)),
    ensures
        forall|lookup: spec_fn(Seq<char>) -> Option<Seq<char>>| getter_agrees(getter, lookup)
            ==> expand_result_view(r) == expand(input@, lookup),
{
    expand_vars_with(input, &getter)
}

/// A map keyed by strings, viewed through the characters of its keys and
/// values.
pub open spec fn string_map_view(m: Map<String, String>) -> Map<Seq<char>, Seq<char>> {
    Map::new(
        |k: Seq<char>| exists|s: String| #[trigger] m.contains_key(s) && s@ == k,
        |k: Seq<char>| m[choose|s: String| #[trigger] m.contains_key(s) && s@ == k]@,
    )
}

/// Lookup in a map of character sequences.
pub open spec fn map_lookup(m: Map<Seq<char>, Seq<char>>) -> spec_fn(Seq<char>) -> Option<Seq<char>> {
    |k: Seq<char>| if m.contains_key(k) { Some(m[k]) } else { None }
}

/// Calls `HashMap::get` of std with a `&str` key: the value stored under the
/// key equal to `key`, if any. Keys of a `HashMap` are unique and `String`
/// keys compare by their characters, so this is the value under `key@` in
/// [`string_map_view`].
#[verifier::external_body]
fn map_get(values: &HashMap<String, String>, key: &str) -> (r: Option<String>)
    ensures
        r is Some <==> string_map_view(values@).contains_key(key@),
        r matches Some(v) ==> v@ == string_map_view(values@)[key@],
{
    match values.get(key) {
        Some(v) => Some(v.clone()),
        None => None,
    }
}

/// Expands the variables of `input` with the values in `values`.
pub fn expand_vars_map(input: &str, values: &HashMap<String, String>) -> (r: Result<String, ExpandError>)
    ensures
        expand_result_view(r) == expand(input@, map_lookup(string_map_view(values@))),
{
    let ghost lookup = map_lookup(string_map_view(values@));
    let getter = |x: &str| -> (a: Option<String>)
        ensures
            opt_view(a) == map_lookup(string_map_view(values@))(x@),
        { map_get(values, x) };
    let r = expand_vars_with(input, &getter);
    assert(getter_agrees(getter, lookup));
    r
}

proof fn lemma_close_brace_shift(a: Seq<char>, b: Seq<char>, j: int)
    requires
        0 <= j,
    ensures
        close_brace(a + b, a.len() + j) == a.len() + close_brace(b, j),
    decreases b.len() - j,
{
    if j < b.len() {
        assert((a + b)[a.len() + j] == b[j]);
        if b[j] != '}' {
            lemma_close_brace_shift(a, b, j + 1);
        }
    }
}

proof fn lemma_ident_end_shift(a: Seq<char>, b: Seq<char>, j: int)
    requires
        0 <= j,
    ensures
        ident_end(a + b, a.len() + j) == a.len() + ident_end(b, j) || (j > b.len()),
    decreases b.len() - j,
{
    if j < b.len() {
        assert((a + b)[a.len() + j] == b[j]);
        if is_ident_char(b[j]) {
            lemma_ident_end_shift(a, b, j + 1);
        }
    }
}

proof fn lemma_reference_shift(a: Seq<char>, b: Seq<char>, p: int)
    requires
        0 <= p < b.len(),
    ensures
        reference_at(a + b, a.len() + p) == match reference_at(b, p) {
            Some((e, r)) => Some((a.len() + e, r)),
            None => None,
        },
{
    let s = a + b;
    let q = a.len() + p;
    lemma_close_brace_shift(a, b, p + 2);
    lemma_ident_end_shift(a, b, p + 1);
    lemma_close_brace_bounds(b, p + 2);
    lemma_ident_end_bounds(b, p + 1);
    if p + 1 < b.len() {
        assert(s[q + 1] == b[p + 1]);
    }
    if close_brace(b, p + 2) < b.len() {
        assert(s.subrange(q + 2, close_brace(s, q + 2)) =~= b.subrange(p + 2, close_brace(b, p + 2)));
    }
    if ident_end(b, p + 1) < b.len() {
        assert(s[ident_end(s, q + 1)] == b[ident_end(b, p + 1)]);
    }
    assert(s.subrange(q + 1, ident_end(s, q + 1)) =~= b.subrange(p + 1, ident_end(b, p + 1)));
}

/// Expansion of a text that follows a prefix does not depend on the prefix.
pub proof fn lemma_expand_shift(a: Seq<char>, b: Seq<char>, j: int, lookup: spec_fn(Seq<char>) -> Option<Seq<char>>)
    requires
        0 <= j <= b.len(),
    ensures
        expand_from(a + b, a.len() + j, lookup) == expand_from(b, j, lookup),
    decreases b.len() - j,
{
    if j < b.len() {
        let s = a + b;
        assert(s[a.len() + j] == b[j]);
        lemma_reference_shift(a, b, j);
        lemma_reference_end(b, j);
        if b[j] == '$' && reference_at(b, j) is Some {
            let (e, _) = reference_at(b, j)->0;
            lemma_expand_shift(a, b, e, lookup);
        } else {
            lemma_expand_shift(a, b, j + 1, lookup);
        }
    }
}

proof fn lemma_plain_from(s: Seq<char>, i: int, lookup: spec_fn(Seq<char>) -> Option<Seq<char>>)
    requires
        0 <= i <= s.len(),
        !s.contains('$'),
    ensures
        expand_from(s, i, lookup) == Ok::<Seq<char>, Seq<char>>(s.subrange(i, s.len() as int)),
    decreases s.len() - i,
{
    if i < s.len() {
        assert(s[i] != '$') by {
            if s[i] == '$' {
                assert(s.contains('$'));
            }
        }
        lemma_plain_from(s, i + 1, lookup);
        assert(seq![s[i]] + s.subrange(i + 1, s.len() as int) =~= s.subrange(i, s.len() as int));
    } else {
        assert(s.subrange(i, s.len() as int) =~= Seq::<char>::empty());
    }
}

/// Text without `$` expands to itself, whatever the variables.
pub proof fn law_plain_text_unchanged(s: Seq<char>, lookup: spec_fn(Seq<char>) -> Option<Seq<char>>)
    requires
        !s.contains('$'),
    ensures
        expand(s, lookup) == Ok::<Seq<char>, Seq<char>>(s),
{
    lemma_plain_from(s, 0, lookup);
    assert(s.subrange(0, s.len() as int) =~= s);
}

proof fn lemma_plain_prefix_from(a: Seq<char>, b: Seq<char>, i: int, lookup: spec_fn(Seq<char>) -> Option<Seq<char>>)
    requires
        0 <= i <= a.len(),
        !a.contains('$'),
    ensures
        expand_from(a + b, i, lookup) == prepend(a.subrange(i, a.len() as int), expand(b, lookup)),
    decreases a.len() - i,
{
    if i < a.len() {
        let s = a + b;
        assert(s[i] == a[i]);
        assert(a[i] != '$') by {
            if a[i] == '$' {
                assert(a.contains('$'));
            }
        }
        lemma_plain_prefix_from(a, b, i + 1, lookup);
        match expand(b, lookup) {
            Ok(x) => {
                assert(seq![a[i]] + (a.subrange(i + 1, a.len() as int) + x) =~= a.subrange(i, a.len() as int) + x);
            },
            Err(_) => {},
        }
    } else {
        lemma_expand_shift(a, b, 0, lookup);
        match expand(b, lookup) {
            Ok(x) => {
                assert(a.subrange(i, a.len() as int) + x =~= x);
            },
            Err(_) => {},
        }
    }
}

/// A prefix without `$` is copied verbatim and does not change how the rest
/// expands.
pub proof fn law_plain_prefix(a: Seq<char>, b: Seq<char>, lookup: spec_fn(Seq<char>) -> Option<Seq<char>>)
    requires
        !a.contains('$'),
    ensures
        expand(a + b, lookup) == prepend(a, expand(b, lookup)),
{
    lemma_plain_prefix_from(a, b, 0, lookup);
    assert(a.subrange(0, a.len() as int) =~= a);
}

/// `$$` stands for one `$`, and the rest expands as it would alone.
pub proof fn law_escaped_dollar(b: Seq<char>, lookup: spec_fn(Seq<char>) -> Option<Seq<char>>)
    ensures
        expand(seq!['$', '$'] + b, lookup) == prepend(seq!['$'], expand(b, lookup)),
{
    let a = seq!['$', '$'];
    let s = a + b;
    assert(s[0] == '$' && s[1] == '$');
    lemma_close_brace_bounds(s, 2);
    assert(reference_at(s, 0) == Some::<(int, VarRef)>((2, VarRef::Dollar)));
    lemma_expand_shift(a, b, 0, lookup);
}

proof fn lemma_braced(n: Seq<char>, b: Seq<char>)
    requires
        !n.contains('}'),
    ensures
        ({
            let s = seq!['$', '{'] + n + seq!['}'] + b;
            reference_at(s, 0) == Some::<(int, VarRef)>((n.len() + 3int, VarRef::Braced(n)))
        }),
{
    let s = seq!['$', '{'] + n + seq!['}'] + b;
    assert forall|k: int| 2 <= k < n.len() + 2 implies s[k] != '}' by {
        assert(s[k] == n[k - 2]);
        if n[k - 2] == '}' {
            assert(n.contains('}'));
        }
    }
    lemma_close_brace_bounds(s, 2);
    assert(s[n.len() + 2int] == '}');
    assert(close_brace(s, 2) == n.len() + 2);
    assert(s.subrange(2, n.len() + 2int) =~= n);
}

/// `${BODY}` followed by a rest: the reference resolves as its body says and
/// the rest expands as it would alone.
pub proof fn law_braced_reference(n: Seq<char>, b: Seq<char>, lookup: spec_fn(Seq<char>) -> Option<Seq<char>>)
    requires
        !n.contains('}'),
    ensures
        expand(seq!['$', '{'] + n + seq!['}'] + b, lookup) == match resolve(VarRef::Braced(n), lookup) {
            Some(v) => prepend(v, expand(b, lookup)),
            None => Err(name_and_default(VarRef::Braced(n)).0),
        },
{
    let a = seq!['$', '{'] + n + seq!['}'];
    lemma_braced(n, b);
    assert(a + b == seq!['$', '{'] + n + seq!['}'] + b);
    assert((a + b)[0] == '$');
    lemma_expand_shift(a, b, 0, lookup);
}

/// A defined variable in `${NAME}` expands to its value.
pub proof fn law_defined_variable(n: Seq<char>, v: Seq<char>, lookup: spec_fn(Seq<char>) -> Option<Seq<char>>)
    requires
        n.len() > 0,
        !n.contains('}'),
        !ends_with_required(n),
        default_sep(n, 0) == n.len(),
        lookup(n) == Some(v),
    ensures
        expand(seq!['$', '{'] + n + seq!['}'], lookup) == Ok::<Seq<char>, Seq<char>>(v),
{
    law_braced_reference(n, Seq::empty(), lookup);
    assert(seq!['$', '{'] + n + seq!['}'] + Seq::<char>::empty() =~= seq!['$', '{'] + n + seq!['}']);
    assert(v + Seq::<char>::empty() =~= v);
}

/// `${NAME:-DEFAULT}` expands to `DEFAULT` when `NAME` is undefined, and to the
/// value of `NAME` when it is defined.
pub proof fn law_default_value(n: Seq<char>, d: Seq<char>, lookup: spec_fn(Seq<char>) -> Option<Seq<char>>)
    requires
        n.len() > 0,
        !n.contains('}'),
        !d.contains('}'),
        default_sep(n, 0) == n.len(),
        !ends_with_required(n + seq![':', '-'] + d),
    ensures
        expand(seq!['$', '{'] + (n + seq![':', '-'] + d) + seq!['}'], lookup) == Ok::<Seq<char>, Seq<char>>(
            match lookup(n) {
                Some(v) => v,
                None => d,
            },
        ),
{
    let body = n + seq![':', '-'] + d;
    assert(!body.contains('}')) by {
        if body.contains('}') {
            let k = choose|k: int| 0 <= k < body.len() && body[k] == '}';
            if k < n.len() {
                assert(n[k] == '}');
                assert(n.contains('}'));
            } else if k >= n.len() + 2 {
                assert(d[k - n.len() - 2] == '}');
                assert(d.contains('}'));
            }
        }
    }
    assert(body.subrange(0, n.len() as int) =~= n);
    assert(body[n.len() as int] == ':' && body[n.len() + 1int] == '-');
    lemma_default_sep_prefix(n, body, 0);
    assert(default_sep(body, n.len() as int) == n.len());
    assert(body.subrange(0, n.len() as int) =~= n);
    assert(body.subrange(n.len() + 2int, body.len() as int) =~= d);
    law_braced_reference(body, Seq::empty(), lookup);
    assert(seq!['$', '{'] + body + seq!['}'] + Seq::<char>::empty() =~= seq!['$', '{'] + body + seq!['}']);
    let v = match lookup(n) {
        Some(v) => v,
        None => d,
    };
    assert(v + Seq::<char>::empty() =~= v);
}

proof fn lemma_default_sep_prefix(n: Seq<char>, body: Seq<char>, i: int)
    requires
        0 <= i <= n.len(),
        n.len() + 2 <= body.len(),
        body.subrange(0, n.len() as int) == n,
        default_sep(n, 0) == n.len(),
        body[n.len() as int] == ':',
    ensures
        default_sep(body, i) == default_sep(body, n.len() as int),
    decreases n.len() - i,
{
    lemma_no_sep_before(n, 0, i);
    if i < n.len() {
        assert(body[i] == n[i]);
        if i + 1 < n.len() {
            assert(body[i + 1] == n[i + 1]);
        } else {
            assert(body[i + 1] == ':');
        }
        lemma_default_sep_prefix(n, body, i + 1);
    }
}

proof fn lemma_no_sep_before(n: Seq<char>, i: int, k: int)
    requires
        0 <= i <= k <= n.len(),
        default_sep(n, i) == n.len(),
    ensures
        default_sep(n, k) == n.len(),
        k + 1 < n.len() ==> !(n[k] == ':' && n[k + 1] == '-'),
    decreases k - i,
{
    if i < k {
        if i + 1 < n.len() {
            lemma_no_sep_before(n, i + 1, k);
        } else {
            lemma_default_sep_bounds(n, k);
        }
    } else {
        lemma_default_sep_bounds(n, k);
    }
}

/// `${NAME:?}` fails with the name when `NAME` is undefined and expands to its
/// value otherwise.
pub proof fn law_required_variable(n: Seq<char>, lookup: spec_fn(Seq<char>) -> Option<Seq<char>>)
    requires
        !n.contains('}'),
    ensures
        expand(seq!['$', '{'] + (n + seq![':', '?']) + seq!['}'], lookup) == if n.len() > 0 && lookup(n) is Some {
            Ok::<Seq<char>, Seq<char>>(lookup(n)->0)
        } else {
            Err::<Seq<char>, Seq<char>>(n)
        },
{
    let body = n + seq![':', '?'];
    assert(!body.contains('}')) by {
        if body.contains('}') {
            let k = choose|k: int| 0 <= k < body.len() && body[k] == '}';
            assert(k < n.len());
            assert(n[k] == '}');
            assert(n.contains('}'));
        }
    }
    assert(ends_with_required(body));
    assert(body.subrange(0, body.len() - 2) =~= n);
    law_braced_reference(body, Seq::empty(), lookup);
    assert(seq!['$', '{'] + body + seq!['}'] + Seq::<char>::empty() =~= seq!['$', '{'] + body + seq!['}']);
    if n.len() > 0 && lookup(n) is Some {
        assert(lookup(n)->0 + Seq::<char>::empty() =~= lookup(n)->0);
    }
}

} // verus!
