//! The `#[app(...)]` attribute: the grammar of its arguments and the items
//! it generates for an application function.
//!
//! The arguments are given as tokens: identifiers (keywords are not
//! identifiers), punctuation, and integer and string literals, each
//! literal with its source text (a string literal with its quotes). The
//! application function is given by the source text of its visibility,
//! its name and its body block.
use vstd::prelude::*;
use crate::text::str_eq;

verus! {

/// A token of the attribute's arguments.
pub enum ArgToken {
    Ident(String),
    Punct(char),
    IntLit(String),
    StrLit(String),
    Other,
}

/// The parsed arguments: the literal given for each parameter, if any.
pub struct AppArgs {
    pub id: Option<String>,
    pub stack_size: Option<String>,
    pub name: Option<String>,
}

/// The text of each literal given, if any.
pub struct ArgsView {
    pub id: Option<Seq<char>>,
    pub stack_size: Option<Seq<char>>,
    pub name: Option<Seq<char>>,
}

/// The text of an optional string.
pub open spec fn opt_text(o: Option<String>) -> Option<Seq<char>> {
    match o {
        Some(s) => Some(s@),
        None => None,
    }
}

impl View for AppArgs {
    type V = ArgsView;

    open spec fn view(&self) -> ArgsView {
        ArgsView { id: opt_text(self.id), stack_size: opt_text(self.stack_size), name: opt_text(self.name) }
    }
}

/// Why the arguments do not parse; `pos` is the index of the offending
/// token (the number of tokens when the input ended too early).
#[derive(Clone, Copy, Debug, PartialEq, Eq, Structural)]
pub enum ArgError {
    ExpectedIdent { pos: usize },
    ExpectedEq { pos: usize },
    ExpectedInt { pos: usize },
    ExpectedStr { pos: usize },
    UnknownParameter { pos: usize },
}

/// Arguments with no parameter given.
pub open spec fn no_args() -> ArgsView {
    ArgsView { id: None, stack_size: None, name: None }
}

/// Token `i` is the punctuation character `c`.
pub open spec fn is_punct(toks: Seq<ArgToken>, i: int, c: char) -> bool {
    0 <= i < toks.len() && (toks[i] matches ArgToken::Punct(p) && p == c)
}

/// Token `i` is an integer literal.
pub open spec fn is_int(toks: Seq<ArgToken>, i: int) -> bool {
    0 <= i < toks.len() && toks[i] is IntLit
}

/// The index after the value that ends at token `i - 1`: one further if
/// token `i` is a comma.
pub open spec fn after_value(toks: Seq<ArgToken>, i: int) -> int {
    if is_punct(toks, i, ',') {
        i + 1
    } else {
        i
    }
}

/// Parses `key = value` pairs from token `i` on, each optionally followed
/// by a comma, into `acc`; a later pair for a parameter replaces an
/// earlier one. An integer value is an integer literal, possibly preceded
/// by a minus sign (which then belongs to the literal's text).
pub open spec fn parse_from(toks: Seq<ArgToken>, i: int, acc: ArgsView) -> Result<ArgsView, ArgError>
    decreases toks.len() - i,
{
    if i < 0 || i >= toks.len() {
        Ok(acc)
    } else {
        match toks[i] {
            ArgToken::Ident(key) => if !is_punct(toks, i + 1, '=') {
                Err(ArgError::ExpectedEq { pos: (i + 1) as usize })
            } else if key@ == "id"@ || key@ == "stack_size"@ {
                let neg = is_punct(toks, i + 2, '-');
                let vi = if neg {
                    i + 3
                } else {
                    i + 2
                };
                if is_int(toks, vi) {
                    let text = toks[vi]->IntLit_0@;
                    let v = if neg {
                        "-"@ + text
                    } else {
                        text
                    };
                    let next = if key@ == "id"@ {
                        ArgsView { id: Some(v), ..acc }
                    } else {
                        ArgsView { stack_size: Some(v), ..acc }
                    };
                    parse_from(toks, after_value(toks, vi + 1), next)
                } else {
                    Err(ArgError::ExpectedInt { pos: (i + 2) as usize })
                }
            } else if key@ == "name"@ {
                if i + 2 < toks.len() && toks[i + 2] is StrLit {
                    parse_from(
                        toks,
                        after_value(toks, i + 3),
                        ArgsView { name: Some(toks[i + 2]->StrLit_0@), ..acc },
                    )
                } else {
                    Err(ArgError::ExpectedStr { pos: (i + 2) as usize })
                }
            } else {
                Err(ArgError::UnknownParameter { pos: i as usize })
            },
            _ => Err(ArgError::ExpectedIdent { pos: i as usize }),
        }
    }
}

/// The arguments parse to `view`, or fail with `err`, as `parse_from`
/// from the first token says.
pub open spec fn parsed_as(toks: Seq<ArgToken>, r: Result<AppArgs, ArgError>) -> bool {
    match parse_from(toks, 0, no_args()) {
        Ok(v) => r matches Ok(a) && a@ == v,
        Err(e) => r matches Err(e2) && e2 == e,
    }
}

/// Tokens `p` are one `key = value` pair: `name` with a string literal, or
/// `id` or `stack_size` with an integer literal, possibly negative.
pub open spec fn is_pair(p: Seq<ArgToken>) -> bool {
    &&& p.len() >= 3
    &&& p[0] is Ident
    &&& is_punct(p, 1, '=')
    &&& {
        let key = p[0]->Ident_0@;
        if key == "name"@ {
            p.len() == 3 && p[2] is StrLit
        } else if key == "id"@ || key == "stack_size"@ {
            (p.len() == 3 && p[2] is IntLit) || (p.len() == 4 && is_punct(p, 2, '-') && p[3] is IntLit)
        } else {
            false
        }
    }
}

/// The key of a pair.
pub open spec fn pair_key(p: Seq<ArgToken>) -> Seq<char> {
    p[0]->Ident_0@
}

/// The value text of a pair: the literal's text, with the minus sign of a
/// negative integer.
pub open spec fn pair_text(p: Seq<ArgToken>) -> Seq<char> {
    if p.len() == 4 {
        "-"@ + p[3]->IntLit_0@
    } else if p[2] is IntLit {
        p[2]->IntLit_0@
    } else {
        p[2]->StrLit_0@
    }
}

/// The value parsed for parameter `key`.
pub open spec fn arg_of(v: ArgsView, key: Seq<char>) -> Option<Seq<char>> {
    if key == "id"@ {
        v.id
    } else if key == "stack_size"@ {
        v.stack_size
    } else if key == "name"@ {
        v.name
    } else {
        None
    }
}

/// `acc` with parameter `key` set to `text`.
pub open spec fn with_arg(acc: ArgsView, key: Seq<char>, text: Seq<char>) -> ArgsView {
    if key == "id"@ {
        ArgsView { id: Some(text), ..acc }
    } else if key == "stack_size"@ {
        ArgsView { stack_size: Some(text), ..acc }
    } else {
        ArgsView { name: Some(text), ..acc }
    }
}

proof fn lemma_keys_differ()
    ensures
        "id"@ != "stack_size"@,
        "id"@ != "name"@,
        "stack_size"@ != "name"@,
        "-"@.len() == 1,
{
    reveal_strlit("id");
    reveal_strlit("stack_size");
    reveal_strlit("name");
    reveal_strlit("-");
    assert("id"@.len() == 2);
    assert("stack_size"@.len() == 10);
    assert("name"@.len() == 4);
}

proof fn lemma_parse_one_pair(toks: Seq<ArgToken>, i: int, acc: ArgsView, p: Seq<ArgToken>)
    requires
        is_pair(p),
        0 <= i,
        i + p.len() <= toks.len(),
        toks.subrange(i, i + p.len()) == p,
    ensures
        parse_from(toks, i, acc) == parse_from(
            toks,
            after_value(toks, i + p.len()),
            with_arg(acc, pair_key(p), pair_text(p)),
        ),
{
    lemma_keys_differ();
    assert(toks[i] == p[0]);
    assert(toks[i + 1] == p[1]);
    assert(toks[i + 2] == p[2]);
    if p.len() == 4 {
        assert(toks[i + 3] == p[3]);
    }
}

proof fn lemma_with_arg_commutes(acc: ArgsView, ka: Seq<char>, ta: Seq<char>, kb: Seq<char>, tb: Seq<char>)
    requires
        ka != kb,
        ka == "id"@ || ka == "stack_size"@ || ka == "name"@,
        kb == "id"@ || kb == "stack_size"@ || kb == "name"@,
    ensures
        with_arg(with_arg(acc, ka, ta), kb, tb) == with_arg(with_arg(acc, kb, tb), ka, ta),
{
    lemma_keys_differ();
}

/// The `key = value` pairs may come in either order and the comma after a
/// value is optional: for two pairs `a` and `b` with different keys,
/// `a, b` parses, giving each key its value and leaving the third
/// parameter unset, and `b, a`, `a b` and `a, b,` parse to the same.
pub proof fn lemma_pairs_in_any_order(a: Seq<ArgToken>, b: Seq<ArgToken>)
    requires
        is_pair(a),
        is_pair(b),
        pair_key(a) != pair_key(b),
    ensures
        ({
            let comma = seq![ArgToken::Punct(',')];
            let r = parse_from(a + comma + b, 0, no_args());
            &&& r matches Ok(v) && arg_of(v, pair_key(a)) == Some(pair_text(a)) && arg_of(v, pair_key(b))
                == Some(pair_text(b)) && forall|k: Seq<char>|
                k != pair_key(a) && k != pair_key(b) ==> #[trigger] arg_of(v, k) is None
            &&& parse_from(b + comma + a, 0, no_args()) == r
            &&& parse_from(a + b, 0, no_args()) == r
            &&& parse_from(a + comma + b + comma, 0, no_args()) == r
        }),
{
    lemma_keys_differ();
    let comma = seq![ArgToken::Punct(',')];
    let ka = pair_key(a);
    let kb = pair_key(b);
    let la = a.len() as int;
    let lb = b.len() as int;
    let va = with_arg(no_args(), ka, pair_text(a));
    let vb = with_arg(no_args(), kb, pair_text(b));
    let v = with_arg(va, kb, pair_text(b));
    // a , b
    let t1 = a + comma + b;
    assert(t1.subrange(0, la) =~= a);
    lemma_parse_one_pair(t1, 0, no_args(), a);
    assert(t1[la] == ArgToken::Punct(','));
    assert(t1.subrange(la + 1, la + 1 + lb) =~= b);
    lemma_parse_one_pair(t1, la + 1, va, b);
    assert(parse_from(t1, 0, no_args()) == Ok::<ArgsView, ArgError>(v));
    // b , a
    let t2 = b + comma + a;
    assert(t2.subrange(0, lb) =~= b);
    lemma_parse_one_pair(t2, 0, no_args(), b);
    assert(t2[lb] == ArgToken::Punct(','));
    assert(t2.subrange(lb + 1, lb + 1 + la) =~= a);
    lemma_parse_one_pair(t2, lb + 1, vb, a);
    lemma_with_arg_commutes(no_args(), ka, pair_text(a), kb, pair_text(b));
    // a b
    let t3 = a + b;
    assert(t3.subrange(0, la) =~= a);
    lemma_parse_one_pair(t3, 0, no_args(), a);
    assert(t3[la] == b[0]);
    assert(t3.subrange(la, la + lb) =~= b);
    lemma_parse_one_pair(t3, la, va, b);
    // a , b ,
    let t4 = a + comma + b + comma;
    assert(t4.subrange(0, la) =~= a);
    lemma_parse_one_pair(t4, 0, no_args(), a);
    assert(t4[la] == ArgToken::Punct(','));
    assert(t4.subrange(la + 1, la + 1 + lb) =~= b);
    lemma_parse_one_pair(t4, la + 1, va, b);
    assert(t4[la + 1 + lb] == ArgToken::Punct(','));
}

/// An error with its position moved `d` tokens on.
pub open spec fn err_moved(e: ArgError, d: int) -> ArgError {
    match e {
        ArgError::ExpectedIdent { pos } => ArgError::ExpectedIdent { pos: (pos + d) as usize },
        ArgError::ExpectedEq { pos } => ArgError::ExpectedEq { pos: (pos + d) as usize },
        ArgError::ExpectedInt { pos } => ArgError::ExpectedInt { pos: (pos + d) as usize },
        ArgError::ExpectedStr { pos } => ArgError::ExpectedStr { pos: (pos + d) as usize },
        ArgError::UnknownParameter { pos } => ArgError::UnknownParameter { pos: (pos + d) as usize },
    }
}

/// A parse result with an error's position moved `d` tokens on.
pub open spec fn result_moved(r: Result<ArgsView, ArgError>, d: int) -> Result<ArgsView, ArgError> {
    match r {
        Ok(v) => Ok(v),
        Err(e) => Err(err_moved(e, d)),
    }
}

proof fn lemma_parse_after_prefix(pre: Seq<ArgToken>, t: Seq<ArgToken>, i: int, acc: ArgsView)
    requires
        0 <= i,
        pre.len() + t.len() + 4 <= usize::MAX,
    ensures
        parse_from(pre + t, pre.len() + i, acc) == result_moved(parse_from(t, i, acc), pre.len() as int),
    decreases t.len() - i,
{
    let u = pre + t;
    let d = pre.len() as int;
    assert forall|k: int| 0 <= k < t.len() implies #[trigger] u[d + k] == t[k] by {}
    assert forall|k: int, c: char| 0 <= k implies #[trigger] is_punct(u, d + k, c) == is_punct(t, k, c) by {
        if 0 <= k < t.len() {
            assert(u[d + k] == t[k]);
        }
    }
    assert forall|k: int| 0 <= k implies #[trigger] is_int(u, d + k) == is_int(t, k) by {
        if 0 <= k < t.len() {
            assert(u[d + k] == t[k]);
        }
    }
    assert forall|k: int| 0 <= k implies #[trigger] after_value(u, d + k) == d + after_value(t, k) by {
        assert(is_punct(u, d + k, ',') == is_punct(t, k, ','));
    }
    if i < t.len() {
        assert(u[d + i] == t[i]);
        assert(is_punct(u, d + i + 1, '=') == is_punct(t, i + 1, '='));
        assert(is_punct(u, d + i + 2, '-') == is_punct(t, i + 2, '-'));
        assert(is_int(u, d + i + 2) == is_int(t, i + 2));
        assert(is_int(u, d + i + 3) == is_int(t, i + 3));
        if i + 2 < t.len() {
            assert(u[d + i + 2] == t[i + 2]);
        }
        if i + 3 < t.len() {
            assert(u[d + i + 3] == t[i + 3]);
        }
        match t[i] {
            ArgToken::Ident(key) => {
                if is_punct(t, i + 1, '=') {
                    let neg = is_punct(t, i + 2, '-');
                    let vi = if neg { i + 3 } else { i + 2 };
                    if (key@ == "id"@ || key@ == "stack_size"@) && is_int(t, vi) {
                        let text = t[vi]->IntLit_0@;
                        let v = if neg { "-"@ + text } else { text };
                        let next = if key@ == "id"@ {
                            ArgsView { id: Some(v), ..acc }
                        } else {
                            ArgsView { stack_size: Some(v), ..acc }
                        };
                        assert(after_value(u, d + vi + 1) == d + after_value(t, vi + 1));
                        if after_value(t, vi + 1) >= 0 {
                            lemma_parse_after_prefix(pre, t, after_value(t, vi + 1), next);
                        }
                    } else if key@ == "name"@ && i + 2 < t.len() && t[i + 2] is StrLit {
                        let next = ArgsView { name: Some(t[i + 2]->StrLit_0@), ..acc };
                        assert(after_value(u, d + i + 3) == d + after_value(t, i + 3));
                        lemma_parse_after_prefix(pre, t, after_value(t, i + 3), next);
                    }
                }
            },
            _ => {},
        }
    }
}

/// After a `key = value` pair and a comma, the rest of the arguments parse
/// as they do on their own from that pair's value, an error being reported
/// at its position in the whole argument list.
pub proof fn lemma_pair_then_rest(a: Seq<ArgToken>, t: Seq<ArgToken>)
    requires
        is_pair(a),
        a.len() + t.len() + 5 <= usize::MAX,
    ensures
        parse_from(a + seq![ArgToken::Punct(',')] + t, 0, no_args()) == result_moved(
            parse_from(t, 0, with_arg(no_args(), pair_key(a), pair_text(a))),
            a.len() + 1 as int,
        ),
{
    let pre = a + seq![ArgToken::Punct(',')];
    let u = pre + t;
    assert(u.subrange(0, a.len() as int) =~= a);
    lemma_parse_one_pair(u, 0, no_args(), a);
    assert(u[a.len() as int] == ArgToken::Punct(','));
    lemma_parse_after_prefix(pre, t, 0, with_arg(no_args(), pair_key(a), pair_text(a)));
}

/// Token `i` is punctuation `c`.
fn punct_at(toks: &Vec<ArgToken>, i: usize, c: char) -> (b: bool)
    ensures
        b == is_punct(toks@, i as int, c),
{
    if i < toks.len() {
        match &toks[i] {
            ArgToken::Punct(p) => *p == c,
            _ => false,
        }
    } else {
        false
    }
}

/// The integer literal (with a leading minus sign if `neg`) at token `vi`.
fn int_value_at(toks: &Vec<ArgToken>, vi: usize, neg: bool) -> (v: Option<String>)
    ensures
        is_int(toks@, vi as int) ==> (v matches Some(s) && s@ == (if neg {
            "-"@ + toks@[vi as int]->IntLit_0@
        } else {
            toks@[vi as int]->IntLit_0@
        })),
        !is_int(toks@, vi as int) ==> v is None,
{
    if vi < toks.len() {
        match &toks[vi] {
            ArgToken::IntLit(t) => {
                if neg {
                    let mut s = String::from_str("-");
                    s.append(t.as_str());
                    Some(s)
                } else {
                    Some(t.clone())
                }
            },
            _ => None,
        }
    } else {
        None
    }
}

/// Parses the attribute's arguments: `key = value` pairs, each optionally
/// followed by a comma, where `id` and `stack_size` take integer literals
/// (possibly negative) and `name` a string literal.
pub fn parse(toks: &Vec<ArgToken>) -> (r: Result<AppArgs, ArgError>)
    ensures
        parsed_as(toks@, r),
{
    let mut acc = AppArgs { id: None, stack_size: None, name: None };
    let mut i: usize = 0;
    let n = toks.len();
    while i < n
        invariant
            n == toks@.len(),
            i <= n,
            parse_from(toks@, 0, no_args()) == parse_from(toks@, i as int, acc@),
        decreases n - i,
    {
        let key = match &toks[i] {
            ArgToken::Ident(k) => k,
            _ => {
                return Err(ArgError::ExpectedIdent { pos: i });
            },
        };
        if !punct_at(toks, i + 1, '=') {
            return Err(ArgError::ExpectedEq { pos: i + 1 });
        }
        let is_id = str_eq(key.as_str(), "id");
        let is_stack = str_eq(key.as_str(), "stack_size");
        let is_name = str_eq(key.as_str(), "name");
        let next: usize;
        if is_id || is_stack {
            let neg = punct_at(toks, i + 2, '-');
            let vi = if neg {
                i + 3
            } else {
                i + 2
            };
            let v = match int_value_at(toks, vi, neg) {
                Some(v) => v,
                None => {
                    return Err(ArgError::ExpectedInt { pos: i + 2 });
                },
            };
            if is_id {
                acc = AppArgs { id: Some(v), ..acc };
            } else {
                acc = AppArgs { stack_size: Some(v), ..acc };
            }
            next = vi + 1;
        } else if is_name {
            let v = if i + 2 < n {
                match &toks[i + 2] {
                    ArgToken::StrLit(v) => v.clone(),
                    _ => {
                        return Err(ArgError::ExpectedStr { pos: i + 2 });
                    },
                }
            } else {
                return Err(ArgError::ExpectedStr { pos: i + 2 });
            };
            acc = AppArgs { name: Some(v), ..acc };
            next = i + 3;
        } else {
            return Err(ArgError::UnknownParameter { pos: i });
        }
        i = if punct_at(toks, next, ',') {
            next + 1
        } else {
            next
        };
    }
    Ok(acc)
}

/// The Unicode upper-case mapping of a text, as `str::to_uppercase`
/// computes it.
pub uninterp spec fn uppercase(s: Seq<char>) -> Seq<char>;

/// Calls `str::to_uppercase`; the contract claims only that the result is
/// the text's upper-case mapping, a function of the text alone.
#[verifier::external_body]
fn str_to_uppercase(s: &str) -> (r: String)
    ensures
        r@ == uppercase(s@),
{
    s.to_uppercase()
}

/// The generated entry function `#[export_name = "<export_name>"] pub
/// extern "C" fn <name>() -> ! <body>`.
pub struct EntryFn {
    pub export_name: String,
    pub name: String,
    pub body: String,
}

/// The generated metadata static: `#[link_section = "<link_section>"]`,
/// kept by `#[used]` when `used`, named `name`, of type `AppMetadata`
/// with the given field values (`entry_fn` and `stack_ptr_fn` name
/// functions).
pub struct MetadataStatic {
    pub link_section: String,
    pub used: bool,
    pub name: String,
    pub id: String,
    pub app_name: String,
    pub entry: usize,
    pub entry_fn: Option<String>,
    pub stack_ptr: usize,
    pub stack_size: String,
    pub stack_ptr_fn: Option<String>,
}

/// The generated wrapper `<vis> fn <name>() -> ! { <calls>() }`.
pub struct WrapperFn {
    pub vis: String,
    pub name: String,
    pub calls: String,
}

/// What the attribute generates for an application function.
pub struct AppExpansion {
    pub entry_fn: EntryFn,
    pub metadata: MetadataStatic,
    pub wrapper: WrapperFn,
}

/// The stack size used when none is given.
pub open spec fn default_stack_size() -> Seq<char> {
    "512"@
}

/// The name literal used when none is given: the function's name quoted.
pub open spec fn default_name(fn_name: Seq<char>) -> Seq<char> {
    "\""@ + fn_name + "\""@
}

/// The name of the entry function of `fn_name`.
pub open spec fn entry_name(fn_name: Seq<char>) -> Seq<char> {
    fn_name + "_entry"@
}

/// `x` is the expansion of the attribute with arguments `a` on the
/// function `vis fn name() -> ! block`: the entry function
/// `<name>_entry`, exported under its own name, runs the block; the
/// metadata static `<NAME>_METADATA` in section `.apps` records the id,
/// the name (by default the function's name), the stack size (by default
/// 512) and the entry function, with no resolved entry, stack pointer or
/// stack pointer function; the wrapper keeps the function's visibility and
/// name and calls the entry function.
pub open spec fn expansion_of(
    x: AppExpansion,
    a: ArgsView,
    vis: Seq<char>,
    name: Seq<char>,
    block: Seq<char>,
) -> bool {
    let entry = entry_name(name);
    &&& x.entry_fn.name@ == entry
    &&& x.entry_fn.export_name@ == entry
    &&& x.entry_fn.body@ == block
    &&& x.metadata.link_section@ == ".apps"@
    &&& x.metadata.used
    &&& x.metadata.name@ == uppercase(name) + "_METADATA"@
    &&& a.id matches Some(id) && x.metadata.id@ == id
    &&& x.metadata.app_name@ == match a.name {
        Some(s) => s,
        None => default_name(name),
    }
    &&& x.metadata.entry == 0
    &&& x.metadata.entry_fn matches Some(f) && f@ == entry
    &&& x.metadata.stack_ptr == 0
    &&& x.metadata.stack_size@ == match a.stack_size {
        Some(s) => s,
        None => default_stack_size(),
    }
    &&& x.metadata.stack_ptr_fn is None
    &&& x.wrapper.vis@ == vis
    &&& x.wrapper.name@ == name
    &&& x.wrapper.calls@ == entry
}

/// The name of the entry function of `fn_name`: `<fn_name>_entry`.
pub fn entry_fn_name(fn_name: &str) -> (n: String)
    ensures
        n@ == entry_name(fn_name@),
{
    let mut n = String::from_str(fn_name);
    n.append("_entry");
    n
}

/// The name of the metadata static, given the function's name in upper
/// case: `<NAME>_METADATA`.
pub fn metadata_name(upper_fn_name: &str) -> (n: String)
    ensures
        n@ == upper_fn_name@ + "_METADATA"@,
{
    let mut n = String::from_str(upper_fn_name);
    n.append("_METADATA");
    n
}

/// Expands `#[app(args)]` on the function `fn_vis fn fn_name() -> !
/// fn_block`. Arguments that do not parse give the parse error; arguments
/// without an `id` stop the expansion (the caller checks for one first).
pub fn app(args: &Vec<ArgToken>, fn_vis: &str, fn_name: &str, fn_block: &str) -> (r: Result<
    AppExpansion,
    ArgError,
>)
    requires
        parse_from(args@, 0, no_args()) matches Ok(a) ==> a.id is Some,
    ensures
        match parse_from(args@, 0, no_args()) {
            Err(e) => r == Err::<AppExpansion, ArgError>(e),
            Ok(a) => r matches Ok(x) && expansion_of(x, a, fn_vis@, fn_name@, fn_block@),
        },
{
    let parsed = if args.len() == 0 {
        AppArgs { id: None, stack_size: None, name: None }
    } else {
        match parse(args) {
            Ok(a) => a,
            Err(e) => {
                return Err(e);
            },
        }
    };
    let id = match parsed.id {
        Some(id) => id,
        None => {
            assert(false);
            String::new()
        },
    };
    let stack_size = match parsed.stack_size {
        Some(s) => s,
        None => String::from_str("512"),
    };
    let app_name = match parsed.name {
        Some(s) => s,
        None => {
            let mut q = String::from_str("\"");
            q.append(fn_name);
            q.append("\"");
            q
        },
    };
    let entry = entry_fn_name(fn_name);
    let upper = str_to_uppercase(fn_name);
    let metadata = MetadataStatic {
        link_section: String::from_str(".apps"),
        used: true,
        name: metadata_name(upper.as_str()),
        id,
        app_name,
        entry: 0,
        entry_fn: Some(entry.clone()),
        stack_ptr: 0,
        stack_size,
        stack_ptr_fn: None,
    };
    let entry_fn = EntryFn {
        export_name: entry.clone(),
        name: entry.clone(),
        body: String::from_str(fn_block),
    };
    let wrapper = WrapperFn { vis: String::from_str(fn_vis), name: String::from_str(fn_name), calls: entry };
    Ok(AppExpansion { entry_fn, metadata, wrapper })
}

} // verus!
