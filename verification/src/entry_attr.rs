//! The `#[entry(bsp = <crate>)]` attribute: parsing its arguments, finding
//! the annotated function's name and producing the source of the linker
//! entry shim. Tokens are modelled by `AttrToken`; the compiler interface
//! turns its token trees into these.
use vstd::prelude::*;

verus! {

/// A token tree as the attribute sees it.
#[derive(Clone, Debug, PartialEq, Eq)]
pub enum AttrToken {
    Ident(String),
    Punct(char),
    Literal(String),
    Group,
}

/// Why an `#[entry]` attribute was rejected.
#[derive(Clone, Copy, Debug, PartialEq, Eq, Structural)]
pub enum EntryAttrError {
    ExpectedBsp,
    ExpectedEquals,
    ExpectedCrateName,
    InvalidLiteral,
    TrailingTokens,
    InvalidCrateName,
    ExpectedFunction,
    ReservedMain,
}

/// The text of the compile error reported for a rejection.
pub open spec fn error_message(e: EntryAttrError) -> Seq<char> {
    match e {
        EntryAttrError::ExpectedBsp => "entry: expected `bsp = <crate>`"@,
        EntryAttrError::ExpectedEquals => "entry: expected `=` after `bsp`"@,
        EntryAttrError::ExpectedCrateName => "entry: expected crate name after `bsp =`"@,
        EntryAttrError::InvalidLiteral => "entry: expected `\"crate_name\"` or bare ident after `bsp =`"@,
        EntryAttrError::TrailingTokens => "entry: trailing tokens in attribute"@,
        EntryAttrError::InvalidCrateName => "entry: invalid `bsp` crate name"@,
        EntryAttrError::ExpectedFunction => "entry: expected a `fn name(...) -> ...` item"@,
        EntryAttrError::ReservedMain => "entry: `main` is reserved for the linker; use a diff entry name."@,
    }
}

impl EntryAttrError {
    /// The compile error reported for this rejection.
    pub fn message(&self) -> (r: &'static str)
        ensures
            r@ == error_message(*self),
    {
        match self {
            EntryAttrError::ExpectedBsp => "entry: expected `bsp = <crate>`",
            EntryAttrError::ExpectedEquals => "entry: expected `=` after `bsp`",
            EntryAttrError::ExpectedCrateName => "entry: expected crate name after `bsp =`",
            EntryAttrError::InvalidLiteral => "entry: expected `\"crate_name\"` or bare ident after `bsp =`",
            EntryAttrError::TrailingTokens => "entry: trailing tokens in attribute",
            EntryAttrError::InvalidCrateName => "entry: invalid `bsp` crate name",
            EntryAttrError::ExpectedFunction => "entry: expected a `fn name(...) -> ...` item",
            EntryAttrError::ReservedMain => "entry: `main` is reserved for the linker; use a diff entry name.",
        }
    }
}

/// A character allowed in a crate name: ASCII letter, digit or underscore.
pub open spec fn crate_name_char(c: char) -> bool {
    ('0' <= c <= '9') || ('A' <= c <= 'Z') || ('a' <= c <= 'z') || c == '_'
}

/// A usable crate name: non-empty, made of letters, digits and underscores only.
pub open spec fn safe_crate_name(s: Seq<char>) -> bool {
    s.len() > 0 && forall|i: int| 0 <= i < s.len() ==> #[trigger] crate_name_char(s[i])
}

/// Whether `s` is non-empty and made of ASCII letters, digits and underscores only.
pub fn is_safe_crate_token(s: &str) -> (r: bool)
    ensures
        r == safe_crate_name(s@),
{
    let n = s.unicode_len();
    if n == 0 {
        return false;
    }
    let mut i: usize = 0;
    while i < n
        invariant
            n == s@.len(),
            i <= n,
            forall|j: int| 0 <= j < i ==> #[trigger] crate_name_char(s@[j]),
        decreases n - i,
    {
        let c = s.get_char(i);
        let ok = ('0' <= c && c <= '9') || ('A' <= c && c <= 'Z') || ('a' <= c && c <= 'z') || c == '_';
        if !ok {
            assert(!crate_name_char(s@[i as int]));
            return false;
        }
        i = i + 1;
    }
    true
}

/// Whether two strings hold the same characters.
pub fn str_eq(a: &str, b: &str) -> (r: bool)
    ensures
        r == (a@ == b@),
{
    let n = a.unicode_len();
    if n != b.unicode_len() {
        return false;
    }
    let mut i: usize = 0;
    while i < n
        invariant
            n == a@.len(),
            n == b@.len(),
            i <= n,
            forall|j: int| 0 <= j < i ==> #[trigger] a@[j] == b@[j],
        decreases n - i,
    {
        if a.get_char(i) != b.get_char(i) {
            return false;
        }
        i = i + 1;
    }
    assert(a@ =~= b@);
    true
}

/// Whether an identifier is the keyword or name `s`.
pub fn ident_matches(ident: &String, s: &str) -> (r: bool)
    ensures
        r == (ident@ == s@),
{
    str_eq(ident.as_str(), s)
}

/// The crate name a string literal token spells: its contents between the quotes.
pub open spec fn literal_name(raw: Seq<char>) -> Option<Seq<char>> {
    if raw.len() >= 2 && raw[0] == '"' && raw[raw.len() - 1] == '"' {
        Some(raw.subrange(1, raw.len() - 1))
    } else {
        None
    }
}

/// The crate name `bsp = <crate>` names, or why the arguments are rejected.
pub open spec fn bsp_attr(toks: Seq<AttrToken>) -> Result<Seq<char>, EntryAttrError> {
    if !(toks.len() >= 1 && (toks[0] matches AttrToken::Ident(i) && i@ == "bsp"@)) {
        Err(EntryAttrError::ExpectedBsp)
    } else if !(toks.len() >= 2 && (toks[1] matches AttrToken::Punct(p) && p == '=')) {
        Err(EntryAttrError::ExpectedEquals)
    } else {
        let name: Result<Seq<char>, EntryAttrError> = if toks.len() < 3 {
            Err(EntryAttrError::ExpectedCrateName)
        } else {
            match toks[2] {
                AttrToken::Ident(i) => Ok(i@),
                AttrToken::Literal(l) => match literal_name(l@) {
                    Some(n) => Ok(n),
                    None => Err(EntryAttrError::InvalidLiteral),
                },
                _ => Err(EntryAttrError::ExpectedCrateName),
            }
        };
        match name {
            Err(e) => Err(e),
            Ok(n) => if toks.len() > 3 {
                Err(EntryAttrError::TrailingTokens)
            } else if !safe_crate_name(n) {
                Err(EntryAttrError::InvalidCrateName)
            } else {
                Ok(n)
            },
        }
    }
}

/// `bsp = name` and `bsp = "name"` both name the board crate `name` when it
/// is a usable crate name.
pub proof fn lemma_bsp_attr_accepts_both_forms(bsp_kw: String, eq: char, name: String, lit: String)
    requires
        bsp_kw@ == "bsp"@,
        eq == '=',
        safe_crate_name(name@),
        lit@ == seq!['"'] + name@ + seq!['"'],
    ensures
        bsp_attr(seq![AttrToken::Ident(bsp_kw), AttrToken::Punct(eq), AttrToken::Ident(name)]) == Ok::<
            Seq<char>,
            EntryAttrError,
        >(name@),
        bsp_attr(seq![AttrToken::Ident(bsp_kw), AttrToken::Punct(eq), AttrToken::Literal(lit)]) == Ok::<
            Seq<char>,
            EntryAttrError,
        >(name@),
{
    assert(lit@.subrange(1, lit@.len() - 1) =~= name@);
}

/// An accepted attribute has exactly three tokens and names a usable crate.
pub proof fn lemma_bsp_attr_result_is_usable(toks: Seq<AttrToken>)
    ensures
        bsp_attr(toks) matches Ok(n) ==> safe_crate_name(n) && toks.len() == 3,
{
}

/// Parses the attribute arguments `bsp = <crate>` (a bare identifier or a
/// string literal) and returns the crate name.
pub fn parse_bsp_attr(attr: &Vec<AttrToken>) -> (r: Result<String, EntryAttrError>)
    ensures
        match bsp_attr(attr@) {
            Ok(n) => r matches Ok(s) && s@ == n,
            Err(e) => r == Err::<String, EntryAttrError>(e),
        },
{
    if attr.len() < 1 {
        return Err(EntryAttrError::ExpectedBsp);
    }
    match &attr[0] {
        AttrToken::Ident(i) => {
            if !ident_matches(i, "bsp") {
                return Err(EntryAttrError::ExpectedBsp);
            }
        },
        _ => {
            return Err(EntryAttrError::ExpectedBsp);
        },
    }
    if attr.len() < 2 {
        return Err(EntryAttrError::ExpectedEquals);
    }
    match &attr[1] {
        AttrToken::Punct(p) => {
            if *p != '=' {
                return Err(EntryAttrError::ExpectedEquals);
            }
        },
        _ => {
            return Err(EntryAttrError::ExpectedEquals);
        },
    }
    if attr.len() < 3 {
        return Err(EntryAttrError::ExpectedCrateName);
    }
    let name: String = match &attr[2] {
        AttrToken::Ident(i) => i.clone(),
        AttrToken::Literal(l) => {
            let raw = l.as_str();
            let n = raw.unicode_len();
            if n >= 2 && raw.get_char(0) == '"' && raw.get_char(n - 1) == '"' {
                String::from_str(raw.substring_char(1, n - 1))
            } else {
                return Err(EntryAttrError::InvalidLiteral);
            }
        },
        _ => {
            return Err(EntryAttrError::ExpectedCrateName);
        },
    };
    if attr.len() > 3 {
        return Err(EntryAttrError::TrailingTokens);
    }
    if !is_safe_crate_token(name.as_str()) {
        return Err(EntryAttrError::InvalidCrateName);
    }
    Ok(name)
}

/// The name of the first identifier that follows an `fn` keyword in `toks`
/// (when `after_fn`, the first identifier at all).
pub open spec fn name_after_fn(toks: Seq<AttrToken>, after_fn: bool) -> Option<Seq<char>>
    decreases toks.len(),
{
    if toks.len() == 0 {
        None
    } else {
        match toks[0] {
            AttrToken::Ident(i) => if after_fn {
                Some(i@)
            } else {
                name_after_fn(toks.drop_first(), i@ == "fn"@)
            },
            _ => name_after_fn(toks.drop_first(), after_fn),
        }
    }
}

/// The function name is found by identifiers alone: any token that is not an
/// identifier (punctuation, a literal, a group such as an attribute or a
/// visibility's brackets) is skipped, whether or not a `fn` was seen.
pub proof fn lemma_name_skips_non_identifiers(t: AttrToken, rest: Seq<AttrToken>, after_fn: bool)
    requires
        !(t is Ident),
    ensures
        name_after_fn(seq![t] + rest, after_fn) == name_after_fn(rest, after_fn),
{
    assert((seq![t] + rest).drop_first() =~= rest);
}

/// Right after a `fn` keyword the next identifier is the name; before it, an
/// identifier only matters by being the `fn` keyword; an item without one
/// names nothing.
pub proof fn lemma_name_follows_fn_keyword(n: String, rest: Seq<AttrToken>, after_fn: bool)
    ensures
        name_after_fn(seq![AttrToken::Ident(n)] + rest, true) == Some(n@),
        name_after_fn(seq![AttrToken::Ident(n)] + rest, false) == name_after_fn(rest, n@ == "fn"@),
        name_after_fn(Seq::<AttrToken>::empty(), after_fn) is None,
{
    assert((seq![AttrToken::Ident(n)] + rest).drop_first() =~= rest);
}

/// Runs of non-identifier tokens are skipped whole.
pub proof fn lemma_name_skips_non_identifier_runs(pre: Seq<AttrToken>, rest: Seq<AttrToken>, after_fn: bool)
    requires
        forall|i: int| 0 <= i < pre.len() ==> !(#[trigger] pre[i] is Ident),
    ensures
        name_after_fn(pre + rest, after_fn) == name_after_fn(rest, after_fn),
    decreases pre.len(),
{
    if pre.len() > 0 {
        let t = pre[0];
        let tail = pre.drop_first();
        assert(pre + rest =~= seq![t] + (tail + rest));
        lemma_name_skips_non_identifier_runs(tail, rest, after_fn);
        lemma_name_skips_non_identifiers(t, tail + rest, after_fn);
    } else {
        assert(pre + rest =~= rest);
    }
}

/// An item whose first identifiers are `fn` and then `n`, with any attributes,
/// groups or punctuation around them, is the function `n`.
pub proof fn lemma_first_fn_names_the_item(
    pre: Seq<AttrToken>,
    fn_kw: String,
    mid: Seq<AttrToken>,
    n: String,
    rest: Seq<AttrToken>,
)
    requires
        fn_kw@ == "fn"@,
        forall|i: int| 0 <= i < pre.len() ==> !(#[trigger] pre[i] is Ident),
        forall|i: int| 0 <= i < mid.len() ==> !(#[trigger] mid[i] is Ident),
    ensures
        name_after_fn(pre + seq![AttrToken::Ident(fn_kw)] + mid + seq![AttrToken::Ident(n)] + rest, false) == Some(n@),
{
    let tail = mid + seq![AttrToken::Ident(n)] + rest;
    assert(pre + seq![AttrToken::Ident(fn_kw)] + mid + seq![AttrToken::Ident(n)] + rest
        =~= pre + (seq![AttrToken::Ident(fn_kw)] + tail));
    lemma_name_skips_non_identifier_runs(pre, seq![AttrToken::Ident(fn_kw)] + tail, false);
    lemma_name_follows_fn_keyword(fn_kw, tail, false);
    assert(tail =~= mid + (seq![AttrToken::Ident(n)] + rest));
    lemma_name_skips_non_identifier_runs(mid, seq![AttrToken::Ident(n)] + rest, true);
    lemma_name_follows_fn_keyword(n, rest, true);
}

/// Walks the annotated item and returns the identifier after the first `fn`
/// keyword (`app_main` for `pub fn app_main() -> !`).
pub fn fn_name_after_keyword_fn(item: &Vec<AttrToken>) -> (r: Option<String>)
    ensures
        match name_after_fn(item@, false) {
            Some(n) => r matches Some(s) && s@ == n,
            None => r is None,
        },
{
    let mut after_fn = false;
    let mut i: usize = 0;
    assert(item@.subrange(0, item@.len() as int) =~= item@);
    while i < item.len()
        invariant
            i <= item@.len(),
            name_after_fn(item@.subrange(i as int, item@.len() as int), after_fn) == name_after_fn(item@, false),
        decreases item.len() - i,
    {
        proof {
            let rest = item@.subrange(i as int, item@.len() as int);
            assert(rest.drop_first() =~= item@.subrange(i + 1, item@.len() as int));
            assert(rest[0] == item@[i as int]);
        }
        match &item[i] {
            AttrToken::Ident(ident) => {
                if after_fn {
                    return Some(ident.clone());
                }
                if ident_matches(ident, "fn") {
                    after_fn = true;
                }
            },
            _ => {},
        }
        i = i + 1;
    }
    proof {
        assert(item@.subrange(i as int, item@.len() as int).len() == 0);
    }
    None
}

/// What an `#[entry(bsp = ...)]` attribute emits: the linker-facing source,
/// followed by the annotated item itself.
pub struct EntryExpansion {
    /// `use <bsp> as _;`, which links the board crate.
    pub prelude: String,
    /// `#[no_mangle] pub extern "C" fn main() -> ! { <name>() }`.
    pub shim: String,
    /// The annotated item, unchanged.
    pub item: Vec<AttrToken>,
}

/// Expands `#[entry(bsp = <crate>)]` on `item`: the board crate must be named
/// validly, the item must be a function, and it must not itself be `main`,
/// which the shim claims for the linker.
pub fn expand_thetos_entry(attr: &Vec<AttrToken>, item: Vec<AttrToken>) -> (r: Result<EntryExpansion, EntryAttrError>)
    ensures
        bsp_attr(attr@) matches Err(e) ==> r == Err::<EntryExpansion, EntryAttrError>(e),
        bsp_attr(attr@) is Ok && name_after_fn(item@, false) is None ==> r == Err::<EntryExpansion, EntryAttrError>(
            EntryAttrError::ExpectedFunction,
        ),
        bsp_attr(attr@) is Ok && name_after_fn(item@, false) == Some("main"@) ==> r
            == Err::<EntryExpansion, EntryAttrError>(EntryAttrError::ReservedMain),
        bsp_attr(attr@) is Ok && name_after_fn(item@, false) is Some && name_after_fn(item@, false)->0 != "main"@ ==> (
        r matches Ok(x) && {
            &&& x.prelude@ == "use "@ + bsp_attr(attr@)->Ok_0 + " as _;"@
            &&& x.shim@ == "#[no_mangle] pub extern \"C\" fn main() -> ! { "@ + name_after_fn(item@, false)->0 + "() }"@
            &&& x.item == item
        }),
{
    let bsp_crate = parse_bsp_attr(attr)?;
    let mut prelude = String::from_str("use ");
    prelude.append(bsp_crate.as_str());
    prelude.append(" as _;");
    let fn_name = match fn_name_after_keyword_fn(&item) {
        Some(n) => n,
        None => {
            return Err(EntryAttrError::ExpectedFunction);
        },
    };
    if ident_matches(&fn_name, "main") {
        return Err(EntryAttrError::ReservedMain);
    }
    let mut shim = String::from_str("#[no_mangle] pub extern \"C\" fn main() -> ! { ");
    shim.append(fn_name.as_str());
    shim.append("() }");
    Ok(EntryExpansion { prelude, shim, item })
}

} // verus!
