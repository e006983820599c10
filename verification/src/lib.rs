//! Build CSS text from a nested selector/property description.
//!
//! A [`StyleTree`](tree::StyleTree) maps selector strings to ordered sets of
//! property/value pairs, where a value may itself be a nested body (for
//! at-rules such as media queries or keyframe blocks).  The renderer walks
//! that tree and emits CSS text, either compact or indented, optionally
//! rewriting class selectors with a namespace prefix for style isolation.

use vstd::prelude::*;

pub mod fns;
pub mod num;
pub mod render;
pub mod style;
pub mod text;
pub mod tree;

verus! {

/// Four spaces for each indent level when indented output is requested,
/// and the empty string otherwise.
pub open spec fn spec_indent(n: nat, use_indents: bool) -> Seq<char>
    decreases n,
{
    if !use_indents || n == 0 {
        Seq::empty()
    } else {
        spec_indent((n - 1) as nat, use_indents) + "    "@
    }
}

/// Convenient function to create the indentation for one nesting level.
pub fn make_indent(n: usize, use_indents: bool) -> (r: String)
    ensures
        r@ == spec_indent(n as nat, use_indents),
{
    let mut r = String::new();
    if !use_indents {
        return r;
    }
    let mut i: usize = 0;
    while i < n
        invariant
            i <= n,
            r@ == spec_indent(i as nat, true),
        decreases n - i,
    {
        r.append("    ");
        i = i + 1;
    }
    r
}

/// Render a tree to CSS text in lenient mode: an unresolvable property key
/// passes through unchanged, so rendering always succeeds.  `namespace`
/// rewrites class selectors; `use_indents` selects indented output.
pub fn process_css(namespace: Option<&str>, tree: &tree::StyleTree, use_indents: bool) -> (r:
    String)
    ensures
        render::spec_render(*tree, render::opt_str_view(namespace), use_indents, 0, false)
            == Ok::<Seq<char>, tree::SpecCssError>(r@),
{
    match render::render(tree, namespace, use_indents, 0, false) {
        Ok(s) => s,
        Err(e) => {
            proof {
                render::lemma_lenient_render_total(
                    *tree,
                    render::opt_str_view(namespace),
                    use_indents,
                    0,
                );
            }
            vstd::pervasive::unreached()
        },
    }
}

/// Render the property pairs used inside one selector block, in lenient
/// mode, at one level below `indent`.  `classes` is the enclosing selector,
/// kept for diagnostics only.
pub fn process_css_properties(
    indent: usize,
    namespace: Option<&str>,
    classes: Option<&str>,
    style_properties: &tree::StyleBody,
    use_indents: bool,
) -> (r: String)
    requires
        indent < usize::MAX,
    ensures
        render::spec_render_pairs(
            style_properties.entries@,
            render::opt_str_view(namespace),
            render::opt_str_view(classes),
            use_indents,
            spec_indent(indent as nat + 1, use_indents),
            false,
        ) == Ok::<Seq<char>, tree::SpecCssError>(r@),
{
    let table = style::PropertyTable::new();
    let ind = make_indent(indent + 1, use_indents);
    match render::render_pairs(
        &table,
        &style_properties.entries,
        namespace,
        classes,
        use_indents,
        ind.as_str(),
        false,
    ) {
        Ok(s) => s,
        Err(e) => {
            proof {
                render::lemma_lenient_pairs_total(
                    style_properties.entries@,
                    render::opt_str_view(namespace),
                    render::opt_str_view(classes),
                    use_indents,
                    ind@,
                );
            }
            vstd::pervasive::unreached()
        },
    }
}

/// One comma-separated compound-class group, rewritten: leading dots are
/// stripped, the remaining text is split on `.` into class names, and each
/// class name becomes `.{ns}__{name}`, concatenated without separators.
pub open spec fn spec_class_group(ns: Seq<char>, group: Seq<char>) -> Seq<char> {
    text::spec_join(
        text::spec_split(text::strip_leading_rec(group, '.'), '.').map_values(
            |name: Seq<char>| seq!['.'] + ns + seq!['_', '_'] + name,
        ),
        Seq::<char>::empty(),
    )
}

/// One whitespace-delimited selector token, rewritten: a token starting with
/// `.` is split on `,` into compound-class groups, each group is rewritten by
/// [`spec_class_group`], and the groups are rejoined with `,`; any other
/// token passes through unchanged (after trimming).
pub open spec fn spec_token_namespaced(ns: Seq<char>, tok: Seq<char>) -> Seq<char> {
    let t = text::spec_trim(tok);
    if t.len() > 0 && t[0] == '.' {
        text::spec_join(
            text::spec_split(text::strip_leading_rec(t, '.'), ',').map_values(
                |g: Seq<char>| spec_class_group(ns, g),
            ),
            seq![','],
        )
    } else {
        t
    }
}

/// A whole selector, rewritten under namespace `ns`: the selector `.` alone
/// denotes the namespace root `.{ns}`; otherwise the trimmed selector is
/// split on single spaces (descendant combinators), each token is rewritten
/// by [`spec_token_namespaced`], and the tokens are rejoined with spaces.
pub open spec fn spec_selector_namespaced(ns: Seq<char>, sel: Seq<char>) -> Seq<char> {
    let t = text::spec_trim(sel);
    if t == seq!['.'] {
        seq!['.'] + ns
    } else {
        text::spec_join(
            text::spec_split(t, ' ').map_values(|tok: Seq<char>| spec_token_namespaced(ns, tok)),
            seq![' '],
        )
    }
}

/// Every whitespace-delimited part of the trimmed class list, prefixed as
/// `{ns}__{part}`; the bare namespace when the class list is empty.
pub open spec fn spec_class_namespaced(ns: Seq<char>, cls: Seq<char>) -> Seq<char> {
    let t = text::spec_trim(cls);
    if t.len() == 0 {
        ns
    } else {
        text::spec_join(
            text::spec_split(t, ' ').map_values(|p: Seq<char>| ns + seq!['_', '_'] + text::spec_trim(p)),
            seq![' '],
        )
    }
}

/// Is this whitespace-delimited token a class token, the kind namespacing
/// rewrites?
pub open spec fn spec_is_class_token(tok: Seq<char>) -> bool {
    text::spec_trim(tok).len() > 0 && text::spec_trim(tok)[0] == '.'
}

/// Namespacing leaves a whole selector unchanged whenever none of its
/// whitespace-delimited tokens is a class token: at-rule headers such as
/// `@media screen and (max-width: 900px)` and element selectors pass
/// through untouched, for any namespace.
pub proof fn lemma_namespace_without_class_tokens(ns: Seq<char>, sel: Seq<char>)
    requires
        text::spec_trim(sel) == sel,
        sel != seq!['.'],
        forall|i: int|
            0 <= i < text::spec_split(sel, ' ').len() ==> !spec_is_class_token(
                #[trigger] text::spec_split(sel, ' ')[i],
            ) && text::spec_trim(text::spec_split(sel, ' ')[i]) == text::spec_split(sel, ' ')[i],
    ensures
        spec_selector_namespaced(ns, sel) == sel,
{
    let toks = text::spec_split(sel, ' ');
    let mapped = toks.map_values(|tok: Seq<char>| spec_token_namespaced(ns, tok));
    assert forall|i: int| 0 <= i < toks.len() implies mapped[i] == toks[i] by {
        assert(!spec_is_class_token(toks[i]));
        assert(text::spec_trim(toks[i]) == toks[i]);
    }
    assert(mapped =~= toks);
    text::lemma_join_split(sel, ' ');
}

/// Namespacing never rewrites a selector that holds no class token: for any
/// namespace, a non-empty selector free of dots and whitespace (an element
/// selector such as `button`) is returned unchanged.
pub proof fn lemma_namespace_non_class(ns: Seq<char>, sel: Seq<char>)
    requires
        sel.len() > 0,
        forall|k: int| 0 <= k < sel.len() ==> !text::is_space_char(#[trigger] sel[k]) && sel[k]
            != '.',
    ensures
        spec_selector_namespaced(ns, sel) == sel,
{
    text::lemma_trim_id(sel);
    assert(sel != seq!['.']) by {
        if sel == seq!['.'] {
            assert(sel[0] == '.');
        }
    }
    text::lemma_split_no_sep(sel, ' ');
    let toks = text::spec_split(sel, ' ').map_values(|tok: Seq<char>| spec_token_namespaced(ns, tok));
    assert(toks =~= seq![spec_token_namespaced(ns, sel)]);
    assert(spec_token_namespaced(ns, sel) == sel);
    assert(text::spec_join(toks, seq![' ']) == sel);
}

/// The instance for the plainest element selector: for any namespace,
/// `button` is returned unchanged.
pub proof fn lemma_namespace_button(ns: Seq<char>)
    ensures
        spec_selector_namespaced(ns, "button"@) == "button"@,
{
    reveal_strlit("button");
    assert(forall|k: int|
        0 <= k < "button"@.len() ==> !text::is_space_char(#[trigger] "button"@[k]) && "button"@[k]
            != '.');
    lemma_namespace_non_class(ns, "button"@);
}

/// The selector `.` alone always becomes the bare namespace class: for any
/// namespace `ns`, namespacing `.` yields `.{ns}`.
pub proof fn lemma_namespace_root(ns: Seq<char>)
    ensures
        spec_selector_namespaced(ns, "."@) == seq!['.'] + ns,
{
    reveal_strlit(".");
    assert("."@ =~= seq!['.']);
    text::lemma_trim_id("."@);
}

fn namespace_class_group(namespace: &str, group: &str) -> (r: String)
    ensures
        r@ == spec_class_group(namespace@, group@),
{
    let stripped = text::strip_leading(group, '.');
    let names = text::split_char(stripped.as_str(), '.');
    let ghost src = text::spec_split(text::strip_leading_rec(group@, '.'), '.');
    let mut out: Vec<String> = Vec::new();
    let mut i: usize = 0;
    while i < names.len()
        invariant
            i <= names.len(),
            src == text::views_of(names@),
            out@.len() == i,
            forall|k: int|
                0 <= k < i ==> text::views_of(out@)[k] == seq!['.'] + namespace@ + seq!['_', '_']
                    + src[k],
        decreases names.len() - i,
    {
        let mut piece = ".".to_owned();
        piece.append(namespace);
        piece.append("__");
        piece.append(names[i].as_str());
        proof {
            reveal_strlit(".");
            reveal_strlit("__");
            assert("."@ =~= seq!['.']);
            assert("__"@ =~= seq!['_', '_']);
            assert(piece@ =~= seq!['.'] + namespace@ + seq!['_', '_'] + src[i as int]);
        }
        let ghost prev = out@;
        let ghost pv = piece@;
        out.push(piece);
        proof {
            assert(text::views_of(out@) =~= text::views_of(prev).push(pv));
        }
        i = i + 1;
    }
    let r = text::join(&out, "");
    proof {
        reveal_strlit("");
        assert(""@ =~= Seq::<char>::empty());
        assert(text::views_of(out@) =~= src.map_values(
            |name: Seq<char>| seq!['.'] + namespace@ + seq!['_', '_'] + name,
        ));
    }
    r
}

fn namespace_token(namespace: &str, token: &str) -> (r: String)
    ensures
        r@ == spec_token_namespaced(namespace@, token@),
{
    let t = text::trim(token);
    if text::starts_with_char(t.as_str(), '.') {
        let inner = text::strip_leading(t.as_str(), '.');
        let groups = text::split_char(inner.as_str(), ',');
        let ghost srcg = text::spec_split(text::strip_leading_rec(t@, '.'), ',');
        let mut out: Vec<String> = Vec::new();
        let mut i: usize = 0;
        while i < groups.len()
            invariant
                i <= groups.len(),
                srcg == text::views_of(groups@),
                out@.len() == i,
                forall|k: int|
                    0 <= k < i ==> text::views_of(out@)[k] == spec_class_group(
                        namespace@,
                        srcg[k],
                    ),
            decreases groups.len() - i,
        {
            let piece = namespace_class_group(namespace, groups[i].as_str());
            let ghost prev = out@;
            let ghost pv = piece@;
            out.push(piece);
            proof {
                assert(text::views_of(out@) =~= text::views_of(prev).push(pv));
            }
            i = i + 1;
        }
        let r = text::join(&out, ",");
        proof {
            reveal_strlit(",");
            assert(","@ =~= seq![',']);
            assert(text::views_of(out@) =~= srcg.map_values(
                |g: Seq<char>| spec_class_group(namespace@, g),
            ));
        }
        r
    } else {
        t
    }
}

/// Prepend a namespace to the class tokens of a selector.
/// Element selectors, id selectors and other non-class tokens are unchanged;
/// the selector `.` alone becomes the bare namespace class `.{ns}`.
pub fn selector_namespaced(namespace: &str, selector_classes: &str) -> (r: String)
    ensures
        r@ == spec_selector_namespaced(namespace@, selector_classes@),
{
    let t = text::trim(selector_classes);
    let is_root = text::str_eq(t.as_str(), ".");
    proof {
        reveal_strlit(".");
        assert("."@ =~= seq!['.']);
    }
    if is_root {
        let mut r = ".".to_owned();
        r.append(namespace);
        proof {
            assert(r@ =~= seq!['.'] + namespace@);
        }
        r
    } else {
        let toks = text::split_char(t.as_str(), ' ');
        let ghost src = text::spec_split(text::spec_trim(selector_classes@), ' ');
        let mut out: Vec<String> = Vec::new();
        let mut i: usize = 0;
        while i < toks.len()
            invariant
                i <= toks.len(),
                src == text::views_of(toks@),
                out@.len() == i,
                forall|k: int|
                    0 <= k < i ==> text::views_of(out@)[k] == spec_token_namespaced(
                        namespace@,
                        src[k],
                    ),
            decreases toks.len() - i,
        {
            let piece = namespace_token(namespace, toks[i].as_str());
            let ghost prev = out@;
            let ghost pv = piece@;
            out.push(piece);
            proof {
                assert(text::views_of(out@) =~= text::views_of(prev).push(pv));
            }
            i = i + 1;
        }
        let r = text::join(&out, " ");
        proof {
            reveal_strlit(" ");
            assert(" "@ =~= seq![' ']);
            assert(text::views_of(out@) =~= src.map_values(
                |tok: Seq<char>| spec_token_namespaced(namespace@, tok),
            ));
        }
        r
    }
}

/// Prepend the namespace to each whitespace-delimited class name, as used
/// when assigning the class attribute of an element.
pub fn class_namespaced(namespace: &str, class_names: &str) -> (r: String)
    ensures
        r@ == spec_class_namespaced(namespace@, class_names@),
{
    let t = text::trim(class_names);
    if t.as_str().unicode_len() == 0 {
        proof {
            assert(t@ =~= Seq::<char>::empty());
        }
        namespace.to_owned()
    } else {
        let parts = text::split_char(t.as_str(), ' ');
        let ghost src = text::spec_split(text::spec_trim(class_names@), ' ');
        let mut out: Vec<String> = Vec::new();
        let mut i: usize = 0;
        while i < parts.len()
            invariant
                i <= parts.len(),
                src == text::views_of(parts@),
                out@.len() == i,
                forall|k: int|
                    0 <= k < i ==> text::views_of(out@)[k] == namespace@ + seq!['_', '_']
                        + text::spec_trim(src[k]),
            decreases parts.len() - i,
        {
            let mut piece = namespace.to_owned();
            piece.append("__");
            let trimmed = text::trim(parts[i].as_str());
            piece.append(trimmed.as_str());
            proof {
                reveal_strlit("__");
                assert("__"@ =~= seq!['_', '_']);
                assert(piece@ =~= namespace@ + seq!['_', '_'] + text::spec_trim(src[i as int]));
            }
            let ghost prev = out@;
            let ghost pv = piece@;
            out.push(piece);
            proof {
                assert(text::views_of(out@) =~= text::views_of(prev).push(pv));
            }
            i = i + 1;
        }
        let r = text::join(&out, " ");
        proof {
            reveal_strlit(" ");
            assert(" "@ =~= seq![' ']);
            assert(text::views_of(out@) =~= src.map_values(
                |p: Seq<char>| namespace@ + seq!['_', '_'] + text::spec_trim(p),
            ));
        }
        r
    }
}

} // verus!
